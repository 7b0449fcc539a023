//! The side of an order or a taker trade.

use vstd::prelude::*;
use crate::currency::BaseCurrency;

verus! {

/// Side of an order or trade.
#[derive(Debug, Clone, Copy, PartialEq, Eq, Structural, Hash)]
pub enum Side {
    /// Buy side.
    Buy,
    /// Sell side.
    Sell,
}

impl Side {
    /// The opposite side.
    pub fn inverted(&self) -> (r: Self)
        ensures
            r == (match self {
                Side::Buy => Side::Sell,
                Side::Sell => Side::Buy,
            }),
    {
        match self {
            Side::Buy => Side::Sell,
            Side::Sell => Side::Buy,
        }
    }

    /// The side of a taker trade given as a signed quantity: negative
    /// quantities are sells.  A zero quantity is no trade at all.
    pub fn from_taker_quantity(qty: BaseCurrency) -> (r: Self)
        requires
            qty@ != 0,
        ensures
            r == (if qty@ < 0 {
                Side::Sell
            } else {
                Side::Buy
            }),
    {
        if qty.m < 0 {
            Side::Sell
        } else {
            Side::Buy
        }
    }
}

} // verus!

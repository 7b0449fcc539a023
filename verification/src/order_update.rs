//! Updates to resting limit orders that a market update produced.

use vstd::prelude::*;
use crate::limit_order::LimitOrder;
use crate::order_status::{Filled, Pending};

verus! {

/// The possible updates to a resting limit order.
#[derive(Debug, Clone, Copy, PartialEq, Eq, Structural)]
pub enum LimitOrderUpdate {
    /// The limit order was partially filled; the carried order shows the new
    /// cumulative fill.
    PartiallyFilled(LimitOrder<Pending>),
    /// The limit order was fully filled and left the book.
    FullyFilled(LimitOrder<Filled>),
}

} // verus!

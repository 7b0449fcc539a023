//! Market orders: taker orders that execute immediately at the best quote.

use vstd::prelude::*;
use crate::currency::{BaseCurrency, QuoteCurrency, UNIT_LIMIT};
use crate::errors::OrderError;
use crate::order_status::{ExchangeOrderMeta, Filled, FilledQuantity, NewOrder, Pending};
use crate::side::Side;

verus! {

/// A market order, parametrized by its lifecycle state.
///
/// A `user_order_id` of zero means the user attached no id of their own.
#[derive(Debug, Clone, Copy, PartialEq, Eq, Structural)]
pub struct MarketOrder<S> {
    /// Order id provided by the user; zero when absent.
    pub user_order_id: u64,
    /// Whether its a buy or sell order.
    pub side: Side,
    /// The quantity of base currency the order is for.
    pub quantity: BaseCurrency,
    /// The lifecycle-state data.
    pub state: S,
}

impl<S> MarketOrder<S> {
    /// The user-provided order id; zero when absent.
    pub fn user_order_id(&self) -> (r: u64)
        ensures
            r == self.user_order_id,
    {
        self.user_order_id
    }

    /// Whether its a buy or sell order.
    pub fn side(&self) -> (r: Side)
        ensures
            r == self.side,
    {
        self.side
    }

    /// The quantity of base currency the order is for.
    pub fn quantity(&self) -> (r: BaseCurrency)
        ensures
            r == self.quantity,
    {
        self.quantity
    }

    /// The lifecycle-state data.
    pub fn state(&self) -> (r: &S)
        ensures
            r == self.state,
    {
        &self.state
    }
}

impl MarketOrder<NewOrder> {
    /// The order's quantity is positive and within the engine's numeric
    /// range.
    pub open spec fn spec_valid_new(self) -> bool {
        0 < self.quantity@ <= UNIT_LIMIT
    }

    /// Create a new market order without a user order id.
    ///
    /// Returns an error when the quantity is not strictly positive.
    pub fn new(side: Side, quantity: BaseCurrency) -> (r: Result<Self, OrderError>)
        requires
            quantity@ <= UNIT_LIMIT,
        ensures
            r == (if quantity@ > 0 {
                Ok::<Self, OrderError>(
                    MarketOrder { user_order_id: 0u64, side, quantity, state: NewOrder },
                )
            } else {
                Err::<Self, OrderError>(OrderError::OrderQuantityLTEZero)
            }),
    {
        if quantity.m <= 0 {
            return Err(OrderError::OrderQuantityLTEZero);
        }
        Ok(MarketOrder { user_order_id: 0, side, quantity, state: NewOrder })
    }

    /// Create a new market order carrying a user order id.
    ///
    /// Returns an error when the quantity is not strictly positive.
    pub fn new_with_user_order_id(side: Side, quantity: BaseCurrency, user_order_id: u64) -> (r:
        Result<Self, OrderError>)
        requires
            quantity@ <= UNIT_LIMIT,
        ensures
            r == (if quantity@ > 0 {
                Ok::<Self, OrderError>(MarketOrder { user_order_id, side, quantity, state: NewOrder })
            } else {
                Err::<Self, OrderError>(OrderError::OrderQuantityLTEZero)
            }),
    {
        if quantity.m <= 0 {
            return Err(OrderError::OrderQuantityLTEZero);
        }
        Ok(MarketOrder { user_order_id, side, quantity, state: NewOrder })
    }

    /// Take in the order metadata provided by the exchange and convert the
    /// order to the `Pending` state.
    pub fn into_pending(self, meta: ExchangeOrderMeta) -> (r: MarketOrder<Pending>)
        ensures
            r == (MarketOrder {
                user_order_id: self.user_order_id,
                side: self.side,
                quantity: self.quantity,
                state: (Pending { meta, filled_quantity: FilledQuantity::Unfilled }),
            }),
    {
        let state = Pending::new(meta);
        MarketOrder { user_order_id: self.user_order_id, side: self.side, quantity: self.quantity, state }
    }
}

impl MarketOrder<Pending> {
    /// Mark the order as fully filled at the given price and time.
    pub(crate) fn into_filled(self, fill_price: QuoteCurrency, ts_ns_executed: i64) -> (r:
        MarketOrder<Filled>)
        ensures
            r == (MarketOrder {
                user_order_id: self.user_order_id,
                side: self.side,
                quantity: self.quantity,
                state: Filled {
                    meta: self.state.meta,
                    ts_ns_executed,
                    avg_fill_price: fill_price,
                    filled_qty: self.quantity,
                },
            }),
    {
        MarketOrder {
            user_order_id: self.user_order_id,
            side: self.side,
            quantity: self.quantity,
            state: Filled {
                meta: self.state.meta,
                ts_ns_executed,
                avg_fill_price: fill_price,
                filled_qty: self.quantity,
            },
        }
    }
}

} // verus!

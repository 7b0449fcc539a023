//! Limit orders: passive orders that rest in the book at a limit price.

use vstd::prelude::*;
use crate::currency::{BaseCurrency, QuoteCurrency, UNIT_LIMIT};
use crate::errors::OrderError;
use crate::order_status::{ExchangeOrderMeta, Filled, FilledQuantity, NewOrder, Pending};
use crate::side::Side;

verus! {

/// A limit order, parametrized by its lifecycle state.
///
/// A `user_order_id` of zero means the user attached no id of their own.
#[derive(Debug, Clone, Copy, PartialEq, Eq, Structural)]
pub struct LimitOrder<S> {
    /// Order id provided by the user; zero when absent.
    pub user_order_id: u64,
    /// Whether its a buy or sell order.
    pub side: Side,
    /// The price the order is willing to trade at.
    pub limit_price: QuoteCurrency,
    /// The quantity of base currency the order is for.
    pub quantity: BaseCurrency,
    /// The lifecycle-state data.
    pub state: S,
}

impl<S> LimitOrder<S> {
    /// The user-provided order id; zero when absent.
    pub fn user_order_id(&self) -> (r: u64)
        ensures
            r == self.user_order_id,
    {
        self.user_order_id
    }

    /// Whether its a buy or sell order.
    pub fn side(&self) -> (r: Side)
        ensures
            r == self.side,
    {
        self.side
    }

    /// The price the order is willing to trade at.
    pub fn limit_price(&self) -> (r: QuoteCurrency)
        ensures
            r == self.limit_price,
    {
        self.limit_price
    }

    /// The total quantity of base currency the order is for.
    pub fn quantity(&self) -> (r: BaseCurrency)
        ensures
            r == self.quantity,
    {
        self.quantity
    }

    /// The lifecycle-state data.
    pub fn state(&self) -> (r: &S)
        ensures
            r == self.state,
    {
        &self.state
    }
}

impl LimitOrder<NewOrder> {
    /// Create a new limit order without a user order id.
    ///
    /// Returns an error when the quantity is not strictly positive.
    pub fn new(side: Side, limit_price: QuoteCurrency, quantity: BaseCurrency) -> (r: Result<
        Self,
        OrderError,
    >)
        requires
            0 < limit_price@ <= UNIT_LIMIT,
            quantity@ <= UNIT_LIMIT,
        ensures
            r == (if quantity@ > 0 {
                Ok::<Self, OrderError>(
                    LimitOrder { user_order_id: 0u64, side, limit_price, quantity, state: NewOrder },
                )
            } else {
                Err::<Self, OrderError>(OrderError::OrderQuantityLTEZero)
            }),
    {
        if quantity.m <= 0 {
            return Err(OrderError::OrderQuantityLTEZero);
        }
        Ok(LimitOrder { user_order_id: 0, side, limit_price, quantity, state: NewOrder })
    }

    /// Create a new limit order carrying a user order id.
    ///
    /// Returns an error when the quantity is not strictly positive.
    pub fn new_with_user_order_id(
        side: Side,
        limit_price: QuoteCurrency,
        quantity: BaseCurrency,
        user_order_id: u64,
    ) -> (r: Result<Self, OrderError>)
        requires
            0 < limit_price@ <= UNIT_LIMIT,
            quantity@ <= UNIT_LIMIT,
        ensures
            r == (if quantity@ > 0 {
                Ok::<Self, OrderError>(
                    LimitOrder { user_order_id, side, limit_price, quantity, state: NewOrder },
                )
            } else {
                Err::<Self, OrderError>(OrderError::OrderQuantityLTEZero)
            }),
    {
        if quantity.m <= 0 {
            return Err(OrderError::OrderQuantityLTEZero);
        }
        Ok(LimitOrder { user_order_id, side, limit_price, quantity, state: NewOrder })
    }

    /// Take in the order metadata provided by the exchange and convert the
    /// order to the `Pending` state.
    pub fn into_pending(self, meta: ExchangeOrderMeta) -> (r: LimitOrder<Pending>)
        ensures
            r == (LimitOrder {
                user_order_id: self.user_order_id,
                side: self.side,
                limit_price: self.limit_price,
                quantity: self.quantity,
                state: (Pending { meta, filled_quantity: FilledQuantity::Unfilled }),
            }),
    {
        let state = Pending::new(meta);
        LimitOrder {
            user_order_id: self.user_order_id,
            side: self.side,
            limit_price: self.limit_price,
            quantity: self.quantity,
            state,
        }
    }
}

impl LimitOrder<NewOrder> {
    /// The order's price and quantity are positive and within the engine's
    /// numeric range.
    pub open spec fn spec_valid_new(self) -> bool {
        &&& 0 < self.quantity@ <= UNIT_LIMIT
        &&& 0 < self.limit_price@ <= UNIT_LIMIT
    }
}

impl LimitOrder<Pending> {
    /// The quantity of the order that is still unfilled.
    pub open spec fn spec_remaining(self) -> int {
        self.quantity@ - self.state.filled_quantity.spec_cumulative()
    }

    /// The exchange-assigned order id.
    pub fn id(&self) -> (r: u64)
        ensures
            r == self.state.meta.id,
    {
        self.state.meta.id
    }

    /// The quantity of the order that is still unfilled.
    pub fn remaining_quantity(&self) -> (r: BaseCurrency)
        requires
            self.state.filled_quantity.spec_cumulative() <= self.quantity@,
            -UNIT_LIMIT <= self.spec_remaining() <= UNIT_LIMIT,
        ensures
            r@ == self.spec_remaining(),
    {
        match self.state.filled_quantity {
            FilledQuantity::Unfilled => self.quantity,
            FilledQuantity::Filled { cumulative_qty, .. } => self.quantity.minus(cumulative_qty),
        }
    }

    /// Record a fill of `filled_qty` at the limit price.  Returns the
    /// terminal `Filled` order when this fill exhausts the order; otherwise
    /// updates the cumulative fill in place.
    pub(crate) fn fill(&mut self, filled_qty: BaseCurrency, ts_ns: i64) -> (r: Option<
        LimitOrder<Filled>,
    >)
        requires
            0 < old(self).quantity@ <= UNIT_LIMIT,
            old(self).state.filled_quantity.spec_cumulative() >= 0,
            0 < filled_qty@ <= old(self).spec_remaining(),
        ensures
            final(self).user_order_id == old(self).user_order_id,
            final(self).side == old(self).side,
            final(self).limit_price == old(self).limit_price,
            final(self).quantity == old(self).quantity,
            final(self).state.meta == old(self).state.meta,
            final(self).state.filled_quantity == (FilledQuantity::Filled {
                cumulative_qty: BaseCurrency {
                    m: (old(self).state.filled_quantity.spec_cumulative() + filled_qty@) as i128,
                },
                avg_price: old(self).limit_price,
            }),
            r == (if old(self).spec_remaining() == filled_qty@ {
                Some(
                    LimitOrder {
                        user_order_id: old(self).user_order_id,
                        side: old(self).side,
                        limit_price: old(self).limit_price,
                        quantity: old(self).quantity,
                        state: Filled {
                            meta: old(self).state.meta,
                            ts_ns_executed: ts_ns,
                            avg_fill_price: old(self).limit_price,
                            filled_qty: old(self).quantity,
                        },
                    },
                )
            } else {
                None::<LimitOrder<Filled>>
            }),
    {
        let new_cum = match self.state.filled_quantity {
            FilledQuantity::Unfilled => filled_qty,
            FilledQuantity::Filled { cumulative_qty, .. } => cumulative_qty.plus(filled_qty),
        };
        self.state.filled_quantity = FilledQuantity::Filled {
            cumulative_qty: new_cum,
            avg_price: self.limit_price,
        };
        if new_cum.m == self.quantity.m {
            Some(
                LimitOrder {
                    user_order_id: self.user_order_id,
                    side: self.side,
                    limit_price: self.limit_price,
                    quantity: self.quantity,
                    state: Filled {
                        meta: self.state.meta,
                        ts_ns_executed: ts_ns,
                        avg_fill_price: self.limit_price,
                        filled_qty: self.quantity,
                    },
                },
            )
        } else {
            None
        }
    }
}

} // verus!

//! Lifecycle states of an order.
//!
//! An order is created in the [`NewOrder`] state, becomes [`Pending`] when
//! the exchange accepts it and assigns it an id, and ends [`Filled`].  The
//! state is a type parameter of the order types, so that an order in the
//! wrong state cannot be passed where another state is expected.

use vstd::prelude::*;
use crate::currency::{BaseCurrency, QuoteCurrency};

verus! {

/// The metadata the exchange fills in when it accepts an order.
#[derive(Debug, Clone, Copy, PartialEq, Eq, Structural)]
pub struct ExchangeOrderMeta {
    /// The exchange-assigned order id; strictly increasing over submissions.
    pub id: u64,
    /// The exchange timestamp at submission, in nanoseconds.
    pub ts_ns_created: i64,
}

impl ExchangeOrderMeta {
    /// Create a new instance.
    pub fn new(id: u64, ts_ns_created: i64) -> (r: Self)
        ensures
            r == (ExchangeOrderMeta { id, ts_ns_created }),
    {
        Self { id, ts_ns_created }
    }

    /// The exchange-assigned order id.
    pub fn id(&self) -> (r: u64)
        ensures
            r == self.id,
    {
        self.id
    }

    /// The exchange timestamp at submission, in nanoseconds.
    pub fn ts_ns_created(&self) -> (r: i64)
        ensures
            r == self.ts_ns_created,
    {
        self.ts_ns_created
    }
}

/// A new order that the exchange has not yet seen: no id, no timestamp, and
/// the filters have not been checked.
#[derive(Debug, Clone, Copy, PartialEq, Eq, Structural)]
pub struct NewOrder;

/// How much of a pending order has been filled so far.
#[derive(Debug, Clone, Copy, PartialEq, Eq, Structural)]
pub enum FilledQuantity {
    /// Nothing has been filled yet.
    Unfilled,
    /// Some (or all) of the order quantity has been filled.
    Filled {
        /// Cumulative quantity filled so far.
        cumulative_qty: BaseCurrency,
        /// The average price it was filled at.
        avg_price: QuoteCurrency,
    },
}

impl FilledQuantity {
    /// The cumulative filled quantity, zero if nothing filled yet.
    pub open spec fn spec_cumulative(self) -> int {
        match self {
            FilledQuantity::Unfilled => 0,
            FilledQuantity::Filled { cumulative_qty, .. } => cumulative_qty@,
        }
    }
}

/// An order resting at the exchange: it has metadata and possibly partial
/// fills.
#[derive(Debug, Clone, Copy, PartialEq, Eq, Structural)]
pub struct Pending {
    /// The filled-in order metadata.
    pub meta: ExchangeOrderMeta,
    /// Information about the filled quantity.
    pub filled_quantity: FilledQuantity,
}

impl Pending {
    /// Create a new, so far unfilled, pending state.
    pub fn new(meta: ExchangeOrderMeta) -> (r: Self)
        ensures
            r == (Pending { meta, filled_quantity: FilledQuantity::Unfilled }),
    {
        Self { meta, filled_quantity: FilledQuantity::Unfilled }
    }

    /// The order metadata.
    pub fn meta(&self) -> (r: &ExchangeOrderMeta)
        ensures
            r == self.meta,
    {
        &self.meta
    }

    /// Information about the filled quantity.
    pub fn filled_quantity(&self) -> (r: &FilledQuantity)
        ensures
            r == self.filled_quantity,
    {
        &self.filled_quantity
    }
}

/// The terminal state of a fully executed order.
#[derive(Debug, Clone, Copy, PartialEq, Eq, Structural)]
pub struct Filled {
    /// The filled-in order metadata.
    pub meta: ExchangeOrderMeta,
    /// The simulated exchange time at which the order was executed.
    pub ts_ns_executed: i64,
    /// The average price the order was filled at.
    pub avg_fill_price: QuoteCurrency,
    /// The total filled quantity.
    pub filled_qty: BaseCurrency,
}

impl Filled {
    /// Create a new instance.
    pub fn new(
        meta: ExchangeOrderMeta,
        ts_ns_executed: i64,
        avg_fill_price: QuoteCurrency,
        filled_qty: BaseCurrency,
    ) -> (r: Self)
        ensures
            r == (Filled { meta, ts_ns_executed, avg_fill_price, filled_qty }),
    {
        Self { meta, ts_ns_executed, avg_fill_price, filled_qty }
    }

    /// The order metadata.
    pub fn meta(&self) -> (r: &ExchangeOrderMeta)
        ensures
            r == self.meta,
    {
        &self.meta
    }

    /// The simulated exchange time at which the order was executed.
    pub fn ts_ns_executed(&self) -> (r: i64)
        ensures
            r == self.ts_ns_executed,
    {
        self.ts_ns_executed
    }

    /// The average price the order was filled at.
    pub fn avg_fill_price(&self) -> (r: QuoteCurrency)
        ensures
            r == self.avg_fill_price,
    {
        self.avg_fill_price
    }

    /// The total filled quantity.
    pub fn filled_qty(&self) -> (r: BaseCurrency)
        ensures
            r == self.filled_qty,
    {
        self.filled_qty
    }
}

} // verus!

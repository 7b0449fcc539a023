//! The current state of the simulated market.

use vstd::prelude::*;
use crate::currency::{div_floor, QuoteCurrency, UNIT_LIMIT};

verus! {

/// Some information regarding the state of the market: the best quotes,
/// the current simulated time and a step counter.
#[derive(Debug, Clone, Copy, PartialEq, Eq, Structural)]
pub struct MarketState {
    /// The current best bid.
    pub bid: QuoteCurrency,
    /// The current best ask.
    pub ask: QuoteCurrency,
    /// The current timestamp in nanoseconds.
    pub current_ts_ns: i64,
    /// Used for synchronizing orders; incremented on every accepted update.
    pub step: u64,
}

impl MarketState {
    /// Either no quote has been seen yet, or the bid is strictly below the
    /// ask and both are positive bounded prices.
    pub open spec fn wf(self) -> bool {
        ||| (self.bid@ == 0 && self.ask@ == 0)
        ||| (0 < self.bid@ < self.ask@ <= UNIT_LIMIT)
    }

    /// The mid price: the midpoint of bid and ask, truncated to the scale.
    pub open spec fn spec_mid_price(self) -> int {
        (self.bid@ + self.ask@) / 2
    }

    /// A fresh market state, before any update was seen.
    pub fn new() -> (r: Self)
        ensures
            r == (MarketState {
                bid: QuoteCurrency { m: 0 },
                ask: QuoteCurrency { m: 0 },
                current_ts_ns: 0i64,
                step: 0u64,
            }),
            r.wf(),
    {
        MarketState {
            bid: QuoteCurrency { m: 0 },
            ask: QuoteCurrency { m: 0 },
            current_ts_ns: 0,
            step: 0,
        }
    }

    /// Assemble a market state from its parts.
    pub fn from_components(
        bid: QuoteCurrency,
        ask: QuoteCurrency,
        current_ts_ns: i64,
        step: u64,
    ) -> (r: Self)
        ensures
            r == (MarketState { bid, ask, current_ts_ns, step }),
    {
        MarketState { bid, ask, current_ts_ns, step }
    }

    /// The current best bid.
    pub fn bid(&self) -> (r: QuoteCurrency)
        ensures
            r == self.bid,
    {
        self.bid
    }

    /// The current best ask.
    pub fn ask(&self) -> (r: QuoteCurrency)
        ensures
            r == self.ask,
    {
        self.ask
    }

    /// The step counter: how many market updates have been accepted.
    pub fn step(&self) -> (r: u64)
        ensures
            r == self.step,
    {
        self.step
    }

    /// Get the mid price: the midpoint of the best bid and ask.
    pub fn mid_price(&self) -> (r: QuoteCurrency)
        requires
            self.wf(),
        ensures
            r@ == self.spec_mid_price(),
    {
        QuoteCurrency { m: div_floor(self.bid.m + self.ask.m, 2) }
    }

    /// Get the last observed timestamp in nanoseconds.
    pub fn current_timestamp_ns(&self) -> (r: i64)
        ensures
            r == self.current_ts_ns,
    {
        self.current_ts_ns
    }
}

} // verus!

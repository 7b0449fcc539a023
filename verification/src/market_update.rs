//! Market updates: the events that drive the exchange forward.

use vstd::prelude::*;
use crate::currency::{BaseCurrency, POS_QTY_LIMIT, QuoteCurrency, UNIT_LIMIT};
use crate::errors::{Error, FilterError, MarketUpdateError};
use crate::limit_order::LimitOrder;
use crate::order_status::Pending;
use crate::price_filter::PriceFilter;
use crate::side::Side;
use crate::smart_candle::{spec_buy_volume_above, spec_sell_volume_below, SmartCandle};

verus! {

/// A taker trade that consumes liquidity in the book.
#[derive(Debug, Clone, Copy, PartialEq, Eq, Structural)]
pub struct Trade {
    /// The price at which the trade executed.
    pub price: QuoteCurrency,
    /// The executed quantity, in base currency; strictly positive.
    pub quantity: BaseCurrency,
    /// Whether the taker bought or sold.
    pub side: Side,
}

/// A market update: a new best-bid-ask quotation, a single taker trade, or
/// a candle of aggregated taker flow.
#[derive(Debug, Clone, PartialEq, Eq)]
pub enum MarketUpdate {
    /// A fresh best bid and ask; never fills resting orders, because they
    /// are assumed to hold the worst queue position.
    Bba {
        /// The new best bid.
        bid: QuoteCurrency,
        /// The new best ask.
        ask: QuoteCurrency,
    },
    /// A single taker trade passing through the book.
    Taker(Trade),
    /// A candle of aggregated taker flow with its closing quotes.
    Smart(SmartCandle),
}

impl MarketUpdate {
    /// Prices and quantities carried by the update are in range; a trade's
    /// quantity is strictly positive.
    pub open spec fn wf(self) -> bool {
        match self {
            MarketUpdate::Bba { bid, ask } => {
                &&& -UNIT_LIMIT <= bid@ <= UNIT_LIMIT
                &&& -UNIT_LIMIT <= ask@ <= UNIT_LIMIT
            },
            MarketUpdate::Taker(t) => {
                &&& -UNIT_LIMIT <= t.price@ <= UNIT_LIMIT
                &&& 0 < t.quantity@ <= UNIT_LIMIT
            },
            MarketUpdate::Smart(c) => c.wf(),
        }
    }

    /// The verdict of the price filter on the update.  A quotation must
    /// have its bid strictly below its ask and both prices acceptable; a
    /// trade must trade at an acceptable price; a candle's closing quotes
    /// are checked like a quotation.
    pub open spec fn spec_validate(self, filter: PriceFilter) -> Result<(), Error> {
        match self {
            MarketUpdate::Bba { bid, ask } => if bid@ >= ask@ {
                Err(Error::MarketUpdateError(MarketUpdateError::BidGreaterThanAsk))
            } else {
                match (filter.spec_validate_price(bid@), filter.spec_validate_price(ask@)) {
                    (Err(e), _) => Err(Error::FilterError(e)),
                    (Ok(()), Err(e)) => Err(Error::FilterError(e)),
                    (Ok(()), Ok(())) => Ok(()),
                }
            },
            MarketUpdate::Taker(t) => match filter.spec_validate_price(t.price@) {
                Err(e) => Err(Error::FilterError(e)),
                Ok(()) => Ok(()),
            },
            MarketUpdate::Smart(c) => if c.bba.bid@ >= c.bba.ask@ {
                Err(Error::MarketUpdateError(MarketUpdateError::BidGreaterThanAsk))
            } else {
                match (
                    filter.spec_validate_price(c.bba.bid@),
                    filter.spec_validate_price(c.bba.ask@),
                ) {
                    (Err(e), _) => Err(Error::FilterError(e)),
                    (Ok(()), Err(e)) => Err(Error::FilterError(e)),
                    (Ok(()), Ok(())) => Ok(()),
                }
            },
        }
    }

    /// The quantity of a resting order this update fills: zero for a
    /// quotation; for taker flow, the opposing volume strictly through the
    /// limit price, capped at the order's unfilled quantity.
    pub open spec fn spec_fill_qty(self, o: LimitOrder<Pending>) -> int {
        match self {
            MarketUpdate::Bba { .. } => 0int,
            MarketUpdate::Taker(t) => match o.side {
                Side::Buy => if t.side == Side::Sell && t.price@ < o.limit_price@ {
                    vstd::math::min(t.quantity@, o.spec_remaining())
                } else {
                    0int
                },
                Side::Sell => if t.side == Side::Buy && t.price@ > o.limit_price@ {
                    vstd::math::min(t.quantity@, o.spec_remaining())
                } else {
                    0int
                },
            },
            MarketUpdate::Smart(c) => match o.side {
                Side::Buy => vstd::math::min(
                    spec_sell_volume_below(c.aggregate_sell_volume@, o.limit_price@),
                    o.spec_remaining(),
                ),
                Side::Sell => vstd::math::min(
                    spec_buy_volume_above(c.aggregate_buy_volume@, o.limit_price@),
                    o.spec_remaining(),
                ),
            },
        }
    }

    /// The best quotes after the update: a quotation and a candle set them,
    /// a trade leaves them alone.
    pub open spec fn spec_quotes_after(self, bid0: int, ask0: int) -> (int, int) {
        match self {
            MarketUpdate::Bba { bid, ask } => (bid@, ask@),
            MarketUpdate::Taker(_) => (bid0, ask0),
            MarketUpdate::Smart(c) => (c.bba.bid@, c.bba.ask@),
        }
    }

    /// Check the update against the price filter.
    pub fn validate_market_update(&self, filter: &PriceFilter) -> (r: Result<(), Error>)
        requires
            filter.wf(),
            self.wf(),
        ensures
            r == self.spec_validate(*filter),
    {
        match self {
            MarketUpdate::Bba { bid, ask } => {
                if bid.m >= ask.m {
                    return Err(Error::MarketUpdateError(MarketUpdateError::BidGreaterThanAsk));
                }
                if let Err(e) = filter.validate_price(*bid) {
                    return Err(Error::FilterError(e));
                }
                if let Err(e) = filter.validate_price(*ask) {
                    return Err(Error::FilterError(e));
                }
                Ok(())
            },
            MarketUpdate::Taker(t) => {
                if let Err(e) = filter.validate_price(t.price) {
                    return Err(Error::FilterError(e));
                }
                Ok(())
            },
            MarketUpdate::Smart(c) => {
                if c.bba.bid.m >= c.bba.ask.m {
                    return Err(Error::MarketUpdateError(MarketUpdateError::BidGreaterThanAsk));
                }
                if let Err(e) = filter.validate_price(c.bba.bid) {
                    return Err(Error::FilterError(e));
                }
                if let Err(e) = filter.validate_price(c.bba.ask) {
                    return Err(Error::FilterError(e));
                }
                Ok(())
            },
        }
    }

    /// The quantity of the given resting order that this update fills, if
    /// any.
    pub fn limit_order_filled(&self, order: &LimitOrder<Pending>) -> (r: Option<BaseCurrency>)
        requires
            self.wf(),
            crate::order_margin::order_wf(*order),
        ensures
            match r {
                Some(qty) => qty@ == self.spec_fill_qty(*order) && 0 < qty@ <= order.spec_remaining(),
                None => self.spec_fill_qty(*order) == 0,
            },
    {
        match self {
            MarketUpdate::Bba { .. } => None,
            MarketUpdate::Taker(t) => {
                let crosses = match order.side {
                    Side::Buy => matches!(t.side, Side::Sell) && t.price.m < order.limit_price.m,
                    Side::Sell => matches!(t.side, Side::Buy) && t.price.m > order.limit_price.m,
                };
                if crosses {
                    let rem = order.remaining_quantity();
                    let qty = if t.quantity.m < rem.m {
                        t.quantity
                    } else {
                        rem
                    };
                    Some(qty)
                } else {
                    None
                }
            },
            MarketUpdate::Smart(c) => {
                let volume = match order.side {
                    Side::Buy => c.sell_volume_below(order.limit_price),
                    Side::Sell => c.buy_volume_above(order.limit_price),
                };
                if volume.m == 0 {
                    return None;
                }
                let rem = order.remaining_quantity();
                let qty = if volume.m < rem.m {
                    volume
                } else {
                    rem
                };
                Some(qty)
            },
        }
    }
}

} // verus!

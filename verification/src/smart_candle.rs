//! Aggregated taker flow: a candle that only fills resting orders with
//! taker volume that actually existed.
//!
//! The taker trades of the candle period are split by side and sorted by
//! price.  A resting order is then filled by exactly the opposing volume
//! strictly through its limit price — the sum of the buy volume above it,
//! or of the sell volume below it — as a trade-by-trade replay would fill
//! it.

use vstd::prelude::*;
use crate::currency::{BaseCurrency, POS_QTY_LIMIT, QuoteCurrency, UNIT_LIMIT};
use crate::market_update::Trade;
use crate::price_filter::PriceFilter;
use crate::side::Side;

verus! {

/// Cap on the number of taker trades one candle may aggregate; keeps the
/// volume sums far below the numeric range.
pub const MAX_CANDLE_TRADES: usize = 10_000;

/// A best-bid-ask snapshot.
#[derive(Debug, Clone, Copy, PartialEq, Eq, Structural)]
pub struct Bba {
    /// The best bid.
    pub bid: QuoteCurrency,
    /// The best ask.
    pub ask: QuoteCurrency,
}

/// Aggregated taker trades of one candle period, with the closing quotes.
#[derive(Debug, Clone, PartialEq, Eq)]
pub struct SmartCandle {
    /// The buy-side taker volume per price level, sorted by ascending
    /// price; a price may repeat.
    pub aggregate_buy_volume: Vec<(QuoteCurrency, BaseCurrency)>,
    /// The sell-side taker volume per price level, sorted by ascending
    /// price; a price may repeat.
    pub aggregate_sell_volume: Vec<(QuoteCurrency, BaseCurrency)>,
    /// The best bid and ask at the close of the candle.
    pub bba: Bba,
}

/// The total volume of the price levels strictly above `limit_price`.
pub open spec fn spec_buy_volume_above(
    s: Seq<(QuoteCurrency, BaseCurrency)>,
    limit_price: int,
) -> int
    decreases s.len(),
{
    if s.len() == 0 {
        0int
    } else {
        spec_buy_volume_above(s.drop_last(), limit_price) + if s.last().0@ > limit_price {
            s.last().1@
        } else {
            0int
        }
    }
}

/// The total volume of the price levels strictly below `limit_price`.
pub open spec fn spec_sell_volume_below(
    s: Seq<(QuoteCurrency, BaseCurrency)>,
    limit_price: int,
) -> int
    decreases s.len(),
{
    if s.len() == 0 {
        0int
    } else {
        spec_sell_volume_below(s.drop_last(), limit_price) + if s.last().0@ < limit_price {
            s.last().1@
        } else {
            0int
        }
    }
}

/// The price-volume pairs of the trades on one side, in trade order.
pub open spec fn spec_side_pairs(trades: Seq<Trade>, side: Side) -> Seq<
    (QuoteCurrency, BaseCurrency),
>
    decreases trades.len(),
{
    if trades.len() == 0 {
        Seq::<(QuoteCurrency, BaseCurrency)>::empty()
    } else {
        spec_side_pairs(trades.drop_last(), side) + (if trades.last().side == side {
            seq![(trades.last().price, trades.last().quantity)]
        } else {
            Seq::<(QuoteCurrency, BaseCurrency)>::empty()
        })
    }
}

/// Every price level is a positive bounded price with a positive bounded
/// volume.
pub open spec fn levels_wf(s: Seq<(QuoteCurrency, BaseCurrency)>) -> bool {
    forall|i: int|
        0 <= i < s.len() ==> {
            &&& 0 < (#[trigger] s[i]).0@ <= UNIT_LIMIT
            &&& 0 < s[i].1@ <= UNIT_LIMIT
        }
}

/// The raw mantissa pairs re-read as currency pairs.
pub open spec fn raw_pairs(s: Seq<(i128, i128)>) -> Seq<(QuoteCurrency, BaseCurrency)> {
    s.map_values(|p: (i128, i128)| (QuoteCurrency { m: p.0 }, BaseCurrency { m: p.1 }))
}

/// Relies on glidesort::sort_by_key: sorts in place by the key — here the
/// first component of each pair — in ascending order; the result is a
/// permutation of the input.
#[verifier::external_body]
fn sort_pairs_by_price(v: &mut Vec<(i128, i128)>)
    ensures
        final(v)@.len() == old(v)@.len(),
        final(v)@.to_multiset() == old(v)@.to_multiset(),
        forall|i: int, j: int| 0 <= i < j < final(v)@.len() ==> final(v)@[i].0 <= final(v)@[j].0,
{
    glidesort::sort_by_key(v.as_mut_slice(), |t: &(i128, i128)| t.0);
}

/// Convert raw mantissa pairs back into currency pairs.
fn pairs_to_levels(v: &Vec<(i128, i128)>) -> (r: Vec<(QuoteCurrency, BaseCurrency)>)
    ensures
        r@ =~= raw_pairs(v@),
{
    let n = v.len();
    let mut out: Vec<(QuoteCurrency, BaseCurrency)> = Vec::new();
    let mut i: usize = 0;
    proof {
        assert(out@ =~= raw_pairs(v@.take(0)));
    }
    while i < n
        invariant
            n == v@.len(),
            i <= n,
            out@ =~= raw_pairs(v@.take(i as int)),
        decreases n - i,
    {
        let p = *vstd::std_specs::vec::vec_index(v, i);
        out.push((QuoteCurrency { m: p.0 }, BaseCurrency { m: p.1 }));
        proof {
            assert(raw_pairs(v@.take(i + 1)) =~= raw_pairs(v@.take(i as int)) + seq![
                (QuoteCurrency { m: p.0 }, BaseCurrency { m: p.1 }),
            ]);
        }
        i = i + 1;
    }
    proof {
        assert(v@.take(n as int) =~= v@);
    }
    out
}

impl SmartCandle {
    /// Price levels are positive and bounded, sorted ascending by price on
    /// both sides, not too many, and the closing quotes are a proper
    /// bid-ask pair.
    pub open spec fn wf(self) -> bool {
        &&& levels_wf(self.aggregate_buy_volume@)
        &&& levels_wf(self.aggregate_sell_volume@)
        &&& forall|i: int, j: int|
            0 <= i < j < self.aggregate_buy_volume@.len()
                ==> self.aggregate_buy_volume@[i].0@ <= self.aggregate_buy_volume@[j].0@
        &&& forall|i: int, j: int|
            0 <= i < j < self.aggregate_sell_volume@.len()
                ==> self.aggregate_sell_volume@[i].0@ <= self.aggregate_sell_volume@[j].0@
        &&& self.aggregate_buy_volume@.len() + self.aggregate_sell_volume@.len()
            <= MAX_CANDLE_TRADES
        &&& 0 < self.bba.bid@ < self.bba.ask@ <= UNIT_LIMIT
    }

    /// Create a new instance, splitting the taker trades by side and
    /// sorting each side by price.  The price levels on each side are
    /// exactly that side's trades, reordered.
    pub fn new(taker_trades: &Vec<Trade>, bba: Bba, price_filter: &PriceFilter) -> (r: Self)
        requires
            taker_trades@.len() > 0,
            taker_trades@.len() <= MAX_CANDLE_TRADES,
            forall|i: int|
                0 <= i < taker_trades@.len() ==> {
                    &&& 0 < (#[trigger] taker_trades@[i]).price@ <= UNIT_LIMIT
                    &&& 0 < taker_trades@[i].quantity@ <= UNIT_LIMIT
                    &&& price_filter.spec_validate_price(taker_trades@[i].price@) is Ok
                },
            price_filter.wf(),
            0 < bba.bid@ < bba.ask@ <= UNIT_LIMIT,
        ensures
            r.wf(),
            r.bba == bba,
            r.aggregate_buy_volume@.to_multiset() == spec_side_pairs(
                taker_trades@,
                Side::Buy,
            ).to_multiset(),
            r.aggregate_sell_volume@.to_multiset() == spec_side_pairs(
                taker_trades@,
                Side::Sell,
            ).to_multiset(),
    {
        let n = taker_trades.len();
        let mut buys: Vec<(i128, i128)> = Vec::new();
        let mut sells: Vec<(i128, i128)> = Vec::new();
        let mut i: usize = 0;
        proof {
            assert(taker_trades@.take(0) =~= Seq::<Trade>::empty());
            assert(raw_pairs(buys@) =~= spec_side_pairs(taker_trades@.take(0), Side::Buy));
            assert(raw_pairs(sells@) =~= spec_side_pairs(taker_trades@.take(0), Side::Sell));
        }
        while i < n
            invariant
                n == taker_trades@.len(),
                n <= MAX_CANDLE_TRADES,
                i <= n,
                buys@.len() + sells@.len() == i,
                raw_pairs(buys@) =~= spec_side_pairs(taker_trades@.take(i as int), Side::Buy),
                raw_pairs(sells@) =~= spec_side_pairs(taker_trades@.take(i as int), Side::Sell),
                pair_bounds(buys@),
                pair_bounds(sells@),
                forall|k: int|
                    0 <= k < taker_trades@.len() ==> {
                        &&& 0 < (#[trigger] taker_trades@[k]).price@ <= UNIT_LIMIT
                        &&& 0 < taker_trades@[k].quantity@ <= UNIT_LIMIT
                    },
            decreases n - i,
        {
            let t = *vstd::std_specs::vec::vec_index(taker_trades, i);
            let ghost buys_pre = buys@;
            let ghost sells_pre = sells@;
            proof {
                assert(taker_trades@.take(i + 1).drop_last() =~= taker_trades@.take(i as int));
                assert(taker_trades@.take(i + 1).last() == taker_trades@[i as int]);
            }
            match t.side {
                Side::Buy => {
                    buys.push((t.price.m, t.quantity.m));
                    proof {
                        assert(raw_pairs(buys@) =~= raw_pairs(buys_pre) + seq![
                            (t.price, t.quantity),
                        ]);
                    }
                },
                Side::Sell => {
                    sells.push((t.price.m, t.quantity.m));
                    proof {
                        assert(raw_pairs(sells@) =~= raw_pairs(sells_pre) + seq![
                            (t.price, t.quantity),
                        ]);
                    }
                },
            }
            i = i + 1;
        }
        proof {
            assert(taker_trades@.take(n as int) =~= taker_trades@);
        }
        let ghost buys_pre = buys@;
        let ghost sells_pre = sells@;
        sort_pairs_by_price(&mut buys);
        sort_pairs_by_price(&mut sells);
        proof {
            lemma_map_values_multiset(buys@, buys_pre);
            lemma_map_values_multiset(sells@, sells_pre);
            lemma_multiset_elem_bounds(buys_pre, buys@);
            lemma_multiset_elem_bounds(sells_pre, sells@);
        }
        let buy_levels = pairs_to_levels(&buys);
        let sell_levels = pairs_to_levels(&sells);
        SmartCandle { aggregate_buy_volume: buy_levels, aggregate_sell_volume: sell_levels, bba }
    }

    /// The total buy volume of the candle at prices strictly above the
    /// given limit price.
    pub fn buy_volume_above(&self, limit_price: QuoteCurrency) -> (r: BaseCurrency)
        requires
            self.wf(),
        ensures
            r@ == spec_buy_volume_above(self.aggregate_buy_volume@, limit_price@),
            0 <= r@ <= POS_QTY_LIMIT,
    {
        let n = self.aggregate_buy_volume.len();
        let mut total: i128 = 0;
        let mut j: usize = 0;
        proof {
            assert(self.aggregate_buy_volume@.take(0) =~= Seq::<
                (QuoteCurrency, BaseCurrency),
            >::empty());
        }
        while j < n
            invariant
                self.wf(),
                n == self.aggregate_buy_volume@.len(),
                j <= n,
                total == spec_buy_volume_above(
                    self.aggregate_buy_volume@.take(j as int),
                    limit_price@,
                ),
                0 <= total <= j * UNIT_LIMIT,
            decreases n - j,
        {
            let level = *vstd::std_specs::vec::vec_index(&self.aggregate_buy_volume, j);
            proof {
                assert(self.aggregate_buy_volume@.take(j + 1).drop_last()
                    =~= self.aggregate_buy_volume@.take(j as int));
                assert(self.aggregate_buy_volume@.take(j + 1).last()
                    == self.aggregate_buy_volume@[j as int]);
                assert((j + 1) * UNIT_LIMIT == j * UNIT_LIMIT + UNIT_LIMIT) by (nonlinear_arith);
                assert(j * UNIT_LIMIT <= MAX_CANDLE_TRADES as int * UNIT_LIMIT) by (nonlinear_arith)
                    requires
                        0 <= j <= MAX_CANDLE_TRADES,
                ;
            }
            if level.0.m > limit_price.m {
                total = total + level.1.m;
            }
            j = j + 1;
        }
        proof {
            assert(self.aggregate_buy_volume@.take(n as int) =~= self.aggregate_buy_volume@);
            assert(n * UNIT_LIMIT <= MAX_CANDLE_TRADES as int * UNIT_LIMIT) by (nonlinear_arith)
                requires
                    0 <= n <= MAX_CANDLE_TRADES,
            ;
        }
        BaseCurrency { m: total }
    }

    /// The total sell volume of the candle at prices strictly below the
    /// given limit price.
    pub fn sell_volume_below(&self, limit_price: QuoteCurrency) -> (r: BaseCurrency)
        requires
            self.wf(),
        ensures
            r@ == spec_sell_volume_below(self.aggregate_sell_volume@, limit_price@),
            0 <= r@ <= POS_QTY_LIMIT,
    {
        let n = self.aggregate_sell_volume.len();
        let mut total: i128 = 0;
        let mut j: usize = 0;
        proof {
            assert(self.aggregate_sell_volume@.take(0) =~= Seq::<
                (QuoteCurrency, BaseCurrency),
            >::empty());
        }
        while j < n
            invariant
                self.wf(),
                n == self.aggregate_sell_volume@.len(),
                j <= n,
                total == spec_sell_volume_below(
                    self.aggregate_sell_volume@.take(j as int),
                    limit_price@,
                ),
                0 <= total <= j * UNIT_LIMIT,
            decreases n - j,
        {
            let level = *vstd::std_specs::vec::vec_index(&self.aggregate_sell_volume, j);
            proof {
                assert(self.aggregate_sell_volume@.take(j + 1).drop_last()
                    =~= self.aggregate_sell_volume@.take(j as int));
                assert(self.aggregate_sell_volume@.take(j + 1).last()
                    == self.aggregate_sell_volume@[j as int]);
                assert((j + 1) * UNIT_LIMIT == j * UNIT_LIMIT + UNIT_LIMIT) by (nonlinear_arith);
                assert(j * UNIT_LIMIT <= MAX_CANDLE_TRADES as int * UNIT_LIMIT) by (nonlinear_arith)
                    requires
                        0 <= j <= MAX_CANDLE_TRADES,
                ;
            }
            if level.0.m < limit_price.m {
                total = total + level.1.m;
            }
            j = j + 1;
        }
        proof {
            assert(self.aggregate_sell_volume@.take(n as int) =~= self.aggregate_sell_volume@);
            assert(n * UNIT_LIMIT <= MAX_CANDLE_TRADES as int * UNIT_LIMIT) by (nonlinear_arith)
                requires
                    0 <= n <= MAX_CANDLE_TRADES,
            ;
        }
        BaseCurrency { m: total }
    }
}

/// Every mantissa pair holds a positive bounded price and volume.
pub open spec fn pair_bounds(s: Seq<(i128, i128)>) -> bool {
    forall|k: int|
        0 <= k < s.len() ==> {
            &&& 0 < (#[trigger] s[k]).0 <= UNIT_LIMIT
            &&& 0 < s[k].1 <= UNIT_LIMIT
        }
}

/// Bounds on the pairs carry across any reordering.
proof fn lemma_multiset_elem_bounds(a: Seq<(i128, i128)>, b: Seq<(i128, i128)>)
    requires
        a.to_multiset() == b.to_multiset(),
        pair_bounds(a),
    ensures
        pair_bounds(b),
{
    assert forall|k: int| 0 <= k < b.len() implies {
        &&& 0 < (#[trigger] b[k]).0 <= UNIT_LIMIT
        &&& 0 < b[k].1 <= UNIT_LIMIT
    } by {
        a.to_multiset_ensures();
        b.to_multiset_ensures();
        assert(b.contains(b[k]));
        assert(b.to_multiset().count(b[k]) > 0);
        assert(a.contains(b[k]));
        let j = choose|j: int| 0 <= j < a.len() && a[j] == b[k];
        assert(0 < a[j].0 <= UNIT_LIMIT && 0 < a[j].1 <= UNIT_LIMIT);
    }
}

/// Two mantissa-pair sequences with equal multisets map to currency-pair
/// sequences with equal multisets.
proof fn lemma_map_values_multiset(a: Seq<(i128, i128)>, b: Seq<(i128, i128)>)
    requires
        a.to_multiset() == b.to_multiset(),
    ensures
        raw_pairs(a).to_multiset() == raw_pairs(b).to_multiset(),
    decreases a.len(),
{
    a.to_multiset_ensures();
    b.to_multiset_ensures();
    if a.len() == 0 {
        assert(b.len() == 0);
        assert(raw_pairs(a) =~= raw_pairs(b));
    } else {
        let x = a.last();
        let mx = (QuoteCurrency { m: x.0 }, BaseCurrency { m: x.1 });
        assert(a.contains(x));
        assert(a.to_multiset().count(x) > 0);
        assert(b.contains(x));
        let i = choose|i: int| 0 <= i < b.len() && b[i] == x;
        let a1 = a.drop_last();
        let b1 = b.remove(i);
        a1.to_multiset_ensures();
        assert(a =~= a1.push(x));
        assert(a.to_multiset() =~= a1.to_multiset().insert(x));
        assert(b1.to_multiset() =~= b.to_multiset().remove(x));
        assert(a1.to_multiset() =~= b1.to_multiset());
        lemma_map_values_multiset(a1, b1);
        raw_pairs(a1).to_multiset_ensures();
        raw_pairs(b).to_multiset_ensures();
        assert(raw_pairs(a) =~= raw_pairs(a1).push(mx));
        assert(raw_pairs(a).to_multiset() =~= raw_pairs(a1).to_multiset().insert(mx));
        assert(raw_pairs(b1) =~= raw_pairs(b).remove(i));
        assert(raw_pairs(b)[i] == mx);
        assert(raw_pairs(b1).to_multiset() =~= raw_pairs(b).to_multiset().remove(mx));
        assert(raw_pairs(b).contains(mx));
        assert(raw_pairs(b).to_multiset().count(mx) > 0);
        assert(raw_pairs(a).to_multiset() =~= raw_pairs(b).to_multiset());
    }
}

} // verus!

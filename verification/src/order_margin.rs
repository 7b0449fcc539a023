//! The active limit orders of the account, and the order-margin calculator.
//!
//! Orders are kept sorted by ascending exchange order id, which is also the
//! deterministic iteration order of the matching engine.  The order margin
//! is the collateral reserved to cover the worst-case outcome of the resting
//! limit orders, netting against the current position: the buy-side and
//! sell-side open notionals are each offset by the opposing position
//! notional, clamped at zero, and the larger side times the initial margin
//! requirement must be reserved.

use vstd::prelude::*;
use crate::currency::{
    spec_mul_scaled, AMOUNT_CAP, BaseCurrency, Fraction, MUL_LIMIT, QuoteCurrency, SCALE,
    UNIT_LIMIT,
};
use crate::currency::{lemma_abs_mul_le, lemma_mul_scaled_monotone};
use crate::limit_order::LimitOrder;
use crate::order_status::{FilledQuantity, Pending};
use crate::position::{spec_notional, Position};
use crate::side::Side;

verus! {

/// Cap on the number of open orders the engine accepts; sums of order
/// notionals stay far below `i128` range under it.
pub const MAX_OPEN_ORDERS_CAP: u64 = 10_000;

/// Bound on the notional value of a single resting order.
pub const ORDER_NOTIONAL_CAP: i128 = 100_000_000_000_000_000_000_000_000;

/// A resting limit order is well-formed: positive bounded price and
/// quantity, a non-negative cumulative fill strictly below the full
/// quantity, and fills recorded at the limit price.
pub open spec fn order_wf(o: LimitOrder<Pending>) -> bool {
    &&& 0 < o.quantity@ <= UNIT_LIMIT
    &&& 0 < o.limit_price@ <= UNIT_LIMIT
    &&& 0 <= o.state.filled_quantity.spec_cumulative()
    &&& o.spec_remaining() > 0
    &&& match o.state.filled_quantity {
        FilledQuantity::Unfilled => true,
        FilledQuantity::Filled { avg_price, .. } => avg_price == o.limit_price,
    }
}

/// The notional value of the unfilled part of a resting order.
pub open spec fn spec_order_notional(o: LimitOrder<Pending>) -> int {
    spec_notional(o.spec_remaining(), o.limit_price@)
}

/// Sum of the open buy-side notionals of a sequence of resting orders.
pub open spec fn spec_buy_notional_sum(s: Seq<LimitOrder<Pending>>) -> int
    decreases s.len(),
{
    if s.len() == 0 {
        0int
    } else {
        spec_buy_notional_sum(s.drop_last()) + if s.last().side == Side::Buy {
            spec_order_notional(s.last())
        } else {
            0int
        }
    }
}

/// Sum of the open sell-side notionals of a sequence of resting orders.
pub open spec fn spec_sell_notional_sum(s: Seq<LimitOrder<Pending>>) -> int
    decreases s.len(),
{
    if s.len() == 0 {
        0int
    } else {
        spec_sell_notional_sum(s.drop_last()) + if s.last().side == Side::Sell {
            spec_order_notional(s.last())
        } else {
            0int
        }
    }
}

/// The order margin required by a set of resting orders, netting against
/// the position: each side's notional sum is offset by the opposing
/// position's notional at its entry price and clamped at zero; the larger
/// side, times the initial margin requirement, must be reserved.
pub open spec fn spec_order_margin(
    s: Seq<LimitOrder<Pending>>,
    position: Position,
    imr: int,
) -> int {
    let nb = spec_buy_notional_sum(s);
    let ns = spec_sell_notional_sum(s);
    let short_notional = match position {
        Position::Short(i) => spec_notional(i.quantity@, i.entry_price@),
        _ => 0,
    };
    let long_notional = match position {
        Position::Long(i) => spec_notional(i.quantity@, i.entry_price@),
        _ => 0,
    };
    let nb_off = vstd::math::max(nb - short_notional, 0);
    let ns_off = vstd::math::max(ns - long_notional, 0);
    spec_mul_scaled(vstd::math::max(nb_off, ns_off), imr)
}

/// The active limit orders of the account, sorted by ascending exchange
/// order id.
#[derive(Debug, Clone)]
pub struct ActiveLimitOrders {
    /// The resting orders, sorted by ascending exchange order id.
    pub arr: Vec<LimitOrder<Pending>>,
}

impl View for ActiveLimitOrders {
    type V = Seq<LimitOrder<Pending>>;

    open spec fn view(&self) -> Seq<LimitOrder<Pending>> {
        self.arr@
    }
}

impl ActiveLimitOrders {
    /// Every order is well-formed, ids strictly increase, and the count is
    /// within the engine's cap.
    pub open spec fn wf(self) -> bool {
        &&& forall|i: int| 0 <= i < self@.len() ==> order_wf(#[trigger] self@[i])
        &&& forall|i: int, j: int|
            0 <= i < j < self@.len() ==> self@[i].state.meta.id < self@[j].state.meta.id
        &&& self@.len() <= MAX_OPEN_ORDERS_CAP
    }

    /// Whether an order with the given exchange id is active.
    pub open spec fn spec_contains_id(self, id: u64) -> bool {
        exists|i: int| 0 <= i < self@.len() && self@[i].state.meta.id == id
    }

    /// Whether an order with the given (non-default) user id is active.
    pub open spec fn spec_contains_user_id(self, user_order_id: u64) -> bool {
        exists|i: int| 0 <= i < self@.len() && self@[i].user_order_id == user_order_id
    }

    /// An empty order set.
    pub fn new() -> (r: Self)
        ensures
            r@ =~= Seq::<LimitOrder<Pending>>::empty(),
            r.wf(),
    {
        ActiveLimitOrders { arr: Vec::new() }
    }

    /// The number of resting orders.
    pub fn num_active(&self) -> (r: usize)
        ensures
            r == self@.len(),
    {
        self.arr.len()
    }

    /// Whether no orders rest in the book.
    pub fn is_empty(&self) -> (r: bool)
        ensures
            r == (self@.len() == 0),
    {
        self.arr.len() == 0
    }

    /// The order at the given slot, slots ordered by ascending order id.
    pub fn get(&self, i: usize) -> (r: &LimitOrder<Pending>)
        requires
            i < self@.len(),
        ensures
            r == self@[i as int],
    {
        vstd::std_specs::vec::vec_index(&self.arr, i)
    }

    /// Append an order whose id is larger than every resting order's.
    pub(crate) fn append(&mut self, order: LimitOrder<Pending>)
        requires
            old(self).wf(),
            order_wf(order),
            old(self)@.len() < MAX_OPEN_ORDERS_CAP,
            forall|i: int|
                0 <= i < old(self)@.len() ==> (#[trigger] old(self)@[i]).state.meta.id
                    < order.state.meta.id,
        ensures
            final(self)@ =~= old(self)@.push(order),
            final(self).wf(),
    {
        self.arr.push(order);
    }

    /// Remove and return the order at the given slot.
    pub(crate) fn take_at(&mut self, i: usize) -> (r: LimitOrder<Pending>)
        requires
            old(self).wf(),
            i < old(self)@.len(),
        ensures
            r == old(self)@[i as int],
            final(self)@ =~= old(self)@.remove(i as int),
            final(self).wf(),
    {
        self.arr.remove(i)
    }

    /// Replace the order at the given slot; the replacement must keep the
    /// same exchange order id.
    pub(crate) fn set_at(&mut self, i: usize, order: LimitOrder<Pending>)
        requires
            old(self).wf(),
            i < old(self)@.len(),
            order_wf(order),
            order.state.meta.id == old(self)@[i as int].state.meta.id,
        ensures
            final(self)@ =~= old(self)@.update(i as int, order),
            final(self).wf(),
    {
        *vstd::std_specs::vec::vec_index_mut(&mut self.arr, i) = order;
    }

    /// Find the slot of the order with the given exchange id.
    pub fn find_index(&self, id: u64) -> (r: Option<usize>)
        ensures
            match r {
                Some(i) => i < self@.len() && self@[i as int].state.meta.id == id,
                None => !self.spec_contains_id(id),
            },
    {
        let n = self.arr.len();
        let mut i: usize = 0;
        while i < n
            invariant
                n == self@.len(),
                i <= n,
                forall|k: int| 0 <= k < i ==> (#[trigger] self@[k]).state.meta.id != id,
            decreases n - i,
        {
            if self.arr[i].state.meta.id == id {
                return Some(i);
            }
            i = i + 1;
        }
        None
    }

    /// Find the slot of the order carrying the given user order id.
    pub fn find_index_by_user_id(&self, user_order_id: u64) -> (r: Option<usize>)
        ensures
            match r {
                Some(i) => i < self@.len() && self@[i as int].user_order_id == user_order_id,
                None => !self.spec_contains_user_id(user_order_id),
            },
    {
        let n = self.arr.len();
        let mut i: usize = 0;
        while i < n
            invariant
                n == self@.len(),
                i <= n,
                forall|k: int| 0 <= k < i ==> (#[trigger] self@[k]).user_order_id != user_order_id,
            decreases n - i,
        {
            if self.arr[i].user_order_id == user_order_id {
                return Some(i);
            }
            i = i + 1;
        }
        None
    }
}

/// The open-notional sums of a well-formed order sequence are non-negative
/// and bounded by the count times the per-order notional cap.
pub proof fn lemma_notional_sums_bounded(s: Seq<LimitOrder<Pending>>)
    requires
        forall|i: int| 0 <= i < s.len() ==> order_wf(#[trigger] s[i]),
    ensures
        0 <= spec_buy_notional_sum(s) <= s.len() * ORDER_NOTIONAL_CAP,
        0 <= spec_sell_notional_sum(s) <= s.len() * ORDER_NOTIONAL_CAP,
    decreases s.len(),
{
    if s.len() == 0 {
    } else {
        let prefix = s.drop_last();
        assert(forall|i: int| 0 <= i < prefix.len() ==> order_wf(#[trigger] prefix[i]));
        lemma_notional_sums_bounded(prefix);
        lemma_order_notional_in_cap(s.last());
        assert(prefix.len() * ORDER_NOTIONAL_CAP + ORDER_NOTIONAL_CAP == s.len()
            * ORDER_NOTIONAL_CAP) by (nonlinear_arith)
            requires
                prefix.len() + 1 == s.len(),
        ;
    }
}

/// The notional of the open part of one well-formed order is non-negative
/// and within the per-order cap.
pub proof fn lemma_order_notional_in_cap(o: LimitOrder<Pending>)
    requires
        order_wf(o),
    ensures
        0 <= spec_order_notional(o) <= ORDER_NOTIONAL_CAP,
{
    let rem = o.spec_remaining();
    lemma_mul_scaled_monotone(0, rem, o.limit_price@);
    assert((rem * o.limit_price@) / (SCALE as int) <= ORDER_NOTIONAL_CAP) by (nonlinear_arith)
        requires
            0 < rem <= UNIT_LIMIT,
            0 < o.limit_price@ <= UNIT_LIMIT,
    ;
}

/// The order margin of a bounded, well-formed order set is non-negative and
/// within the per-transfer amount cap.
pub proof fn lemma_order_margin_in_cap(s: Seq<LimitOrder<Pending>>, position: Position, imr: int)
    requires
        forall|i: int| 0 <= i < s.len() ==> order_wf(#[trigger] s[i]),
        s.len() <= MAX_OPEN_ORDERS_CAP,
        position.wf(),
        0 < imr <= SCALE,
    ensures
        0 <= spec_order_margin(s, position, imr) <= AMOUNT_CAP,
{
    lemma_notional_sums_bounded(s);
    let nb = spec_buy_notional_sum(s);
    let ns = spec_sell_notional_sum(s);
    let short_notional = match position {
        Position::Short(i) => spec_notional(i.quantity@, i.entry_price@),
        _ => 0int,
    };
    let long_notional = match position {
        Position::Long(i) => spec_notional(i.quantity@, i.entry_price@),
        _ => 0int,
    };
    match position {
        Position::Short(i) => {
            lemma_mul_scaled_monotone(0, i.quantity@, i.entry_price@);
        },
        Position::Long(i) => {
            lemma_mul_scaled_monotone(0, i.quantity@, i.entry_price@);
        },
        Position::Neutral => {},
    }
    let biggest = vstd::math::max(
        vstd::math::max(nb - short_notional, 0),
        vstd::math::max(ns - long_notional, 0),
    );
    assert(s.len() * ORDER_NOTIONAL_CAP <= MAX_OPEN_ORDERS_CAP as int * ORDER_NOTIONAL_CAP)
        by (nonlinear_arith)
        requires
            0 <= s.len() <= MAX_OPEN_ORDERS_CAP,
    ;
    lemma_mul_scaled_monotone(0, biggest, imr);
    assert((biggest * imr) / (SCALE as int) <= biggest) by (nonlinear_arith)
        requires
            0 <= biggest,
            0 < imr <= SCALE,
    ;
}

/// Compute the order margin required by the resting orders, netting against
/// the current position.
pub fn compute_order_margin(
    orders: &ActiveLimitOrders,
    position: &Position,
    init_margin_req: Fraction,
) -> (r: QuoteCurrency)
    requires
        orders.wf(),
        position.wf(),
        position.spec_qty() <= crate::currency::POS_QTY_LIMIT,
        0 < init_margin_req@ <= SCALE,
    ensures
        r@ == spec_order_margin(orders@, *position, init_margin_req@),
        0 <= r@ <= AMOUNT_CAP,
{
    let n = orders.num_active();
    let mut nb: i128 = 0;
    let mut ns: i128 = 0;
    let mut i: usize = 0;
    proof {
        assert(orders@.take(0) =~= Seq::<LimitOrder<Pending>>::empty());
    }
    while i < n
        invariant
            orders.wf(),
            n == orders@.len(),
            i <= n,
            nb == spec_buy_notional_sum(orders@.take(i as int)),
            ns == spec_sell_notional_sum(orders@.take(i as int)),
            0 <= nb <= i * ORDER_NOTIONAL_CAP,
            0 <= ns <= i * ORDER_NOTIONAL_CAP,
        decreases n - i,
    {
        let o = orders.get(i);
        proof {
            lemma_order_notional_in_cap(orders@[i as int]);
            assert(orders@.take(i + 1).drop_last() =~= orders@.take(i as int));
            assert(orders@.take(i + 1).last() == orders@[i as int]);
            assert((i + 1) * ORDER_NOTIONAL_CAP == i * ORDER_NOTIONAL_CAP + ORDER_NOTIONAL_CAP)
                by (nonlinear_arith)
            ;
            assert(i * ORDER_NOTIONAL_CAP <= MAX_OPEN_ORDERS_CAP as int * ORDER_NOTIONAL_CAP)
                by (nonlinear_arith)
                requires
                    0 <= i <= MAX_OPEN_ORDERS_CAP,
            ;
        }
        let rem = o.remaining_quantity();
        proof {
            lemma_abs_mul_le(rem@, o.limit_price@, UNIT_LIMIT as int, UNIT_LIMIT as int);
        }
        let notional = rem.convert(o.limit_price);
        match o.side {
            Side::Buy => {
                nb = nb + notional.m;
            },
            Side::Sell => {
                ns = ns + notional.m;
            },
        }
        i = i + 1;
    }
    proof {
        assert(orders@.take(n as int) =~= orders@);
        lemma_notional_sums_bounded(orders@);
        assert(n * ORDER_NOTIONAL_CAP <= MAX_OPEN_ORDERS_CAP as int * ORDER_NOTIONAL_CAP)
            by (nonlinear_arith)
            requires
                0 <= n <= MAX_OPEN_ORDERS_CAP,
        ;
    }
    let offset: i128 = match position {
        Position::Neutral => 0,
        Position::Long(inner) => {
            proof {
                lemma_abs_mul_le(
                    inner.quantity@,
                    inner.entry_price@,
                    crate::currency::POS_QTY_LIMIT as int,
                    UNIT_LIMIT as int,
                );
                lemma_mul_scaled_monotone(0, inner.quantity@, inner.entry_price@);
            }
            let v = inner.quantity.convert(inner.entry_price);
            v.m
        },
        Position::Short(inner) => {
            proof {
                lemma_abs_mul_le(
                    inner.quantity@,
                    inner.entry_price@,
                    crate::currency::POS_QTY_LIMIT as int,
                    UNIT_LIMIT as int,
                );
                lemma_mul_scaled_monotone(0, inner.quantity@, inner.entry_price@);
            }
            let v = inner.quantity.convert(inner.entry_price);
            v.m
        },
    };
    let is_long = match position {
        Position::Long(_) => true,
        _ => false,
    };
    let is_short = match position {
        Position::Short(_) => true,
        _ => false,
    };
    let nb_off: i128 = if is_short {
        if nb - offset > 0 {
            nb - offset
        } else {
            0
        }
    } else {
        nb
    };
    let ns_off: i128 = if is_long {
        if ns - offset > 0 {
            ns - offset
        } else {
            0
        }
    } else {
        ns
    };
    let biggest: i128 = if nb_off > ns_off {
        nb_off
    } else {
        ns_off
    };
    let biggest_amount = QuoteCurrency { m: biggest };
    proof {
        lemma_mul_scaled_monotone(0, biggest as int, init_margin_req@);
        lemma_abs_mul_le(
            biggest as int,
            init_margin_req@,
            MAX_OPEN_ORDERS_CAP as int * ORDER_NOTIONAL_CAP,
            SCALE as int,
        );
        assert((biggest as int * init_margin_req@) / (SCALE as int) <= biggest as int)
            by (nonlinear_arith)
            requires
                0 <= biggest as int,
                0 < init_margin_req@ <= SCALE,
        ;
    }
    let margin = biggest_amount.times_fraction(init_margin_req);
    margin
}

/// Removing one order takes exactly its contribution out of its side's
/// notional sum and leaves the other side's sum unchanged.
pub proof fn lemma_sums_remove(s: Seq<LimitOrder<Pending>>, i: int)
    requires
        0 <= i < s.len(),
    ensures
        spec_buy_notional_sum(s.remove(i)) == spec_buy_notional_sum(s) - (if s[i].side
            == Side::Buy {
            spec_order_notional(s[i])
        } else {
            0int
        }),
        spec_sell_notional_sum(s.remove(i)) == spec_sell_notional_sum(s) - (if s[i].side
            == Side::Sell {
            spec_order_notional(s[i])
        } else {
            0int
        }),
    decreases s.len(),
{
    if i == s.len() - 1 {
        assert(s.remove(i) =~= s.drop_last());
    } else {
        assert(s.remove(i).drop_last() =~= s.drop_last().remove(i));
        assert(s.remove(i).last() == s.last());
        lemma_sums_remove(s.drop_last(), i);
    }
}

/// Appending one order adds exactly its contribution to its side's
/// notional sum and leaves the other side's sum unchanged.
pub proof fn lemma_sums_push(s: Seq<LimitOrder<Pending>>, o: LimitOrder<Pending>)
    ensures
        spec_buy_notional_sum(s.push(o)) == spec_buy_notional_sum(s) + (if o.side == Side::Buy {
            spec_order_notional(o)
        } else {
            0int
        }),
        spec_sell_notional_sum(s.push(o)) == spec_sell_notional_sum(s) + (if o.side == Side::Sell {
            spec_order_notional(o)
        } else {
            0int
        }),
{
    assert(s.push(o).drop_last() =~= s);
    assert(s.push(o).last() == o);
}

/// Law: cancelling a resting limit order never increases the required
/// order margin.
pub proof fn lemma_cancel_order_margin_monotone(
    s: Seq<LimitOrder<Pending>>,
    i: int,
    position: Position,
    imr: int,
)
    requires
        0 <= i < s.len(),
        forall|k: int| 0 <= k < s.len() ==> order_wf(#[trigger] s[k]),
        0 < imr <= SCALE,
    ensures
        spec_order_margin(s.remove(i), position, imr) <= spec_order_margin(s, position, imr),
{
    lemma_sums_remove(s, i);
    lemma_order_notional_in_cap(s[i]);
    let short_notional = match position {
        Position::Short(p) => spec_notional(p.quantity@, p.entry_price@),
        _ => 0int,
    };
    let long_notional = match position {
        Position::Long(p) => spec_notional(p.quantity@, p.entry_price@),
        _ => 0int,
    };
    let big0 = vstd::math::max(
        vstd::math::max(spec_buy_notional_sum(s) - short_notional, 0),
        vstd::math::max(spec_sell_notional_sum(s) - long_notional, 0),
    );
    let big1 = vstd::math::max(
        vstd::math::max(spec_buy_notional_sum(s.remove(i)) - short_notional, 0),
        vstd::math::max(spec_sell_notional_sum(s.remove(i)) - long_notional, 0),
    );
    lemma_mul_scaled_monotone(big1, big0, imr);
}

/// Law: an empty book reserves no order margin, whatever the position.
pub proof fn lemma_empty_book_zero_order_margin(position: Position, imr: int)
    requires
        position.wf(),
    ensures
        spec_order_margin(Seq::<LimitOrder<Pending>>::empty(), position, imr) == 0,
{
    match position {
        Position::Long(i) => {
            lemma_mul_scaled_monotone(0, i.quantity@, i.entry_price@);
        },
        Position::Short(i) => {
            lemma_mul_scaled_monotone(0, i.quantity@, i.entry_price@);
        },
        Position::Neutral => {},
    }
    assert(spec_mul_scaled(0, imr) == 0) by {
        assert(0 * imr == 0) by (nonlinear_arith);
        assert(0int / (SCALE as int) == 0) by (nonlinear_arith);
    }
}

} // verus!

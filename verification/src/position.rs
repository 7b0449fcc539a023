//! The futures position and its mutation rules under isolated margin.
//!
//! A position is `Neutral`, `Long` or `Short`; long and short positions carry
//! a strictly positive quantity and entry price.  Every mutation routes its
//! funds through the ledger: margin reservations and releases move between
//! the wallet and the position-margin account, realized profit and loss
//! settles between the wallet and the treasury.  After every mutation the
//! position-margin account holds exactly the margin the new position
//! requires: quantity times entry price times the initial margin
//! requirement.

use vstd::prelude::*;
use crate::accounting::{LedgerAccount, Transaction, TransactionAccounting, LEDGER_POSTS_LIMIT};
use crate::currency::{
    spec_mul_scaled, spec_pnl, AMOUNT_CAP, BaseCurrency, Fraction, POS_QTY_LIMIT, QuoteCurrency,
    SCALE, UNIT_LIMIT,
};
use crate::currency::{div_floor, lemma_abs_mul_le, lemma_mul_scaled_monotone};
use crate::side::Side;

verus! {

/// The notional value of a quantity at a price: their product, rescaled.
pub open spec fn spec_notional(qty: int, price: int) -> int {
    spec_mul_scaled(qty, price)
}

/// The margin a position of `qty` contracts entered at `entry` requires:
/// its notional value times the initial margin requirement.
pub open spec fn spec_margin(qty: int, entry: int, imr: int) -> int {
    spec_mul_scaled(spec_notional(qty, entry), imr)
}

/// The entry price of a position of `q` at `e` after `f` more contracts are
/// added at `p`: the quantity-weighted average, truncated toward zero.
pub open spec fn spec_new_entry_price(q: int, e: int, f: int, p: int) -> int {
    (q * e + f * p) / (q + f)
}

/// The quantity and entry price of an open position.
#[derive(Debug, Clone, Copy, PartialEq, Eq, Structural)]
pub struct PositionInner {
    /// The number of contracts making up the position, in base currency.
    pub quantity: BaseCurrency,
    /// The average price the contracts were entered at.
    pub entry_price: QuoteCurrency,
}

/// A futures position: no exposure, or exposure in one of two directions.
#[derive(Debug, Clone, Copy, PartialEq, Eq, Structural)]
pub enum Position {
    /// No position present.
    Neutral,
    /// A position in the long direction.
    Long(PositionInner),
    /// A position in the short direction.
    Short(PositionInner),
}

impl PositionInner {
    /// Quantity is positive and the entry price is a positive, bounded price.
    pub open spec fn wf(self) -> bool {
        &&& 0 < self.quantity@
        &&& 0 < self.entry_price@ <= UNIT_LIMIT
    }

    /// The margin this position requires, given the margin requirement.
    pub open spec fn spec_margin_req(self, imr: int) -> int {
        spec_margin(self.quantity@, self.entry_price@, imr)
    }
}

impl Position {
    /// The open quantity; zero when neutral.
    pub open spec fn spec_qty(self) -> int {
        match self {
            Position::Neutral => 0,
            Position::Long(inner) => inner.quantity@,
            Position::Short(inner) => inner.quantity@,
        }
    }

    /// Structural well-formedness of the position.
    pub open spec fn wf(self) -> bool {
        match self {
            Position::Neutral => true,
            Position::Long(inner) => inner.wf(),
            Position::Short(inner) => inner.wf(),
        }
    }

    /// The margin the position requires: notional at entry times the initial
    /// margin requirement; zero when neutral.
    pub open spec fn spec_position_margin(self, imr: int) -> int {
        match self {
            Position::Neutral => 0,
            Position::Long(inner) => inner.spec_margin_req(imr),
            Position::Short(inner) => inner.spec_margin_req(imr),
        }
    }

    /// The position after a fill of `f` contracts at price `p` on `side`:
    /// same-direction fills increase the position at the weighted average
    /// entry price, opposing fills decrease it, close it, or turn it around.
    pub open spec fn spec_apply(self, f: int, p: int, side: Side) -> Position {
        match (self, side) {
            (Position::Neutral, Side::Buy) => Position::Long(spec_inner(f, p)),
            (Position::Neutral, Side::Sell) => Position::Short(spec_inner(f, p)),
            (Position::Long(i), Side::Buy) => Position::Long(
                spec_inner(
                    i.quantity@ + f,
                    spec_new_entry_price(i.quantity@, i.entry_price@, f, p),
                ),
            ),
            (Position::Long(i), Side::Sell) => {
                if f < i.quantity@ {
                    Position::Long(spec_inner(i.quantity@ - f, i.entry_price@))
                } else if f == i.quantity@ {
                    Position::Neutral
                } else {
                    Position::Short(spec_inner(f - i.quantity@, p))
                }
            },
            (Position::Short(i), Side::Buy) => {
                if f < i.quantity@ {
                    Position::Short(spec_inner(i.quantity@ - f, i.entry_price@))
                } else if f == i.quantity@ {
                    Position::Neutral
                } else {
                    Position::Long(spec_inner(f - i.quantity@, p))
                }
            },
            (Position::Short(i), Side::Sell) => Position::Short(
                spec_inner(
                    i.quantity@ + f,
                    spec_new_entry_price(i.quantity@, i.entry_price@, f, p),
                ),
            ),
        }
    }

    /// The profit or loss realized by a fill of `f` at `p` on `side`: the
    /// linear-contract pnl of the decreased part, nothing for increases.
    pub open spec fn spec_realized_pnl(self, f: int, p: int, side: Side) -> int {
        match (self, side) {
            (Position::Long(i), Side::Sell) => spec_pnl(
                i.entry_price@,
                p,
                vstd::math::min(f, i.quantity@),
            ),
            (Position::Short(i), Side::Buy) => -spec_pnl(
                i.entry_price@,
                p,
                vstd::math::min(f, i.quantity@),
            ),
            _ => 0,
        }
    }

    /// The mark-to-market profit of the open position, against the bid for a
    /// long (it would sell there) and the ask for a short.
    pub open spec fn spec_unrealized_pnl(self, bid: int, ask: int) -> int {
        match self {
            Position::Neutral => 0,
            Position::Long(i) => spec_pnl(i.entry_price@, bid, i.quantity@),
            Position::Short(i) => -spec_pnl(i.entry_price@, ask, i.quantity@),
        }
    }

    /// Return the positions unrealized profit and loss, marked against the
    /// bid for a long position and the ask for a short position.
    pub fn unrealized_pnl(&self, bid: QuoteCurrency, ask: QuoteCurrency) -> (r: QuoteCurrency)
        requires
            self.wf(),
            self.spec_qty() <= POS_QTY_LIMIT,
            0 < bid@ <= UNIT_LIMIT,
            0 < ask@ <= UNIT_LIMIT,
        ensures
            r@ == self.spec_unrealized_pnl(bid@, ask@),
            vstd::math::abs(r@) <= 2 * POS_QTY_LIMIT as int * UNIT_LIMIT as int,
    {
        match self {
            Position::Neutral => QuoteCurrency::new_zero(),
            Position::Long(inner) => {
                proof {
                    lemma_abs_mul_le(inner.quantity@, inner.entry_price@, POS_QTY_LIMIT as int, UNIT_LIMIT as int);
                    lemma_abs_mul_le(inner.quantity@, bid@, POS_QTY_LIMIT as int, UNIT_LIMIT as int);
                }
                QuoteCurrency::pnl(inner.entry_price, bid, inner.quantity)
            },
            Position::Short(inner) => {
                proof {
                    lemma_abs_mul_le(inner.quantity@, inner.entry_price@, POS_QTY_LIMIT as int, UNIT_LIMIT as int);
                    lemma_abs_mul_le(inner.quantity@, ask@, POS_QTY_LIMIT as int, UNIT_LIMIT as int);
                }
                QuoteCurrency::pnl(inner.entry_price, ask, inner.quantity).into_negative()
            },
        }
    }
}

/// A `PositionInner` built from mantissas, for use in specifications.
pub open spec fn spec_inner(qty: int, entry: int) -> PositionInner {
    PositionInner {
        quantity: BaseCurrency { m: qty as i128 },
        entry_price: QuoteCurrency { m: entry as i128 },
    }
}

/// The weighted-average entry price lies between the two prices averaged.
pub proof fn lemma_new_entry_price_bounds(q: int, e: int, f: int, p: int)
    requires
        0 < q,
        0 < f,
        0 < e,
        0 < p,
    ensures
        vstd::math::min(e, p) <= spec_new_entry_price(q, e, f, p) <= vstd::math::max(e, p),
{
    let lo = vstd::math::min(e, p);
    let hi = vstd::math::max(e, p);
    let s = q * e + f * p;
    let n = q + f;
    assert(n * lo <= s <= n * hi) by (nonlinear_arith)
        requires
            0 < q,
            0 < f,
            lo <= e <= hi,
            lo <= p <= hi,
            s == q * e + f * p,
            n == q + f,
    ;
    assert(lo <= s / n <= hi) by (nonlinear_arith)
        requires
            n * lo <= s <= n * hi,
            0 < n,
    ;
}

/// The margin requirement shrinks, or is unchanged, when the quantity
/// shrinks at an unchanged entry price.
pub proof fn lemma_margin_monotone_qty(q1: int, q2: int, e: int, imr: int)
    requires
        0 <= q1 <= q2,
        0 <= e,
        0 <= imr,
    ensures
        0 <= spec_margin(q1, e, imr) <= spec_margin(q2, e, imr),
{
    lemma_mul_scaled_monotone(0, q1, e);
    lemma_mul_scaled_monotone(q1, q2, e);
    lemma_mul_scaled_monotone(0, spec_notional(q1, e), imr);
    lemma_mul_scaled_monotone(spec_notional(q1, e), spec_notional(q2, e), imr);
}

impl PositionInner {
    /// Create a new position part, reserving its margin from the wallet into
    /// the position-margin account.
    pub fn new(
        quantity: BaseCurrency,
        entry_price: QuoteCurrency,
        accounting: &mut TransactionAccounting,
        init_margin_req: Fraction,
    ) -> (r: Self)
        requires
            0 < quantity@ <= POS_QTY_LIMIT,
            0 < entry_price@ <= UNIT_LIMIT,
            0 < init_margin_req@ <= SCALE,
            old(accounting).spec_posts_bounded(2 * LEDGER_POSTS_LIMIT as int),
        ensures
            r == (PositionInner { quantity, entry_price }),
            final(accounting).spec_balance(LedgerAccount::UserPositionMargin) == old(
                accounting,
            ).spec_balance(LedgerAccount::UserPositionMargin) + spec_margin(
                quantity@,
                entry_price@,
                init_margin_req@,
            ),
            final(accounting).spec_balance(LedgerAccount::UserWallet) == old(
                accounting,
            ).spec_balance(LedgerAccount::UserWallet) - spec_margin(
                quantity@,
                entry_price@,
                init_margin_req@,
            ),
            final(accounting).spec_balance(LedgerAccount::UserOrderMargin) == old(
                accounting,
            ).spec_balance(LedgerAccount::UserOrderMargin),
            final(accounting).spec_balance(LedgerAccount::ExchangeFee) == old(
                accounting,
            ).spec_balance(LedgerAccount::ExchangeFee),
            final(accounting).spec_balance(LedgerAccount::Treasury) == old(
                accounting,
            ).spec_balance(LedgerAccount::Treasury),
            final(accounting).spec_balance_sum() == old(accounting).spec_balance_sum(),
            forall|b: int|
                old(accounting).spec_posts_bounded(b) ==> final(accounting).spec_posts_bounded(
                    b + AMOUNT_CAP,
                ),
    {
        let margin = margin_amount(quantity, entry_price, init_margin_req);
        if margin.m > 0 {
            let transaction = Transaction::new(
                LedgerAccount::UserPositionMargin,
                LedgerAccount::UserWallet,
                margin,
            );
            accounting.create_margin_transfer(transaction);
        }
        PositionInner { quantity, entry_price }
    }

    /// Return the positions unrealized profit and loss at a mark price, in
    /// the long direction: positive when the mark is above the entry.
    pub fn unrealized_pnl(&self, mark_to_market_price: QuoteCurrency) -> (r: QuoteCurrency)
        requires
            self.wf(),
            self.quantity@ <= POS_QTY_LIMIT,
            0 < mark_to_market_price@ <= UNIT_LIMIT,
        ensures
            r@ == spec_pnl(self.entry_price@, mark_to_market_price@, self.quantity@),
    {
        proof {
            lemma_abs_mul_le(self.quantity@, self.entry_price@, POS_QTY_LIMIT as int, UNIT_LIMIT as int);
            lemma_abs_mul_le(self.quantity@, mark_to_market_price@, POS_QTY_LIMIT as int, UNIT_LIMIT as int);
        }
        QuoteCurrency::pnl(self.entry_price, mark_to_market_price, self.quantity)
    }

    /// Compute the entry price the position would have after `added_qty`
    /// more contracts are bought at `entry_price`: the quantity-weighted
    /// average of the old entry and the new price.
    pub fn new_avg_entry_price(&self, added_qty: BaseCurrency, entry_price: QuoteCurrency) -> (r:
        QuoteCurrency)
        requires
            self.wf(),
            self.quantity@ <= POS_QTY_LIMIT,
            0 < added_qty@ <= POS_QTY_LIMIT,
            self.quantity@ + added_qty@ <= POS_QTY_LIMIT,
            0 < entry_price@ <= UNIT_LIMIT,
        ensures
            r@ == spec_new_entry_price(self.quantity@, self.entry_price@, added_qty@, entry_price@),
            0 < r@ <= UNIT_LIMIT,
    {
        proof {
            lemma_abs_mul_le(self.quantity@, self.entry_price@, POS_QTY_LIMIT as int, UNIT_LIMIT as int);
            lemma_abs_mul_le(added_qty@, entry_price@, POS_QTY_LIMIT as int, UNIT_LIMIT as int);
            lemma_new_entry_price_bounds(
                self.quantity@,
                self.entry_price@,
                added_qty@,
                entry_price@,
            );
        }
        let at_entry: i128 = self.quantity.m * self.entry_price.m;
        let at_fill: i128 = added_qty.m * entry_price.m;
        let total = self.quantity.plus(added_qty);
        QuoteCurrency { m: div_floor(at_entry + at_fill, total.m) }
    }

    /// The total position value at a mark price: the notional at entry plus
    /// the long-direction unrealized profit and loss.
    pub fn value(&self, mark_to_market_price: QuoteCurrency) -> (r: QuoteCurrency)
        requires
            self.wf(),
            self.quantity@ <= POS_QTY_LIMIT,
            0 < mark_to_market_price@ <= UNIT_LIMIT,
        ensures
            r@ == spec_notional(self.quantity@, self.entry_price@) + spec_pnl(
                self.entry_price@,
                mark_to_market_price@,
                self.quantity@,
            ),
    {
        proof {
            lemma_abs_mul_le(self.quantity@, self.entry_price@, POS_QTY_LIMIT as int, UNIT_LIMIT as int);
        }
        let notional = self.quantity.convert(self.entry_price);
        let upnl = self.unrealized_pnl(mark_to_market_price);
        proof {
            lemma_abs_mul_le(self.quantity@, mark_to_market_price@, POS_QTY_LIMIT as int, UNIT_LIMIT as int);
        }
        notional.plus(upnl)
    }
}

/// The margin a quantity entered at a price requires, as a value.
fn margin_amount(quantity: BaseCurrency, entry_price: QuoteCurrency, imr: Fraction) -> (r:
    QuoteCurrency)
    requires
        0 <= quantity@ <= POS_QTY_LIMIT,
        0 <= entry_price@ <= UNIT_LIMIT,
        0 < imr@ <= SCALE,
    ensures
        r@ == spec_margin(quantity@, entry_price@, imr@),
        0 <= r@ <= AMOUNT_CAP,
{
    proof {
        lemma_abs_mul_le(quantity@, entry_price@, POS_QTY_LIMIT as int, UNIT_LIMIT as int);
    }
    let notional = quantity.convert(entry_price);
    proof {
        lemma_mul_scaled_monotone(0, quantity@, entry_price@);
        assert(notional@ <= POS_QTY_LIMIT as int * UNIT_LIMIT as int / SCALE as int) by (nonlinear_arith)
            requires
                notional@ == (quantity@ * entry_price@) / (SCALE as int),
                0 <= quantity@ * entry_price@ <= POS_QTY_LIMIT as int * UNIT_LIMIT as int,
        ;
        lemma_abs_mul_le(
            notional@,
            imr@,
            POS_QTY_LIMIT as int * UNIT_LIMIT as int / SCALE as int,
            SCALE as int,
        );
    }
    let margin = notional.times_fraction(imr);
    proof {
        lemma_mul_scaled_monotone(0, notional@, imr@);
        assert(margin@ <= notional@) by {
            assert((notional@ * imr@) / (SCALE as int) <= notional@) by (nonlinear_arith)
                requires
                    0 <= notional@,
                    0 < imr@ <= SCALE,
            ;
        }
    }
    margin
}

/// The margin requirement of any in-range position is non-negative and far
/// below the per-transfer amount cap.
pub proof fn lemma_margin_in_cap(q: int, e: int, imr: int)
    requires
        0 <= q <= POS_QTY_LIMIT,
        0 <= e <= UNIT_LIMIT,
        0 <= imr <= SCALE,
    ensures
        0 <= spec_margin(q, e, imr) <= AMOUNT_CAP,
{
    lemma_abs_mul_le(q, e, POS_QTY_LIMIT as int, UNIT_LIMIT as int);
    lemma_mul_scaled_monotone(0, q, e);
    let notional = spec_notional(q, e);
    assert(notional <= POS_QTY_LIMIT as int * UNIT_LIMIT as int / SCALE as int) by (nonlinear_arith)
        requires
            notional == (q * e) / (SCALE as int),
            0 <= q * e <= POS_QTY_LIMIT as int * UNIT_LIMIT as int,
    ;
    lemma_mul_scaled_monotone(0, notional, imr);
    assert((notional * imr) / (SCALE as int) <= notional) by (nonlinear_arith)
        requires
            0 <= notional,
            0 <= imr <= SCALE,
    ;
}

impl PositionInner {
    /// Remove `filled_qty` contracts at `fill_price`, settling the realized
    /// profit or loss with the treasury and releasing the freed margin from
    /// the position-margin account back to the wallet.  `is_long` gives the
    /// direction of the position being decreased.
    #[verifier::rlimit(60)]
    pub(crate) fn decrease_contracts(
        self,
        filled_qty: BaseCurrency,
        fill_price: QuoteCurrency,
        is_long: bool,
        accounting: &mut TransactionAccounting,
        init_margin_req: Fraction,
    ) -> (r: Self)
        requires
            self.wf(),
            self.quantity@ <= POS_QTY_LIMIT,
            0 < filled_qty@ <= self.quantity@,
            0 < fill_price@ <= UNIT_LIMIT,
            0 < init_margin_req@ <= SCALE,
            old(accounting).spec_posts_bounded(2 * LEDGER_POSTS_LIMIT as int),
            old(accounting).spec_balance(LedgerAccount::UserPositionMargin) == self.spec_margin_req(
                init_margin_req@,
            ),
        ensures
            r == (PositionInner {
                quantity: BaseCurrency { m: (self.quantity@ - filled_qty@) as i128 },
                entry_price: self.entry_price,
            }),
            final(accounting).spec_balance(LedgerAccount::UserPositionMargin) == spec_margin(
                self.quantity@ - filled_qty@,
                self.entry_price@,
                init_margin_req@,
            ),
            final(accounting).spec_balance(LedgerAccount::UserWallet) == old(accounting).spec_balance(
                LedgerAccount::UserWallet,
            ) + self.spec_margin_req(init_margin_req@) - spec_margin(
                self.quantity@ - filled_qty@,
                self.entry_price@,
                init_margin_req@,
            ) + (if is_long {
                spec_pnl(self.entry_price@, fill_price@, filled_qty@)
            } else {
                -spec_pnl(self.entry_price@, fill_price@, filled_qty@)
            }),
            final(accounting).spec_balance(LedgerAccount::Treasury) == old(accounting).spec_balance(
                LedgerAccount::Treasury,
            ) - (if is_long {
                spec_pnl(self.entry_price@, fill_price@, filled_qty@)
            } else {
                -spec_pnl(self.entry_price@, fill_price@, filled_qty@)
            }),
            final(accounting).spec_balance(LedgerAccount::UserOrderMargin) == old(
                accounting,
            ).spec_balance(LedgerAccount::UserOrderMargin),
            final(accounting).spec_balance(LedgerAccount::ExchangeFee) == old(
                accounting,
            ).spec_balance(LedgerAccount::ExchangeFee),
            final(accounting).spec_balance_sum() == old(accounting).spec_balance_sum(),
            forall|b: int|
                old(accounting).spec_posts_bounded(b) ==> final(accounting).spec_posts_bounded(
                    b + 3 * AMOUNT_CAP,
                ),
    {
        proof {
            lemma_abs_mul_le(filled_qty@, self.entry_price@, POS_QTY_LIMIT as int, UNIT_LIMIT as int);
            lemma_abs_mul_le(filled_qty@, fill_price@, POS_QTY_LIMIT as int, UNIT_LIMIT as int);
        }
        let pnl_long = QuoteCurrency::pnl(self.entry_price, fill_price, filled_qty);
        let realized = if is_long {
            pnl_long
        } else {
            pnl_long.into_negative()
        };
        proof {
            lemma_margin_in_cap(self.quantity@, self.entry_price@, init_margin_req@);
            lemma_margin_in_cap(self.quantity@ - filled_qty@, self.entry_price@, init_margin_req@);
        }
        if realized.m > 0 {
            let transaction = Transaction::new(
                LedgerAccount::UserWallet,
                LedgerAccount::Treasury,
                realized,
            );
            accounting.create_margin_transfer(transaction);
        } else if realized.m < 0 {
            let transaction = Transaction::new(
                LedgerAccount::Treasury,
                LedgerAccount::UserWallet,
                realized.abs(),
            );
            accounting.create_margin_transfer(transaction);
        }
        let new_qty = self.quantity.minus(filled_qty);
        let target = margin_amount(new_qty, self.entry_price, init_margin_req);
        let pm_old = accounting.margin_balance_of(LedgerAccount::UserPositionMargin);
        proof {
            lemma_margin_monotone_qty(new_qty@, self.quantity@, self.entry_price@, init_margin_req@);
        }
        if pm_old.m > target.m {
            let delta = pm_old.minus(target);
            let transaction = Transaction::new(
                LedgerAccount::UserWallet,
                LedgerAccount::UserPositionMargin,
                delta,
            );
            accounting.create_margin_transfer(transaction);
        }
        PositionInner { quantity: new_qty, entry_price: self.entry_price }
    }

    /// Add `filled_qty` contracts at `fill_price`: the entry price becomes
    /// the quantity-weighted average, and the position-margin account is
    /// brought to exactly the margin the grown position requires.
    #[verifier::rlimit(60)]
    pub(crate) fn increase_contracts(
        self,
        filled_qty: BaseCurrency,
        fill_price: QuoteCurrency,
        accounting: &mut TransactionAccounting,
        init_margin_req: Fraction,
    ) -> (r: Self)
        requires
            self.wf(),
            self.quantity@ + filled_qty@ <= POS_QTY_LIMIT,
            0 < filled_qty@,
            0 < fill_price@ <= UNIT_LIMIT,
            0 < init_margin_req@ <= SCALE,
            old(accounting).spec_posts_bounded(2 * LEDGER_POSTS_LIMIT as int),
            old(accounting).spec_balance(LedgerAccount::UserPositionMargin) == self.spec_margin_req(
                init_margin_req@,
            ),
        ensures
            r == spec_inner(
                self.quantity@ + filled_qty@,
                spec_new_entry_price(self.quantity@, self.entry_price@, filled_qty@, fill_price@),
            ),
            r.wf(),
            final(accounting).spec_balance(LedgerAccount::UserPositionMargin) == r.spec_margin_req(
                init_margin_req@,
            ),
            final(accounting).spec_balance(LedgerAccount::UserWallet) == old(accounting).spec_balance(
                LedgerAccount::UserWallet,
            ) + self.spec_margin_req(init_margin_req@) - r.spec_margin_req(init_margin_req@),
            final(accounting).spec_balance(LedgerAccount::Treasury) == old(accounting).spec_balance(
                LedgerAccount::Treasury,
            ),
            final(accounting).spec_balance(LedgerAccount::UserOrderMargin) == old(
                accounting,
            ).spec_balance(LedgerAccount::UserOrderMargin),
            final(accounting).spec_balance(LedgerAccount::ExchangeFee) == old(
                accounting,
            ).spec_balance(LedgerAccount::ExchangeFee),
            final(accounting).spec_balance_sum() == old(accounting).spec_balance_sum(),
            forall|b: int|
                old(accounting).spec_posts_bounded(b) ==> final(accounting).spec_posts_bounded(
                    b + 3 * AMOUNT_CAP,
                ),
    {
        proof {
            lemma_abs_mul_le(self.quantity@, self.entry_price@, POS_QTY_LIMIT as int, UNIT_LIMIT as int);
            lemma_abs_mul_le(filled_qty@, fill_price@, POS_QTY_LIMIT as int, UNIT_LIMIT as int);
        }
        let at_entry: i128 = self.quantity.m * self.entry_price.m;
        let at_fill: i128 = filled_qty.m * fill_price.m;
        let new_qty = self.quantity.plus(filled_qty);
        let new_entry_m = div_floor(at_entry + at_fill, new_qty.m);
        proof {
            lemma_new_entry_price_bounds(self.quantity@, self.entry_price@, filled_qty@, fill_price@);
        }
        let new_entry = QuoteCurrency { m: new_entry_m };
        let target = margin_amount(new_qty, new_entry, init_margin_req);
        let pm_old = accounting.margin_balance_of(LedgerAccount::UserPositionMargin);
        proof {
            lemma_margin_in_cap(self.quantity@, self.entry_price@, init_margin_req@);
        }
        if target.m > pm_old.m {
            let delta = target.minus(pm_old);
            let transaction = Transaction::new(
                LedgerAccount::UserPositionMargin,
                LedgerAccount::UserWallet,
                delta,
            );
            accounting.create_margin_transfer(transaction);
        } else if target.m < pm_old.m {
            let delta = pm_old.minus(target);
            let transaction = Transaction::new(
                LedgerAccount::UserWallet,
                LedgerAccount::UserPositionMargin,
                delta,
            );
            accounting.create_margin_transfer(transaction);
        }
        PositionInner { quantity: new_qty, entry_price: new_entry }
    }
}

impl Default for Position {
    /// The default position is no position at all.
    fn default() -> (r: Self)
        ensures
            r == Position::Neutral,
    {
        Position::Neutral
    }
}

impl Position {
    /// Change the position by a fill of `filled_qty` at `fill_price` on
    /// `side`, with all margin and profit accounting routed through the
    /// ledger.  Afterwards the position-margin account holds exactly the
    /// margin of the new position; the wallet has moved by the margin
    /// difference plus the realized profit or loss, which the treasury
    /// mirrors.
    #[verifier::rlimit(60)]
    pub(crate) fn change_position(
        &mut self,
        filled_qty: BaseCurrency,
        fill_price: QuoteCurrency,
        side: Side,
        accounting: &mut TransactionAccounting,
        init_margin_req: Fraction,
    )
        requires
            old(self).wf(),
            old(self).spec_qty() + filled_qty@ <= POS_QTY_LIMIT,
            0 < filled_qty@ <= UNIT_LIMIT,
            0 < fill_price@ <= UNIT_LIMIT,
            0 < init_margin_req@ <= SCALE,
            old(accounting).spec_posts_bounded(LEDGER_POSTS_LIMIT as int),
            old(accounting).spec_balance(LedgerAccount::UserPositionMargin)
                == old(self).spec_position_margin(init_margin_req@),
        ensures
            *final(self) == old(self).spec_apply(filled_qty@, fill_price@, side),
            final(self).wf(),
            final(self).spec_qty() <= old(self).spec_qty() + filled_qty@,
            final(accounting).spec_balance(LedgerAccount::UserPositionMargin)
                == final(self).spec_position_margin(init_margin_req@),
            final(accounting).spec_balance(LedgerAccount::UserWallet) == old(accounting).spec_balance(
                LedgerAccount::UserWallet,
            ) + old(self).spec_position_margin(init_margin_req@) - final(self).spec_position_margin(
                init_margin_req@,
            ) + old(self).spec_realized_pnl(filled_qty@, fill_price@, side),
            final(accounting).spec_balance(LedgerAccount::Treasury) == old(accounting).spec_balance(
                LedgerAccount::Treasury,
            ) - old(self).spec_realized_pnl(filled_qty@, fill_price@, side),
            final(accounting).spec_balance(LedgerAccount::UserOrderMargin) == old(
                accounting,
            ).spec_balance(LedgerAccount::UserOrderMargin),
            final(accounting).spec_balance(LedgerAccount::ExchangeFee) == old(
                accounting,
            ).spec_balance(LedgerAccount::ExchangeFee),
            final(accounting).spec_balance_sum() == old(accounting).spec_balance_sum(),
            forall|b: int|
                old(accounting).spec_posts_bounded(b) ==> final(accounting).spec_posts_bounded(
                    b + 6 * AMOUNT_CAP,
                ),
    {
        let pos = *self;
        match pos {
            Position::Neutral => {
                let inner = PositionInner::new(filled_qty, fill_price, accounting, init_margin_req);
                match side {
                    Side::Buy => {
                        *self = Position::Long(inner);
                    },
                    Side::Sell => {
                        *self = Position::Short(inner);
                    },
                }
            },
            Position::Long(inner) => {
                match side {
                    Side::Buy => {
                        let grown = inner.increase_contracts(
                            filled_qty,
                            fill_price,
                            accounting,
                            init_margin_req,
                        );
                        *self = Position::Long(grown);
                    },
                    Side::Sell => {
                        if filled_qty.m < inner.quantity.m {
                            let shrunk = inner.decrease_contracts(
                                filled_qty,
                                fill_price,
                                true,
                                accounting,
                                init_margin_req,
                            );
                            *self = Position::Long(shrunk);
                        } else if filled_qty.m == inner.quantity.m {
                            let _ = inner.decrease_contracts(
                                filled_qty,
                                fill_price,
                                true,
                                accounting,
                                init_margin_req,
                            );
                            proof {
                                lemma_zero_margin(inner.entry_price@, init_margin_req@);
                            }
                            *self = Position::Neutral;
                        } else {
                            let closed = inner.decrease_contracts(
                                inner.quantity,
                                fill_price,
                                true,
                                accounting,
                                init_margin_req,
                            );
                            proof {
                                lemma_zero_margin(inner.entry_price@, init_margin_req@);
                            }
                            let new_qty = filled_qty.minus(inner.quantity);
                            let opened = PositionInner::new(
                                new_qty,
                                fill_price,
                                accounting,
                                init_margin_req,
                            );
                            *self = Position::Short(opened);
                        }
                    },
                }
            },
            Position::Short(inner) => {
                match side {
                    Side::Buy => {
                        if filled_qty.m < inner.quantity.m {
                            let shrunk = inner.decrease_contracts(
                                filled_qty,
                                fill_price,
                                false,
                                accounting,
                                init_margin_req,
                            );
                            *self = Position::Short(shrunk);
                        } else if filled_qty.m == inner.quantity.m {
                            let _ = inner.decrease_contracts(
                                filled_qty,
                                fill_price,
                                false,
                                accounting,
                                init_margin_req,
                            );
                            proof {
                                lemma_zero_margin(inner.entry_price@, init_margin_req@);
                            }
                            *self = Position::Neutral;
                        } else {
                            let closed = inner.decrease_contracts(
                                inner.quantity,
                                fill_price,
                                false,
                                accounting,
                                init_margin_req,
                            );
                            proof {
                                lemma_zero_margin(inner.entry_price@, init_margin_req@);
                            }
                            let new_qty = filled_qty.minus(inner.quantity);
                            let opened = PositionInner::new(
                                new_qty,
                                fill_price,
                                accounting,
                                init_margin_req,
                            );
                            *self = Position::Long(opened);
                        }
                    },
                    Side::Sell => {
                        let grown = inner.increase_contracts(
                            filled_qty,
                            fill_price,
                            accounting,
                            init_margin_req,
                        );
                        *self = Position::Short(grown);
                    },
                }
            },
        }
    }
}

/// A position of zero contracts requires zero margin.
pub proof fn lemma_zero_margin(e: int, imr: int)
    ensures
        spec_margin(0, e, imr) == 0,
{
    assert(0 * e == 0) by (nonlinear_arith);
    assert(spec_notional(0, e) == 0int / (SCALE as int));
    assert(0int / (SCALE as int) == 0) by (nonlinear_arith);
    assert(0 * imr == 0) by (nonlinear_arith);
}

/// Law: turnaround equivalence.  Filling exactly twice the open quantity
/// against a position is the same, in final position and in realized
/// profit or loss (and hence in every ledger movement the transition
/// makes), as first closing the position and then opening the opposite one
/// of the original size, both at the same price.
pub proof fn lemma_turnaround_equivalence(pos: Position, p: int, side: Side)
    requires
        pos.wf(),
        0 < p,
        match (pos, side) {
            (Position::Long(_), Side::Sell) => true,
            (Position::Short(_), Side::Buy) => true,
            _ => false,
        },
    ensures
        pos.spec_apply(2 * pos.spec_qty(), p, side) == pos.spec_apply(
            pos.spec_qty(),
            p,
            side,
        ).spec_apply(pos.spec_qty(), p, side),
        pos.spec_realized_pnl(2 * pos.spec_qty(), p, side) == pos.spec_realized_pnl(
            pos.spec_qty(),
            p,
            side,
        ) + pos.spec_apply(pos.spec_qty(), p, side).spec_realized_pnl(pos.spec_qty(), p, side),
{
    let q = pos.spec_qty();
    assert(q < 2 * q);
    assert(2 * q - q == q);
    assert(vstd::math::min(2 * q, q) == q);
    assert(vstd::math::min(q, q) == q);
}

/// Law: round-trip zero profit.  Opening a position and closing it in
/// full at the same price realizes exactly zero profit or loss and returns
/// the position to neutral, so across the two transitions the ledger moves
/// only by the trading fees charged outside them.
pub proof fn lemma_round_trip_zero_pnl(q: int, p: int, side: Side)
    requires
        0 < q <= POS_QTY_LIMIT,
        0 < p <= UNIT_LIMIT,
    ensures
        ({
            let closing_side = match side {
                Side::Buy => Side::Sell,
                Side::Sell => Side::Buy,
            };
            let opened = Position::Neutral.spec_apply(q, p, side);
            &&& Position::Neutral.spec_realized_pnl(q, p, side) == 0
            &&& opened.spec_apply(q, p, closing_side) == Position::Neutral
            &&& opened.spec_realized_pnl(q, p, closing_side) == 0
        }),
{
    let closing_side = match side {
        Side::Buy => Side::Sell,
        Side::Sell => Side::Buy,
    };
    let opened = Position::Neutral.spec_apply(q, p, side);
    assert(spec_inner(q, p).quantity@ == q);
    assert(spec_inner(q, p).entry_price@ == p);
    assert(vstd::math::min(q, q) == q);
    assert(opened.spec_realized_pnl(q, p, closing_side) == 0) by {
        assert(spec_pnl(p, p, q) == 0);
    }
}

} // verus!

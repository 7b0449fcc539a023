//! Fixed-point monetary types.
//!
//! Every quantity, price and balance in this crate is an exact base-10
//! fixed-point number: a signed integer mantissa scaled by [`SCALE`].
//! `BaseCurrency` denotes amounts of the asset being traded (the order
//! quantity), `QuoteCurrency` denotes amounts of the currency prices are
//! quoted in (prices, margin and balances of linear contracts).

use vstd::prelude::*;

verus! {

/// Number of decimal digits carried by every fixed-point value.
pub const DECIMALS: u32 = 4;

/// The denominator of the fixed-point representation: `10^DECIMALS`.
pub const SCALE: i128 = 10000;

/// Largest mantissa magnitude accepted for a single price, order quantity or
/// rate.  Keeps every product of two such values far below `i128` range.
pub const UNIT_LIMIT: i128 = 1_000_000_000_000_000;

/// Largest position-quantity mantissa for which the engine's arithmetic is
/// proved free of overflow.
pub const POS_QTY_LIMIT: i128 = 100_000_000_000_000_000_000;

/// Largest account-balance mantissa for which the engine's arithmetic is
/// proved free of overflow.
pub const BALANCE_LIMIT: i128 = 1_000_000_000_000_000_000_000_000_000_000_000;

/// Bound on the raw product of two mantissas fed to [`spec_mul_scaled`];
/// far below the `i128` range.
pub const MUL_LIMIT: i128 = 1_000_000_000_000_000_000_000_000_000_000_000_000;

/// Bound on any single notional, margin or profit amount the engine moves in
/// one transfer.
pub const AMOUNT_CAP: i128 = 100_000_000_000_000_000_000_000_000_000_000;

/// `10^e`, as a specification-level integer.
pub open spec fn spec_pow10(e: nat) -> int
    decreases e,
{
    if e == 0 {
        1int
    } else {
        10 * spec_pow10((e - 1) as nat)
    }
}

/// Signed fixed-point product: the exact mathematical product of two scaled
/// values, rescaled by `SCALE` with truncation toward zero.
pub open spec fn spec_mul_scaled(a: int, b: int) -> int {
    if a * b >= 0 {
        (a * b) / (SCALE as int)
    } else {
        -((-(a * b)) / (SCALE as int))
    }
}

/// The markets QUOTE currency: the currency prices are quoted in.  For the
/// linear contracts simulated here it is also the margin currency.
#[derive(Debug, Clone, Copy, PartialEq, Eq, Structural, Hash)]
pub struct QuoteCurrency {
    /// The scaled integer mantissa: the represented value times [`SCALE`].
    pub m: i128,
}

/// The markets BASE currency: the asset being traded; order quantities are
/// denoted in it.
#[derive(Debug, Clone, Copy, PartialEq, Eq, Structural, Hash)]
pub struct BaseCurrency {
    /// The scaled integer mantissa: the represented value times [`SCALE`].
    pub m: i128,
}

impl View for QuoteCurrency {
    type V = int;

    open spec fn view(&self) -> int {
        self.m as int
    }
}

impl View for BaseCurrency {
    type V = int;

    open spec fn view(&self) -> int {
        self.m as int
    }
}

/// `10^e` for small exponents, as an executable value.
pub(crate) fn pow10(e: u32) -> (r: i128)
    requires
        e <= DECIMALS,
    ensures
        r == spec_pow10(e as nat),
        1 <= r <= SCALE,
{
    proof {
        reveal_with_fuel(spec_pow10, 5);
    }
    if e == 0 {
        1
    } else if e == 1 {
        10
    } else if e == 2 {
        100
    } else if e == 3 {
        1000
    } else {
        10000
    }
}

/// Quotient of two mantissas, truncated toward zero; both non-negative, so
/// truncation and flooring agree.
pub(crate) fn div_floor(a: i128, b: i128) -> (r: i128)
    requires
        a >= 0,
        b > 0,
    ensures
        r == a as int / b as int,
        0 <= r <= a,
{
    let q = ((a as u128) / (b as u128)) as i128;
    proof {
        assert(a as u128 == a as nat);
        assert(b as u128 == b as nat);
        assert(a as nat / b as nat == a as int / b as int);
    }
    q
}

/// Remainder of two mantissas; both non-negative, so the Rust remainder
/// agrees with the mathematical one.
pub(crate) fn rem_floor(a: i128, b: i128) -> (r: i128)
    requires
        a >= 0,
        b > 0,
    ensures
        r == a as int % b as int,
{
    let q = ((a as u128) % (b as u128)) as i128;
    proof {
        assert(a as u128 == a as nat);
        assert(b as u128 == b as nat);
        assert(a as nat % b as nat == a as int % b as int);
    }
    q
}

/// Fixed-point product of two scaled mantissas, rescaled by `SCALE`,
/// truncated toward zero.
pub(crate) fn mul_scaled(a: i128, b: i128) -> (r: i128)
    requires
        vstd::math::abs(a as int) <= MUL_LIMIT,
        vstd::math::abs(b as int) <= MUL_LIMIT,
        vstd::math::abs(a as int * b as int) <= MUL_LIMIT,
    ensures
        r == spec_mul_scaled(a as int, b as int),
        vstd::math::abs(spec_mul_scaled(a as int, b as int)) <= vstd::math::abs(a * b),
{
    let neg: bool = (a < 0) != (b < 0);
    let aa: i128 = if a < 0 { -a } else { a };
    let bb: i128 = if b < 0 { -b } else { b };
    proof {
        assert(aa as int * bb as int == vstd::math::abs(a as int * b as int)) by (nonlinear_arith)
            requires
                aa == vstd::math::abs(a as int),
                bb == vstd::math::abs(b as int),
        ;
    }
    let p: i128 = aa * bb;
    let q = div_floor(p, SCALE);
    proof {
        assert(p == vstd::math::abs(a * b)) by (nonlinear_arith)
            requires
                aa == vstd::math::abs(a as int),
                bb == vstd::math::abs(b as int),
                p == aa * bb,
        ;
        if a * b >= 0 {
            assert(!neg || p == 0) by (nonlinear_arith)
                requires
                    a * b >= 0,
                    neg ==> ((a < 0) != (b < 0)),
                    p == vstd::math::abs(a * b),
            ;
        } else {
            assert(neg) by (nonlinear_arith)
                requires
                    a * b < 0,
                    neg == ((a < 0) != (b < 0)),
            ;
        }
    }
    if neg {
        -q
    } else {
        q
    }
}

impl QuoteCurrency {
    /// A value of `units / 10^frac_digits`, e.g. `new(54, 2)` is `0.54`.
    pub fn new(units: i128, frac_digits: u32) -> (r: Self)
        requires
            frac_digits <= DECIMALS,
            units * spec_pow10((DECIMALS - frac_digits) as nat) <= i128::MAX,
            units * spec_pow10((DECIMALS - frac_digits) as nat) >= i128::MIN,
        ensures
            r@ == units * spec_pow10((DECIMALS - frac_digits) as nat),
    {
        let f = pow10(DECIMALS - frac_digits);
        proof {
            assert(units * f <= i128::MAX && units * f >= i128::MIN);
        }
        Self { m: units * f }
    }

    /// The zero amount.
    pub fn new_zero() -> (r: Self)
        ensures
            r@ == 0,
    {
        Self { m: 0 }
    }

    /// Whether the amount is exactly zero.
    pub fn is_zero(&self) -> (r: bool)
        ensures
            r == (self@ == 0),
    {
        self.m == 0
    }

    /// The absolute value of the amount.
    pub fn abs(self) -> (r: Self)
        requires
            self@ > i128::MIN,
        ensures
            r@ == vstd::math::abs(self@),
    {
        if self.m < 0 {
            Self { m: -self.m }
        } else {
            self
        }
    }

    /// The negated amount.
    pub fn into_negative(self) -> (r: Self)
        requires
            self@ > i128::MIN,
        ensures
            r@ == -self@,
    {
        Self { m: -self.m }
    }

    /// Exact sum of two amounts.
    pub fn plus(self, other: Self) -> (r: Self)
        requires
            self@ + other@ <= i128::MAX,
            self@ + other@ >= i128::MIN,
        ensures
            r@ == self@ + other@,
    {
        Self { m: self.m + other.m }
    }

    /// Exact difference of two amounts.
    pub fn minus(self, other: Self) -> (r: Self)
        requires
            self@ - other@ <= i128::MAX,
            self@ - other@ >= i128::MIN,
        ensures
            r@ == self@ - other@,
    {
        Self { m: self.m - other.m }
    }

    /// Profit and loss of a linear futures contract: the quantity valued at
    /// the exit price minus the same quantity valued at the entry price.
    /// A negative `quantity` denotes short exposure.
    pub fn pnl(entry_price: QuoteCurrency, exit_price: QuoteCurrency, quantity: BaseCurrency) -> (r:
        QuoteCurrency)
        requires
            vstd::math::abs(quantity@) <= MUL_LIMIT,
            vstd::math::abs(entry_price@) <= MUL_LIMIT,
            vstd::math::abs(exit_price@) <= MUL_LIMIT,
            vstd::math::abs(quantity@ * entry_price@) <= MUL_LIMIT,
            vstd::math::abs(quantity@ * exit_price@) <= MUL_LIMIT,
        ensures
            r@ == spec_pnl(entry_price@, exit_price@, quantity@),
            vstd::math::abs(r@) <= vstd::math::abs(quantity@ * entry_price@) + vstd::math::abs(
                quantity@ * exit_price@,
            ),
    {
        let at_exit = mul_scaled(quantity.m, exit_price.m);
        let at_entry = mul_scaled(quantity.m, entry_price.m);
        QuoteCurrency { m: at_exit - at_entry }
    }
}

/// Profit and loss of a linear futures contract, as a specification:
/// `quantity` valued at `exit_price` minus `quantity` valued at
/// `entry_price`, each product truncated toward zero.
pub open spec fn spec_pnl(entry_price: int, exit_price: int, quantity: int) -> int {
    spec_mul_scaled(quantity, exit_price) - spec_mul_scaled(quantity, entry_price)
}

/// A scaled product is no larger in magnitude than the raw product.
pub proof fn lemma_mul_scaled_bound(a: int, b: int)
    ensures
        vstd::math::abs(spec_mul_scaled(a, b)) <= vstd::math::abs(a * b),
        a >= 0 && b >= 0 ==> 0 <= spec_mul_scaled(a, b) <= a * b,
{
    if a * b >= 0 {
        assert(0 <= (a * b) / (SCALE as int) <= a * b) by (nonlinear_arith)
            requires
                a * b >= 0,
        ;
    } else {
        assert(0 <= (-(a * b)) / (SCALE as int) <= -(a * b)) by (nonlinear_arith)
            requires
                a * b < 0,
        ;
    }
    if a >= 0 && b >= 0 {
        assert(a * b >= 0) by (nonlinear_arith)
            requires
                a >= 0,
                b >= 0,
        ;
    }
}

impl BaseCurrency {
    /// A value of `units / 10^frac_digits`, e.g. `new(5, 0)` is `5`.
    pub fn new(units: i128, frac_digits: u32) -> (r: Self)
        requires
            frac_digits <= DECIMALS,
            units * spec_pow10((DECIMALS - frac_digits) as nat) <= i128::MAX,
            units * spec_pow10((DECIMALS - frac_digits) as nat) >= i128::MIN,
        ensures
            r@ == units * spec_pow10((DECIMALS - frac_digits) as nat),
    {
        let f = pow10(DECIMALS - frac_digits);
        proof {
            assert(units * f <= i128::MAX && units * f >= i128::MIN);
        }
        Self { m: units * f }
    }

    /// The zero quantity.
    pub fn new_zero() -> (r: Self)
        ensures
            r@ == 0,
    {
        Self { m: 0 }
    }

    /// Whether the quantity is exactly zero.
    pub fn is_zero(&self) -> (r: bool)
        ensures
            r == (self@ == 0),
    {
        self.m == 0
    }

    /// The absolute value of the quantity.
    pub fn abs(self) -> (r: Self)
        requires
            self@ > i128::MIN,
        ensures
            r@ == vstd::math::abs(self@),
    {
        if self.m < 0 {
            Self { m: -self.m }
        } else {
            self
        }
    }

    /// Exact sum of two quantities.
    pub fn plus(self, other: Self) -> (r: Self)
        requires
            self@ + other@ <= i128::MAX,
            self@ + other@ >= i128::MIN,
        ensures
            r@ == self@ + other@,
    {
        Self { m: self.m + other.m }
    }

    /// Exact difference of two quantities.
    pub fn minus(self, other: Self) -> (r: Self)
        requires
            self@ - other@ <= i128::MAX,
            self@ - other@ >= i128::MIN,
        ensures
            r@ == self@ - other@,
    {
        Self { m: self.m - other.m }
    }

    /// Value of this base-currency quantity at the given price, in quote
    /// currency: the notional of a linear contract.
    pub fn convert(&self, rate: QuoteCurrency) -> (r: QuoteCurrency)
        requires
            vstd::math::abs(self@) <= MUL_LIMIT,
            vstd::math::abs(rate@) <= MUL_LIMIT,
            vstd::math::abs(self@ * rate@) <= MUL_LIMIT,
        ensures
            r@ == spec_mul_scaled(self@, rate@),
            vstd::math::abs(r@) <= vstd::math::abs(self@ * rate@),
    {
        QuoteCurrency { m: mul_scaled(self.m, rate.m) }
    }
}

/// A dimensionless fraction (a fee rate, or a margin requirement), stored as
/// a scaled mantissa like every other fixed-point value.  May be negative:
/// a negative maker fee is a rebate.
#[derive(Debug, Clone, Copy, PartialEq, Eq, Structural, Hash)]
pub struct Fraction {
    /// The scaled integer mantissa: the represented fraction times [`SCALE`].
    pub m: i128,
}

/// A basis-point trading-fee rate; negative for a rebate.
pub type Fee = Fraction;

impl View for Fraction {
    type V = int;

    open spec fn view(&self) -> int {
        self.m as int
    }
}

impl Fraction {
    /// A fraction of `units / 10^frac_digits`, e.g. `new(6, 4)` is `0.0006`.
    pub fn new(units: i128, frac_digits: u32) -> (r: Self)
        requires
            frac_digits <= DECIMALS,
            units * spec_pow10((DECIMALS - frac_digits) as nat) <= i128::MAX,
            units * spec_pow10((DECIMALS - frac_digits) as nat) >= i128::MIN,
        ensures
            r@ == units * spec_pow10((DECIMALS - frac_digits) as nat),
    {
        let f = pow10(DECIMALS - frac_digits);
        proof {
            assert(units * f <= i128::MAX && units * f >= i128::MIN);
        }
        Self { m: units * f }
    }
}

impl QuoteCurrency {
    /// This amount scaled by a fraction, truncated toward zero.
    pub fn times_fraction(self, frac: Fraction) -> (r: QuoteCurrency)
        requires
            vstd::math::abs(self@) <= MUL_LIMIT,
            vstd::math::abs(frac@) <= MUL_LIMIT,
            vstd::math::abs(self@ * frac@) <= MUL_LIMIT,
        ensures
            r@ == spec_mul_scaled(self@, frac@),
            vstd::math::abs(r@) <= vstd::math::abs(self@ * frac@),
    {
        QuoteCurrency { m: mul_scaled(self.m, frac.m) }
    }
}

/// The magnitude of a product is bounded by the product of the bounds.
pub proof fn lemma_abs_mul_le(a: int, b: int, ba: int, bb: int)
    requires
        vstd::math::abs(a) <= ba,
        vstd::math::abs(b) <= bb,
    ensures
        vstd::math::abs(a * b) <= ba * bb,
{
    assert(vstd::math::abs(a * b) <= ba * bb) by (nonlinear_arith)
        requires
            vstd::math::abs(a) <= ba,
            vstd::math::abs(b) <= bb,
    ;
}

/// A truncated scaled product of non-negative values lies between zero and
/// the raw product, and is monotone in its first argument.
pub proof fn lemma_mul_scaled_monotone(a1: int, a2: int, b: int)
    requires
        0 <= a1 <= a2,
        0 <= b,
    ensures
        spec_mul_scaled(a1, b) <= spec_mul_scaled(a2, b),
{
    assert(a1 * b >= 0 && a2 * b >= a1 * b) by (nonlinear_arith)
        requires
            0 <= a1 <= a2,
            0 <= b,
    ;
    assert((a1 * b) / (SCALE as int) <= (a2 * b) / (SCALE as int)) by (nonlinear_arith)
        requires
            0 <= a1 * b <= a2 * b,
    ;
}

} // verus!

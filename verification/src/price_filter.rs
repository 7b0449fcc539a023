//! The price filter: the rules every price must follow.

use vstd::prelude::*;
use crate::currency::{rem_floor, Fraction, QuoteCurrency, UNIT_LIMIT};
use crate::errors::{ConfigError, FilterError};

verus! {

/// Defines the price rules of the market: optional minimum and maximum
/// prices, the tick size prices move in, and how far a limit price may
/// stray from the mid and mark prices.
#[derive(Debug, Clone, Copy, PartialEq, Eq, Structural)]
pub struct PriceFilter {
    /// The optional minimum price of any order.
    pub min_price: Option<QuoteCurrency>,
    /// The optional maximum price of any order.
    pub max_price: Option<QuoteCurrency>,
    /// The interval prices move in; every price must be a multiple of it.
    pub tick_size: QuoteCurrency,
    /// The largest accepted deviation of a limit price from the mid price,
    /// as a fraction of the mid price.
    pub max_price_deviation: Fraction,
    /// The largest accepted deviation of a limit price from the mark price,
    /// as a fraction.  The simulated mark price is the mid price.
    pub max_price_diff_to_mark: Fraction,
}

impl PriceFilter {
    /// The filter's bounds are in range, the tick size is positive, and the
    /// deviation fractions are positive.
    pub open spec fn wf(self) -> bool {
        &&& 0 < self.tick_size@ <= UNIT_LIMIT
        &&& match self.min_price {
            Some(p) => 0 < p@ <= UNIT_LIMIT && p@ % self.tick_size@ == 0,
            None => true,
        }
        &&& match (self.min_price, self.max_price) {
            (Some(lo), Some(hi)) => lo@ <= hi@,
            _ => true,
        }
        &&& match self.max_price {
            Some(p) => 0 < p@ <= UNIT_LIMIT,
            None => true,
        }
        &&& 0 < self.max_price_deviation@ <= UNIT_LIMIT
        &&& 0 < self.max_price_diff_to_mark@ <= UNIT_LIMIT
    }

    /// The verdict of the filter on a bare price, without mid-price checks:
    /// positive, within the bounds, and on the tick grid.
    pub open spec fn spec_validate_price(self, p: int) -> Result<(), FilterError> {
        if p <= 0 {
            Err(FilterError::PriceTooLow)
        } else if self.min_price matches Some(min) && p < min@ {
            Err(FilterError::PriceTooLow)
        } else if self.max_price matches Some(max) && p > max@ {
            Err(FilterError::PriceTooHigh)
        } else if p % self.tick_size@ != 0 {
            Err(FilterError::InvalidTickSize)
        } else {
            Ok(())
        }
    }

    /// Whether `p` deviates from `mid` by more than the fraction `dev` of
    /// `mid`: the comparison is cross-multiplied, so it is exact.
    pub open spec fn spec_too_far(p: int, mid: int, dev: int) -> bool {
        vstd::math::abs(p - mid) * (crate::currency::SCALE as int) > dev * mid
    }

    /// The verdict of the filter on a limit price quoted while the mid
    /// price is `mid`: the bare-price checks, then the deviation checks
    /// (the mark price of the simulated market is the mid price).
    pub open spec fn spec_validate_limit_price(self, p: int, mid: int) -> Result<
        (),
        FilterError,
    > {
        match self.spec_validate_price(p) {
            Err(e) => Err(e),
            Ok(()) => if mid > 0 && Self::spec_too_far(p, mid, self.max_price_deviation@) {
                Err(FilterError::PriceTooFarFromMid)
            } else if mid > 0 && Self::spec_too_far(p, mid, self.max_price_diff_to_mark@) {
                Err(FilterError::PriceTooFarFromMark)
            } else {
                Ok(())
            },
        }
    }

    /// A filter without price bounds: tick size one, prices allowed to
    /// deviate from the mid by a factor of two.
    pub fn default() -> (r: Self)
        ensures
            r.wf(),
            r.min_price is None,
            r.max_price is None,
            r.tick_size@ == crate::currency::SCALE,
            r.max_price_deviation@ == 2 * crate::currency::SCALE,
            r.max_price_diff_to_mark@ == 2 * crate::currency::SCALE,
    {
        PriceFilter {
            min_price: None,
            max_price: None,
            tick_size: QuoteCurrency { m: crate::currency::SCALE },
            max_price_deviation: Fraction { m: 2 * crate::currency::SCALE },
            max_price_diff_to_mark: Fraction { m: 2 * crate::currency::SCALE },
        }
    }

    /// Create a new price filter.  The tick size must be positive, the
    /// minimum price (when given) a positive multiple of it, and the
    /// maximum price (when given) no smaller than the minimum.
    pub fn new(
        min_price: Option<QuoteCurrency>,
        max_price: Option<QuoteCurrency>,
        tick_size: QuoteCurrency,
        max_price_deviation: Fraction,
        max_price_diff_to_mark: Fraction,
    ) -> (r: Result<Self, ConfigError>)
        requires
            tick_size@ <= UNIT_LIMIT,
            min_price matches Some(p) ==> p@ <= UNIT_LIMIT,
            max_price matches Some(p) ==> p@ <= UNIT_LIMIT,
            0 < max_price_deviation@ <= UNIT_LIMIT,
            0 < max_price_diff_to_mark@ <= UNIT_LIMIT,
        ensures
            r == (if tick_size@ <= 0 {
                Err::<Self, ConfigError>(ConfigError::InvalidTickSize)
            } else if min_price matches Some(min) && !(min@ > 0 && min@ % tick_size@ == 0) {
                Err::<Self, ConfigError>(ConfigError::InvalidMinPrice)
            } else if max_price matches Some(max) && !(max@ > 0 && (match min_price {
                Some(min) => min@ <= max@,
                None => true,
            })) {
                Err::<Self, ConfigError>(ConfigError::InvalidMaxPrice)
            } else {
                Ok::<Self, ConfigError>(
                    PriceFilter {
                        min_price,
                        max_price,
                        tick_size,
                        max_price_deviation,
                        max_price_diff_to_mark,
                    },
                )
            }),
            r matches Ok(f) ==> f.wf(),
    {
        if tick_size.m <= 0 {
            return Err(ConfigError::InvalidTickSize);
        }
        if let Some(min) = min_price {
            if !(min.m > 0 && rem_floor(min.m, tick_size.m) == 0) {
                return Err(ConfigError::InvalidMinPrice);
            }
        }
        if let Some(max) = max_price {
            let above_min = match min_price {
                Some(min) => min.m <= max.m,
                None => true,
            };
            if !(max.m > 0 && above_min) {
                return Err(ConfigError::InvalidMaxPrice);
            }
        }
        Ok(PriceFilter { min_price, max_price, tick_size, max_price_deviation, max_price_diff_to_mark })
    }

    /// Check a bare price against the filter: positive, within the bounds,
    /// and on the tick grid.
    pub fn validate_price(&self, price: QuoteCurrency) -> (r: Result<(), FilterError>)
        requires
            self.wf(),
            -UNIT_LIMIT <= price@ <= UNIT_LIMIT,
        ensures
            r == self.spec_validate_price(price@),
    {
        if price.m <= 0 {
            return Err(FilterError::PriceTooLow);
        }
        if let Some(min) = self.min_price {
            if price.m < min.m {
                return Err(FilterError::PriceTooLow);
            }
        }
        if let Some(max) = self.max_price {
            if price.m > max.m {
                return Err(FilterError::PriceTooHigh);
            }
        }
        if rem_floor(price.m, self.tick_size.m) != 0 {
            return Err(FilterError::InvalidTickSize);
        }
        Ok(())
    }

    /// Check a limit price against the filter while the mid price is `mid`:
    /// the bare-price checks, then the deviation from mid and mark.
    pub fn validate_limit_price(&self, price: QuoteCurrency, mid: QuoteCurrency) -> (r: Result<
        (),
        FilterError,
    >)
        requires
            self.wf(),
            -UNIT_LIMIT <= price@ <= UNIT_LIMIT,
            0 <= mid@ <= UNIT_LIMIT,
        ensures
            r == self.spec_validate_limit_price(price@, mid@),
    {
        if let Err(e) = self.validate_price(price) {
            return Err(e);
        }
        if mid.m > 0 {
            proof {
                crate::currency::lemma_abs_mul_le(
                    self.max_price_deviation@,
                    mid@,
                    UNIT_LIMIT as int,
                    UNIT_LIMIT as int,
                );
                crate::currency::lemma_abs_mul_le(
                    self.max_price_diff_to_mark@,
                    mid@,
                    UNIT_LIMIT as int,
                    UNIT_LIMIT as int,
                );
            }
            let delta: i128 = if price.m >= mid.m {
                price.m - mid.m
            } else {
                mid.m - price.m
            };
            if delta * crate::currency::SCALE > self.max_price_deviation.m * mid.m {
                return Err(FilterError::PriceTooFarFromMid);
            }
            if delta * crate::currency::SCALE > self.max_price_diff_to_mark.m * mid.m {
                return Err(FilterError::PriceTooFarFromMark);
            }
        }
        Ok(())
    }
}

} // verus!

//! The quantity filter: the rules every order quantity must follow.

use vstd::prelude::*;
use crate::currency::{rem_floor, BaseCurrency, UNIT_LIMIT};
use crate::errors::{ConfigError, FilterError};

verus! {

/// Defines the quantity rules that each order needs to follow: an optional
/// minimum and maximum, and the step size quantities move in.
#[derive(Debug, Clone, Copy, PartialEq, Eq, Structural)]
pub struct QuantityFilter {
    /// The optional minimum quantity of any order.
    pub min_quantity: Option<BaseCurrency>,
    /// The optional maximum quantity of any order.
    pub max_quantity: Option<BaseCurrency>,
    /// The interval a quantity can be increased or decreased by.  For the
    /// filter to pass, `(quantity - min_quantity) % step_size == 0`.
    pub step_size: BaseCurrency,
}

impl QuantityFilter {
    /// The filter's bounds are in range and the step size is positive.
    pub open spec fn wf(self) -> bool {
        &&& 0 < self.step_size@ <= UNIT_LIMIT
        &&& match self.min_quantity {
            Some(q) => 0 <= q@ <= UNIT_LIMIT && q@ % self.step_size@ == 0,
            None => true,
        }
        &&& match self.max_quantity {
            Some(q) => 0 <= q@ <= UNIT_LIMIT,
            None => true,
        }
    }

    /// The verdict of the filter on a quantity.
    pub open spec fn spec_validate(self, q: int) -> Result<(), FilterError> {
        if q == 0 {
            Err(FilterError::QuantityTooLow)
        } else if self.max_quantity matches Some(max) && q > max@ {
            Err(FilterError::QuantityTooHigh)
        } else if self.min_quantity matches Some(min) && q < min@ {
            Err(FilterError::QuantityTooLow)
        } else if (q - (match self.min_quantity {
            Some(min) => min@,
            None => 0int,
        })) % self.step_size@ != 0 {
            Err(FilterError::InvalidQuantityStepSize)
        } else {
            Ok(())
        }
    }

    /// A filter without quantity bounds, moving in steps of one.
    pub fn default() -> (r: Self)
        ensures
            r == (QuantityFilter {
                min_quantity: None::<BaseCurrency>,
                max_quantity: None::<BaseCurrency>,
                step_size: BaseCurrency { m: crate::currency::SCALE },
            }),
            r.wf(),
    {
        QuantityFilter {
            min_quantity: None,
            max_quantity: None,
            step_size: BaseCurrency { m: crate::currency::SCALE },
        }
    }

    /// Create a new quantity filter.  The step size must be positive and
    /// the minimum quantity, when given, a non-negative multiple of it.
    pub fn new(
        min_quantity: Option<BaseCurrency>,
        max_quantity: Option<BaseCurrency>,
        step_size: BaseCurrency,
    ) -> (r: Result<Self, ConfigError>)
        requires
            step_size@ <= UNIT_LIMIT,
            min_quantity matches Some(q) ==> q@ <= UNIT_LIMIT,
            max_quantity matches Some(q) ==> 0 <= q@ <= UNIT_LIMIT,
        ensures
            r == (if step_size@ <= 0 {
                Err::<Self, ConfigError>(ConfigError::InvalidTickSize)
            } else if min_quantity matches Some(min) && !(min@ >= 0 && min@ % step_size@ == 0) {
                Err::<Self, ConfigError>(ConfigError::InvalidMinQuantity)
            } else {
                Ok::<Self, ConfigError>(QuantityFilter { min_quantity, max_quantity, step_size })
            }),
            r matches Ok(f) ==> f.wf(),
    {
        if step_size.m <= 0 {
            return Err(ConfigError::InvalidTickSize);
        }
        if let Some(min) = min_quantity {
            if min.m < 0 || rem_floor(min.m, step_size.m) != 0 {
                return Err(ConfigError::InvalidMinQuantity);
            }
        }
        Ok(QuantityFilter { min_quantity, max_quantity, step_size })
    }

    /// Check an order quantity against the filter: it must be non-zero, within
    /// the bounds, and at the minimum plus a whole number of steps.
    pub fn validate_order_quantity(&self, quantity: BaseCurrency) -> (r: Result<(), FilterError>)
        requires
            self.wf(),
            0 <= quantity@ <= UNIT_LIMIT,
        ensures
            r == self.spec_validate(quantity@),
    {
        if quantity.m == 0 {
            return Err(FilterError::QuantityTooLow);
        }
        if let Some(max) = self.max_quantity {
            if quantity.m > max.m {
                return Err(FilterError::QuantityTooHigh);
            }
        }
        let min: BaseCurrency = match self.min_quantity {
            Some(min) => {
                if quantity.m < min.m {
                    return Err(FilterError::QuantityTooLow);
                }
                min
            },
            None => BaseCurrency::new_zero(),
        };
        if rem_floor(quantity.m - min.m, self.step_size.m) != 0 {
            return Err(FilterError::InvalidQuantityStepSize);
        }
        Ok(())
    }
}

} // verus!

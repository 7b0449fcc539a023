//! The error taxonomy of the exchange.
//!
//! Every public operation returns a tagged result; all errors are recoverable
//! and carry the minimal data needed to diagnose them.

use vstd::prelude::*;
use crate::currency::QuoteCurrency;

verus! {

/// Errors detected when validating an exchange configuration.
#[derive(Debug, Clone, Copy, PartialEq, Eq, Structural)]
pub enum ConfigError {
    /// The starting wallet balance must be positive.
    InvalidStartingBalance,
    /// The initial margin requirement must lie in (0, 1].
    InvalidInitMarginReq,
    /// A tick or step size must be positive.
    InvalidTickSize,
    /// The minimum price must be positive and on the tick grid.
    InvalidMinPrice,
    /// The minimum quantity must be a multiple of the step size.
    InvalidMinQuantity,
    /// The maximum price must not be below the minimum price.
    InvalidMaxPrice,
}

/// Errors raised by the price and quantity filters.
#[derive(Debug, Clone, Copy, PartialEq, Eq, Structural)]
pub enum FilterError {
    /// The price is below the allowed minimum (or not positive).
    PriceTooLow,
    /// The price is above the allowed maximum.
    PriceTooHigh,
    /// The price is not a multiple of the tick size.
    InvalidTickSize,
    /// The price deviates too far from the mid price.
    PriceTooFarFromMid,
    /// The price deviates too far from the mark price.
    PriceTooFarFromMark,
    /// The order quantity is below the allowed minimum (or zero).
    QuantityTooLow,
    /// The order quantity is above the allowed maximum.
    QuantityTooHigh,
    /// The order quantity is not `min_quantity` plus a multiple of the step
    /// size.
    InvalidQuantityStepSize,
}

/// Errors raised when constructing or submitting an order.
#[derive(Debug, Clone, Copy, PartialEq, Eq, Structural)]
pub enum OrderError {
    /// The order quantity must be strictly positive.
    OrderQuantityLTEZero,
    /// A passive limit order would have crossed the spread and taken
    /// liquidity; it is rejected.
    GoodTillCrossingRejected {
        /// The limit price of the rejected order.
        limit_price: QuoteCurrency,
        /// The opposing best quote it crossed.
        away_market_quotation_price: QuoteCurrency,
    },
    /// A non-default user order id is already attached to an active order.
    DuplicateUserOrderId,
}

/// Errors raised by the risk engine.
#[derive(Debug, Clone, Copy, PartialEq, Eq, Structural)]
pub enum RiskError {
    /// The available wallet balance does not cover the margin and fee the
    /// order requires.
    NotEnoughAvailableBalance,
    /// The mark-to-market equity of the position has fallen below the
    /// maintenance margin.
    MaintenanceMarginViolated,
    /// The configured cap on open limit orders is reached.
    ExceedsMaxOpenOrders,
}

/// Errors raised when looking up an active order.
#[derive(Debug, Clone, Copy, PartialEq, Eq, Structural)]
pub enum LookupError {
    /// No active order carries the given exchange order id.
    OrderIdNotFound,
    /// No active order carries the given user order id.
    UserOrderIdNotFound,
}

/// Errors raised when applying a market update.
#[derive(Debug, Clone, Copy, PartialEq, Eq, Structural)]
pub enum MarketUpdateError {
    /// Market updates must carry non-decreasing timestamps.
    NonMonotonicTimestamp,
    /// A best-bid-ask update must have its bid strictly below its ask.
    BidGreaterThanAsk,
}

/// The union of all errors a public exchange operation can return.
#[derive(Debug, Clone, Copy, PartialEq, Eq, Structural)]
pub enum Error {
    /// An invalid configuration.
    ConfigError(ConfigError),
    /// A price or quantity filter rejection.
    FilterError(FilterError),
    /// An order construction or submission rejection.
    OrderError(OrderError),
    /// A risk engine rejection.
    RiskError(RiskError),
    /// A failed order lookup.
    LookupError(LookupError),
    /// An invalid market update.
    MarketUpdateError(MarketUpdateError),
}

} // verus!

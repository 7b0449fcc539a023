//! A deterministic, event-driven simulator of a leveraged perpetual-futures
//! exchange, for backtesting trading strategies.
//!
//! The crate maintains a single-account simulated trading state: wallet
//! balance, open position (long/short/neutral), resting limit orders and fee
//! accounting.  Market orders execute immediately against the current best
//! quote; resting limit orders match against passing trade flow.  Margin and
//! risk constraints, and fixed-point decimal filters, are enforced throughout.
//!
//! All monetary values are exact base-10 fixed-point numbers; the accounting
//! is double-entry over a small closed set of accounts, and the key balance
//! invariants are machine-checked.

pub mod accounting;
pub mod config;
pub mod currency;
pub mod errors;
pub mod exchange;
pub mod limit_order;
pub mod market_order;
pub mod market_state;
pub mod market_update;
pub mod order_margin;
pub mod order_status;
pub mod order_update;
pub mod position;
pub mod price_filter;
pub mod quantity_filter;
pub mod side;
pub mod smart_candle;
pub mod user_id_index;

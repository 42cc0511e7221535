//! Pricing core of a Bitcoin / synthetic-USD hedging service.
//!
//! Exchange price ticks are fused into one staleness-checked mid-rate, which
//! is then adjusted by settlement-tier fee spreads to convert between
//! satoshis and USD cents. All arithmetic is decimal fixed point.

pub mod amount;
pub mod cache;
pub mod config;
pub mod fee_calculator;
pub mod galoy;
pub mod header;
pub mod okex;
pub mod price_app;
pub mod ratio;
pub mod time;
pub mod wallet;

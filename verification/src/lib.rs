//! A verified core for a rule-driven trading system.
//!
//! The library evaluates trading rules against price data and tracks the
//! resulting book of positions.  Monetary quantities are fixed-point
//! integers ([`SCALE`](amount::SCALE) units per whole currency unit), so
//! every computation here is exact integer arithmetic with proved bounds.

pub mod amount;
pub mod config;
pub mod data;
pub mod database;
pub mod performance;
pub mod strategy;
pub mod xai;
pub mod error;
pub mod live;
pub mod market;
pub mod mock;
mod runtime;

pub use amount::SCALE;

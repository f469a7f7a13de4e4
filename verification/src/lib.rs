//! A verified risk engine for collateralized debt positions.
//!
//! Accounts lock collateral of a recognized type and mint a stable asset
//! against it. The engine keeps per-collateral risk parameters, validates
//! position safety, and runs the liquidation and settlement paths. Every
//! state-changing operation is atomic: it either applies in full or leaves
//! the state untouched, and each failure is a typed error.

pub mod arith;
pub mod currency;
pub mod fixed;
pub mod store;
pub mod oracle;
pub mod treasury;
pub mod dex;
pub mod engine;
pub mod validator;
pub mod adjust;
pub mod liquidate;
pub mod builder;
pub mod laws;

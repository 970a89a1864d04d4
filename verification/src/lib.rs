//! A bonding-curve token-launch market maker.
//!
//! The crate models the deterministic core of an on-ledger automated market
//! maker: a per-token [`curve::BondingCurve`] holds a native-value reserve and
//! a token reserve, prices buys and sells by a constant-product rule with
//! basis-point fees, and latches a one-way completion flag once the native
//! reserve reaches a configured threshold. A deployment-wide
//! [`config::Config`] carries the authorities, wallets, fee rates and launch
//! constraints. Every operation is a pure function from plain values to plain
//! values; the host that owns the ledger performs the fund movement that an
//! operation's result calls for.

pub mod amount_config;
pub mod config;
pub mod curve;
pub mod errors;
pub mod identity;
pub mod laws;
pub mod math;

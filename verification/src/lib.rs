//! A two-asset constant-product liquidity pool and a companion fundraising
//! module, written as pure state-transition functions with machine-checked
//! contracts.
//!
//! The host (storage, message routing, balance queries, address validation)
//! stays outside: every operation takes the stored records and the facts the
//! host supplied, and returns the new records together with the requests to
//! emit.

pub mod asset;
pub mod decimal;
pub mod ico;
pub mod pair;
pub mod pool;
pub mod utils;

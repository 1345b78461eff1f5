//! The fundraising contract: contributions toward a funding target, then a
//! token minted and handed out in proportion to what each funder paid.

pub mod contract;
pub mod error;
pub mod execute;
pub mod msg;
pub mod query;
pub mod state;

//! The pool contract: errors, fee and pricing arithmetic, stored records and
//! the operations on them.

pub mod contract;
pub mod error;
pub mod laws;
pub mod math;
pub mod state;

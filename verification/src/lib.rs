//! Hashed and pre-hashed timelock escrows: the escrow state machine, its
//! fund-movement rules and an in-memory escrow store, with machine-checked
//! contracts.

pub mod bytes;
pub mod digest;
pub mod error;
pub mod status;
pub mod model;
pub mod payout;
pub mod htlc;
pub mod laws;
pub mod store;
pub mod context;
pub mod operations;

//! The escrow contract for any token: escrows, multi-recipient escrows,
//! ticket sales, revenue splits, airdrops and the records kept beside them.
pub mod types;
pub mod contract;
pub mod admin;
pub mod escrow;
pub mod multi_escrow;
pub mod freeze;
pub mod recurring;
pub mod dispute;
pub mod laws;

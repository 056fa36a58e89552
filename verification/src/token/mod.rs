//! The token contract: balances, allowances, freezing, escrows, disputes,
//! splits, recurring payments and batches.
pub mod types;
pub mod contract;
pub mod balance;
pub mod allowance;
pub mod admin;
pub mod freeze;
pub mod validation;
pub mod metadata;
pub mod escrow;
pub mod dispute;
pub mod splitter;
pub mod recurring;
pub mod batch;
pub mod laws;

//! Verified logic of a ticketing payment system: a token with escrows,
//! disputes, splits and recurring payments (`token`), and an escrow contract
//! for any token (`pay`).
use vstd::prelude::*;

pub mod sums;
pub mod token;
pub mod pay;

verus! {

} // verus!

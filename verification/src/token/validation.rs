//! Checks shared by the entry points.
use vstd::prelude::*;
use crate::token::types::{AccountId, TokenError};
use crate::token::contract::VeritixToken;

verus! {

/// Refuses an amount that is zero or negative.
pub fn require_positive_amount(amount: i128) -> (r: Result<(), TokenError>)
    ensures
        r is Ok <==> amount > 0,
        r is Err ==> r == Err::<(), TokenError>(TokenError::NonPositiveAmount),
{
    if amount <= 0 {
        Err(TokenError::NonPositiveAmount)
    } else {
        Ok(())
    }
}

/// Refuses a frozen account.
pub fn require_not_frozen_account(t: &VeritixToken, addr: &AccountId) -> (r: Result<(), TokenError>)
    ensures
        r is Ok <==> !t@.is_frozen(*addr),
        r is Err ==> r == Err::<(), TokenError>(TokenError::AccountFrozen),
{
    if crate::token::freeze::is_frozen(t, addr) {
        Err(TokenError::AccountFrozen)
    } else {
        Ok(())
    }
}

} // verus!

//! The contract administrator.
use vstd::prelude::*;
use crate::token::types::{AccountId, TokenError};
use crate::token::contract::{VeritixToken, TokenModel};

verus! {

/// Whether an administrator has been set.
pub fn has_admin(t: &VeritixToken) -> (r: bool)
    ensures
        r == t@.admin is Some,
{
    t.admin.is_some()
}

/// The administrator; fails with `NotInitialized` when none has been set.
pub fn read_admin(t: &VeritixToken) -> (r: Result<AccountId, TokenError>)
    ensures
        match t@.admin {
            Some(a) => r == Ok::<AccountId, TokenError>(a),
            None => r == Err::<AccountId, TokenError>(TokenError::NotInitialized),
        },
{
    match t.admin {
        Some(a) => Ok(a),
        None => Err(TokenError::NotInitialized),
    }
}

/// Makes `admin` the administrator.
pub fn write_admin(t: &mut VeritixToken, admin: AccountId)
    requires
        old(t).wf(),
    ensures
        final(t).wf(),
        final(t)@ == (TokenModel { admin: Some(admin), ..old(t)@ }),
{
    t.admin = Some(admin);
}

/// The error with which a call claiming to come from `admin` is refused, if any.
pub open spec fn admin_check(m: TokenModel, admin: AccountId) -> Option<TokenError> {
    match m.admin {
        None => Some(TokenError::NotInitialized),
        Some(a) => if a == admin {
            None
        } else {
            Some(TokenError::NotAdmin)
        },
    }
}

/// Checks that `admin` is the administrator (the host checks its signature).
pub fn check_admin(t: &VeritixToken, admin: AccountId) -> (r: Result<(), TokenError>)
    ensures
        match admin_check(t@, admin) {
            None => r is Ok,
            Some(e) => r == Err::<(), TokenError>(e),
        },
{
    match t.admin {
        None => Err(TokenError::NotInitialized),
        Some(a) => if a == admin {
            Ok(())
        } else {
            Err(TokenError::NotAdmin)
        },
    }
}

/// Hands the administrator role to `new_admin` and returns the previous
/// administrator, whose signature the host checks. Fails with
/// `NotInitialized`, changing nothing, when there is no administrator.
pub fn transfer_admin(t: &mut VeritixToken, new_admin: AccountId) -> (r: Result<AccountId, TokenError>)
    requires
        old(t).wf(),
    ensures
        final(t).wf(),
        match old(t)@.admin {
            Some(a) => r == Ok::<AccountId, TokenError>(a) && final(t)@ == (TokenModel { admin: Some(new_admin), ..old(t)@ }),
            None => r == Err::<AccountId, TokenError>(TokenError::NotInitialized) && final(t)@ == old(t)@,
        },
{
    match t.admin {
        Some(a) => {
            t.admin = Some(new_admin);
            Ok(a)
        },
        None => Err(TokenError::NotInitialized),
    }
}

} // verus!

//! The escrow contract's administrator.
use vstd::prelude::*;
use crate::pay::types::{AccountId, PayError, PLACEHOLDER_ACCOUNT};
use crate::pay::contract::VeriTixPay;

verus! {

/// Checks that an administrator address is usable: the placeholder account,
/// which names no real address, is refused with `InvalidAdmin`.
pub fn validate_admin_address(admin: AccountId) -> (r: Result<(), PayError>)
    ensures
        admin == PLACEHOLDER_ACCOUNT ==> r == Err::<(), PayError>(PayError::InvalidAdmin),
        admin != PLACEHOLDER_ACCOUNT ==> r == Ok::<(), PayError>(()),
{
    if admin == PLACEHOLDER_ACCOUNT {
        return Err(PayError::InvalidAdmin);
    }
    Ok(())
}

/// The administrator; fails with `AdminNotSet` before initialization.
pub fn get_admin(p: &VeriTixPay) -> (r: Result<AccountId, PayError>)
    ensures
        match p@.admin {
            Some(a) => r == Ok::<AccountId, PayError>(a),
            None => r == Err::<AccountId, PayError>(PayError::AdminNotSet),
        },
{
    match p.admin {
        Some(a) => Ok(a),
        None => Err(PayError::AdminNotSet),
    }
}

/// The error with which `caller` is refused as administrator, if any.
pub open spec fn pay_admin_check(admin: Option<AccountId>, caller: AccountId) -> Option<PayError> {
    match admin {
        None => Some(PayError::AdminNotSet),
        Some(a) => if a == caller {
            None
        } else {
            Some(PayError::NotAdmin)
        },
    }
}

/// Checks that `caller` is the administrator (the host checks its signature).
pub fn check_admin(p: &VeriTixPay, caller: AccountId) -> (r: Result<(), PayError>)
    ensures
        match pay_admin_check(p@.admin, caller) {
            None => r is Ok,
            Some(e) => r == Err::<(), PayError>(e),
        },
{
    let a = get_admin(p)?;
    if a != caller {
        return Err(PayError::NotAdmin);
    }
    Ok(())
}

/// The error with which `caller` is refused as depositor or administrator, if any;
/// the administrator is only looked up for a caller who is not the depositor.
pub open spec fn party_check(admin: Option<AccountId>, depositor: AccountId, caller: AccountId, refused: PayError) -> Option<PayError> {
    if caller == depositor {
        None
    } else {
        match admin {
            None => Some(PayError::AdminNotSet),
            Some(a) => if a == caller {
                None
            } else {
                Some(refused)
            },
        }
    }
}

/// Checks that `caller` is `depositor` or the administrator.
pub fn check_party(p: &VeriTixPay, depositor: AccountId, caller: AccountId, refused: PayError) -> (r: Result<(), PayError>)
    ensures
        match party_check(p@.admin, depositor, caller, refused) {
            None => r is Ok,
            Some(e) => r == Err::<(), PayError>(e),
        },
{
    if caller == depositor {
        return Ok(());
    }
    let a = get_admin(p)?;
    if caller != a {
        return Err(refused);
    }
    Ok(())
}

} // verus!

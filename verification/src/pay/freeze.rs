//! Frozen accounts of the escrow contract: freezing twice, or unfreezing an
//! account that is not frozen, is refused.
use vstd::prelude::*;
use crate::pay::types::{AccountId, PayError};
use crate::pay::contract::{VeriTixPay, PayModel};

verus! {

broadcast use vstd::std_specs::hash::group_hash_axioms;

/// Freezes `account_id`; fails with `AlreadyFrozen`, changing nothing, when it
/// is frozen already.
pub fn freeze_account(p: &mut VeriTixPay, account_id: AccountId) -> (r: Result<(), PayError>)
    requires
        old(p).wf(),
    ensures
        final(p).wf(),
        old(p)@.frozen.contains(account_id) ==> r == Err::<(), PayError>(PayError::AlreadyFrozen) && final(p)@ == old(p)@,
        !old(p)@.frozen.contains(account_id) ==> r is Ok && final(p)@ == (PayModel { frozen: old(p)@.frozen.insert(account_id), ..old(p)@ }),
{
    if p.frozen.contains(&account_id) {
        return Err(PayError::AlreadyFrozen);
    }
    p.frozen.insert(account_id);
    Ok(())
}

/// Unfreezes `account_id`; fails with `NotFrozen`, changing nothing, when it
/// is not frozen.
pub fn unfreeze_account(p: &mut VeriTixPay, account_id: AccountId) -> (r: Result<(), PayError>)
    requires
        old(p).wf(),
    ensures
        final(p).wf(),
        !old(p)@.frozen.contains(account_id) ==> r == Err::<(), PayError>(PayError::NotFrozen) && final(p)@ == old(p)@,
        old(p)@.frozen.contains(account_id) ==> r is Ok && final(p)@ == (PayModel { frozen: old(p)@.frozen.remove(account_id), ..old(p)@ }),
{
    if !p.frozen.contains(&account_id) {
        return Err(PayError::NotFrozen);
    }
    p.frozen.remove(&account_id);
    Ok(())
}

} // verus!

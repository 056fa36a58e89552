//! Frozen accounts, which may not move or approve tokens.
use vstd::prelude::*;
use crate::token::types::{AccountId, TokenEvent};
use crate::token::contract::{VeritixToken, TokenModel};

verus! {

broadcast use vstd::std_specs::hash::group_hash_axioms;

/// Whether `addr` is frozen.
pub fn is_frozen(t: &VeritixToken, addr: &AccountId) -> (r: bool)
    ensures
        r == t@.is_frozen(*addr),
{
    t.frozen.contains(addr)
}

/// Freezes `target` on behalf of `admin`, whom the caller has checked, and
/// returns the event to publish.
pub fn freeze_account(t: &mut VeritixToken, admin: AccountId, target: AccountId) -> (ev: TokenEvent)
    requires
        old(t).wf(),
    ensures
        final(t).wf(),
        final(t)@ == (TokenModel { frozen: old(t)@.frozen.insert(target), ..old(t)@ }),
        ev == (TokenEvent::Frozen { target, admin }),
{
    t.frozen.insert(target);
    TokenEvent::Frozen { target, admin }
}

/// Unfreezes `target` on behalf of `admin`, whom the caller has checked, and
/// returns the event to publish. Unfreezing an account that is not frozen
/// changes nothing but still publishes the event.
pub fn unfreeze_account(t: &mut VeritixToken, admin: AccountId, target: AccountId) -> (ev: TokenEvent)
    requires
        old(t).wf(),
    ensures
        final(t).wf(),
        final(t)@ == (TokenModel { frozen: old(t)@.frozen.remove(target), ..old(t)@ }),
        ev == (TokenEvent::Unfrozen { target, admin }),
{
    t.frozen.remove(&target);
    TokenEvent::Unfrozen { target, admin }
}

} // verus!

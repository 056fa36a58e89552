//! The disputes that each claimant has opened.
use vstd::prelude::*;
use crate::pay::types::AccountId;
use crate::pay::contract::{VeriTixPay, PayModel, list_at};

verus! {

broadcast use vstd::std_specs::hash::group_hash_axioms;

/// Records that `claimant` opened dispute `dispute_id` over escrow
/// `escrow_id` (the host checks the claimant's signature): the dispute joins
/// the end of the claimant's history.
pub fn open_dispute(p: &mut VeriTixPay, claimant: AccountId, escrow_id: u32, dispute_id: u32)
    requires
        old(p).wf(),
    ensures
        final(p).wf(),
        final(p)@ == (PayModel {
            claimant_disputes: old(p)@.claimant_disputes.insert(claimant, list_at(old(p)@.claimant_disputes, claimant).push(dispute_id)),
            ..old(p)@
        }),
{
    let ghost before = p@;
    let mut list = match p.claimant_disputes.remove(&claimant) {
        Some(ids) => ids,
        None => Vec::new(),
    };
    list.push(dispute_id);
    p.claimant_disputes.insert(claimant, list);
    assert(p@.claimant_disputes =~= before.claimant_disputes.insert(claimant, list_at(before.claimant_disputes, claimant).push(dispute_id)));
}

/// The disputes that `claimant` opened, oldest first.
pub fn get_disputes_by_claimant(p: &VeriTixPay, claimant: AccountId) -> (r: Vec<u32>)
    ensures
        r@ == list_at(p@.claimant_disputes, claimant),
{
    match p.claimant_disputes.get(&claimant) {
        Some(ids) => {
            let r = ids.clone();
            assert(r@ =~= ids@);
            r
        },
        None => Vec::new(),
    }
}

} // verus!

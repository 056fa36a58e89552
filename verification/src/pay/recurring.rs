//! The history of executed recurring payments.
use vstd::prelude::*;
use crate::pay::types::{AccountId, RecurringPayment};
use crate::pay::contract::{VeriTixPay, PayModel};

verus! {

broadcast use vstd::std_specs::hash::group_hash_axioms;

/// Records that recurring payment `recurring_id` paid `amount` on ledger `now`
/// (the host checks the caller's signature).
pub fn execute_recurring(p: &mut VeriTixPay, caller: AccountId, recurring_id: u32, amount: i128, now: u32)
    requires
        old(p).wf(),
    ensures
        final(p).wf(),
        final(p)@ == (PayModel {
            recurring_history: old(p)@.recurring_history.insert(
                recurring_id,
                old(p)@.history(recurring_id).push(RecurringPayment { recurring_id, execution_ledger: now, amount }),
            ),
            ..old(p)@
        }),
{
    let ghost before = p@;
    let mut history = match p.recurring_history.remove(&recurring_id) {
        Some(h) => h,
        None => Vec::new(),
    };
    history.push(RecurringPayment { recurring_id, execution_ledger: now, amount });
    p.recurring_history.insert(recurring_id, history);
    assert(p@.recurring_history =~= before.recurring_history.insert(
        recurring_id,
        before.history(recurring_id).push(RecurringPayment { recurring_id, execution_ledger: now, amount }),
    ));
}

/// The executions of recurring payment `recurring_id`, oldest first.
pub fn get_recurring_history(p: &VeriTixPay, recurring_id: u32) -> (r: Vec<RecurringPayment>)
    ensures
        r@ == p@.history(recurring_id),
{
    match p.recurring_history.get(&recurring_id) {
        Some(h) => {
            let r = h.clone();
            assert(r@ =~= h@);
            r
        },
        None => Vec::new(),
    }
}

} // verus!

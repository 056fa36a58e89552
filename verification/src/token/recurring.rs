//! Recurring payments from a payer to a payee, once per interval of ledgers.
use vstd::prelude::*;
use crate::token::types::{AccountId, RecurringRecord, TokenError, TokenEvent};
use crate::token::contract::{VeritixToken, TokenModel};
use crate::token::balance::{moved, with_balances, read_balance, move_balance};
use crate::token::validation::require_positive_amount;

verus! {

impl TokenModel {
    /// The model with recurring payment `id` replaced by `rec`.
    pub open spec fn with_recurring(self, id: u32, rec: RecurringRecord) -> TokenModel {
        TokenModel { recurrings: self.recurrings.update(id - 1, rec), ..self }
    }
}

/// The first check that setting up a recurring payment fails, if any.
pub open spec fn setup_recurring_error(m: TokenModel, payer: AccountId, payee: AccountId, amount: i128, interval: u32) -> Option<TokenError> {
    if amount <= 0 {
        Some(TokenError::NonPositiveAmount)
    } else if interval == 0 {
        Some(TokenError::InvalidInterval)
    } else if payer == payee {
        Some(TokenError::SamePayerAndPayee)
    } else if m.recurrings.len() >= u32::MAX {
        Some(TokenError::Overflow)
    } else {
        None
    }
}

/// `payer` and `payee` agree that `amount` is paid every `interval` ledgers,
/// counted from ledger `now` (the host checks both signatures). Recurring
/// payments are numbered from 1 and have no limit on executions.
pub fn setup_recurring(t: &mut VeritixToken, payer: AccountId, payee: AccountId, amount: i128, interval: u32, now: u32) -> (r: Result<(u32, TokenEvent), TokenError>)
    requires
        old(t).wf(),
    ensures
        final(t).wf(),
        final(t)@.supply_gap() == old(t)@.supply_gap(),
        match setup_recurring_error(old(t)@, payer, payee, amount, interval) {
            Some(e) => r == Err::<(u32, TokenEvent), TokenError>(e) && final(t)@ == old(t)@,
            None => {
                let id = (old(t)@.recurrings.len() + 1) as u32;
                &&& r == Ok::<(u32, TokenEvent), TokenError>((id, TokenEvent::RecurringSetup { payer, payee, amount }))
                &&& final(t)@ == (TokenModel {
                    recurrings: old(t)@.recurrings.push(RecurringRecord {
                        id,
                        payer,
                        payee,
                        amount,
                        interval,
                        last_charged_ledger: now,
                        active: true,
                        max_executions: 0,
                        execution_count: 0,
                    }),
                    ..old(t)@
                })
            },
        },
{
    require_positive_amount(amount)?;
    if interval == 0 {
        return Err(TokenError::InvalidInterval);
    }
    if payer == payee {
        return Err(TokenError::SamePayerAndPayee);
    }
    if t.recurrings.len() >= 0xffff_ffffusize {
        return Err(TokenError::Overflow);
    }
    let id = (t.recurrings.len() + 1) as u32;
    t.recurrings.push(RecurringRecord {
        id,
        payer,
        payee,
        amount,
        interval,
        last_charged_ledger: now,
        active: true,
        max_executions: 0,
        execution_count: 0,
    });
    Ok((id, TokenEvent::RecurringSetup { payer, payee, amount }))
}

/// The first check that executing recurring payment `id` on ledger `now` fails, if any.
pub open spec fn execute_recurring_error(m: TokenModel, id: u32, now: u32) -> Option<TokenError> {
    if !m.has_recurring(id) {
        Some(TokenError::RecurringNotFound)
    } else {
        let rec = m.recurring(id);
        if !rec.active {
            Some(TokenError::RecurringInactive)
        } else if rec.last_charged_ledger + rec.interval > u32::MAX {
            Some(TokenError::Overflow)
        } else if now < rec.last_charged_ledger + rec.interval {
            Some(TokenError::IntervalNotElapsed)
        } else if m.balance(rec.payer) < rec.amount {
            Some(TokenError::PayerUnderfunded(id))
        } else if rec.execution_count + 1 > u32::MAX {
            Some(TokenError::Overflow)
        } else {
            None
        }
    }
}

/// The record after one more execution: the schedule moves on by exactly one
/// interval (a late execution does not shift later ones), and a payment that
/// reaches its limit of executions becomes inactive.
pub open spec fn after_execution(rec: RecurringRecord) -> RecurringRecord {
    let count = (rec.execution_count + 1) as u32;
    RecurringRecord {
        last_charged_ledger: (rec.last_charged_ledger + rec.interval) as u32,
        execution_count: count,
        active: !(rec.max_executions > 0 && count >= rec.max_executions),
        ..rec
    }
}

/// The events of one execution: completion, when the limit is reached, then the payment.
pub open spec fn execution_events(id: u32, rec: RecurringRecord) -> Seq<TokenEvent> {
    let next = after_execution(rec);
    if !next.active {
        seq![
            TokenEvent::RecurringCompleted { recurring_id: id, execution_count: next.execution_count },
            TokenEvent::RecurringExecuted { recurring_id: id, amount: rec.amount },
        ]
    } else {
        seq![TokenEvent::RecurringExecuted { recurring_id: id, amount: rec.amount }]
    }
}

/// Anyone triggers the payment once its interval has elapsed: the payer pays
/// the payee and the schedule moves on by one interval.
pub fn execute_recurring(t: &mut VeritixToken, recurring_id: u32, now: u32) -> (r: Result<Vec<TokenEvent>, TokenError>)
    requires
        old(t).wf(),
    ensures
        final(t).wf(),
        final(t)@.supply_gap() == old(t)@.supply_gap(),
        match execute_recurring_error(old(t)@, recurring_id, now) {
            Some(e) => r == Err::<Vec<TokenEvent>, TokenError>(e) && final(t)@ == old(t)@,
            None => {
                let rec = old(t)@.recurring(recurring_id);
                &&& r is Ok
                &&& r->Ok_0@ == execution_events(recurring_id, rec)
                &&& final(t)@ == with_balances(old(t)@, moved(old(t)@.balances, rec.payer, rec.payee, rec.amount as int))
                    .with_recurring(recurring_id, after_execution(rec))
            },
        },
{
    if recurring_id == 0 || recurring_id as usize > t.recurrings.len() {
        return Err(TokenError::RecurringNotFound);
    }
    let idx = recurring_id as usize - 1;
    let rec = t.recurrings[idx];
    if !rec.active {
        return Err(TokenError::RecurringInactive);
    }
    if rec.last_charged_ledger > u32::MAX - rec.interval {
        return Err(TokenError::Overflow);
    }
    let due = rec.last_charged_ledger + rec.interval;
    if now < due {
        return Err(TokenError::IntervalNotElapsed);
    }
    if read_balance(t, rec.payer) < rec.amount {
        return Err(TokenError::PayerUnderfunded(recurring_id));
    }
    if rec.execution_count == u32::MAX {
        return Err(TokenError::Overflow);
    }
    move_balance(t, rec.payer, rec.payee, rec.amount);
    let count = rec.execution_count + 1;
    let finished = rec.max_executions > 0 && count >= rec.max_executions;
    t.recurrings.set(idx, RecurringRecord { last_charged_ledger: due, execution_count: count, active: !finished, ..rec });
    let mut events: Vec<TokenEvent> = Vec::new();
    if finished {
        events.push(TokenEvent::RecurringCompleted { recurring_id, execution_count: count });
    }
    events.push(TokenEvent::RecurringExecuted { recurring_id, amount: rec.amount });
    proof {
        assert(events@ =~= execution_events(recurring_id, rec));
    }
    Ok(events)
}

/// The first check that cancelling recurring payment `id` fails, if any.
pub open spec fn cancel_recurring_error(m: TokenModel, caller: AccountId, id: u32) -> Option<TokenError> {
    if !m.has_recurring(id) {
        Some(TokenError::RecurringNotFound)
    } else if m.recurring(id).payer != caller {
        Some(TokenError::Unauthorized)
    } else {
        None
    }
}

/// The payer stops the recurring payment.
pub fn cancel_recurring(t: &mut VeritixToken, caller: AccountId, recurring_id: u32) -> (r: Result<TokenEvent, TokenError>)
    requires
        old(t).wf(),
    ensures
        final(t).wf(),
        match cancel_recurring_error(old(t)@, caller, recurring_id) {
            Some(e) => r == Err::<TokenEvent, TokenError>(e) && final(t)@ == old(t)@,
            None => r == Ok::<TokenEvent, TokenError>(TokenEvent::RecurringCancelled { recurring_id, caller })
                && final(t)@ == old(t)@.with_recurring(recurring_id, RecurringRecord { active: false, ..old(t)@.recurring(recurring_id) }),
        },
{
    if recurring_id == 0 || recurring_id as usize > t.recurrings.len() {
        return Err(TokenError::RecurringNotFound);
    }
    let idx = recurring_id as usize - 1;
    let rec = t.recurrings[idx];
    if rec.payer != caller {
        return Err(TokenError::Unauthorized);
    }
    t.recurrings.set(idx, RecurringRecord { active: false, ..rec });
    Ok(TokenEvent::RecurringCancelled { recurring_id, caller })
}

/// Recurring payment `recurring_id`; fails with `RecurringNotFound` when there is none.
pub fn get_recurring(t: &VeritixToken, recurring_id: u32) -> (r: Result<RecurringRecord, TokenError>)
    ensures
        t@.has_recurring(recurring_id) ==> r == Ok::<RecurringRecord, TokenError>(t@.recurring(recurring_id)),
        !t@.has_recurring(recurring_id) ==> r == Err::<RecurringRecord, TokenError>(TokenError::RecurringNotFound),
{
    if recurring_id == 0 || recurring_id as usize > t.recurrings.len() {
        return Err(TokenError::RecurringNotFound);
    }
    Ok(t.recurrings[recurring_id as usize - 1])
}

} // verus!

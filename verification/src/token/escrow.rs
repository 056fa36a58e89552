//! Escrows: a depositor's payment held by the contract until the beneficiary
//! takes it or it is refunded.
use vstd::prelude::*;
use crate::sums::total_of;
use crate::token::types::{AccountId, EscrowRecord, TokenError, TokenEvent};
use crate::token::contract::{VeritixToken, TokenModel};
use crate::token::balance::{moved, with_balances, read_balance, move_balance};
use crate::token::admin::{admin_check, check_admin};
use crate::token::validation::require_positive_amount;

verus! {

impl TokenModel {
    /// The model with escrow `id` replaced by `rec`.
    pub open spec fn with_escrow(self, id: u32, rec: EscrowRecord) -> TokenModel {
        TokenModel { escrows: self.escrows.update(id - 1, rec), ..self }
    }

    /// `amount` moves from the contract's account to `to`.
    pub open spec fn pay_out(self, to: AccountId, amount: int) -> TokenModel {
        with_balances(self, moved(self.balances, self.contract, to, amount))
    }
}

/// The escrow is released or refunded.
pub open spec fn is_settled(rec: EscrowRecord) -> bool {
    rec.released || rec.refunded
}

/// The first check that creating an escrow fails, if any.
pub open spec fn create_escrow_error(
    m: TokenModel,
    depositor: AccountId,
    beneficiary: AccountId,
    amount: i128,
    expiry_ledger: u32,
    now: u32,
) -> Option<TokenError> {
    if amount <= 0 {
        Some(TokenError::NonPositiveAmount)
    } else if depositor == beneficiary {
        Some(TokenError::EscrowSameParties)
    } else if expiry_ledger < now {
        Some(TokenError::EscrowExpiryInPast)
    } else if m.balance(depositor) < amount {
        Some(TokenError::InsufficientBalance)
    } else if m.escrows.len() >= u32::MAX {
        Some(TokenError::Overflow)
    } else {
        None
    }
}

/// The record of a new escrow numbered `id`.
pub open spec fn new_escrow(id: u32, depositor: AccountId, beneficiary: AccountId, amount: i128, expiry_ledger: u32) -> EscrowRecord {
    EscrowRecord { id, depositor, beneficiary, amount, expiry_ledger, released: false, refunded: false }
}

/// Locks `amount` of the depositor's tokens in a new escrow for `beneficiary`
/// (the host checks the depositor's signature). The escrow is numbered one
/// past the last, and may be refunded by anyone once `expiry_ledger` has passed.
pub fn create_escrow(
    t: &mut VeritixToken,
    depositor: AccountId,
    beneficiary: AccountId,
    amount: i128,
    expiry_ledger: u32,
    now: u32,
) -> (r: Result<(u32, TokenEvent), TokenError>)
    requires
        old(t).wf(),
    ensures
        final(t).wf(),
        final(t)@.supply_gap() == old(t)@.supply_gap(),
        match create_escrow_error(old(t)@, depositor, beneficiary, amount, expiry_ledger, now) {
            Some(e) => r == Err::<(u32, TokenEvent), TokenError>(e) && final(t)@ == old(t)@,
            None => {
                let id = (old(t)@.escrows.len() + 1) as u32;
                &&& r == Ok::<(u32, TokenEvent), TokenError>((id, TokenEvent::EscrowCreated { escrow_id: id, depositor, beneficiary, amount }))
                &&& final(t)@ == (TokenModel {
                    escrows: old(t)@.escrows.push(new_escrow(id, depositor, beneficiary, amount, expiry_ledger)),
                    ..with_balances(old(t)@, moved(old(t)@.balances, depositor, old(t)@.contract, amount as int))
                })
            },
        },
{
    require_positive_amount(amount)?;
    if depositor == beneficiary {
        return Err(TokenError::EscrowSameParties);
    }
    if expiry_ledger < now {
        return Err(TokenError::EscrowExpiryInPast);
    }
    if read_balance(t, depositor) < amount {
        return Err(TokenError::InsufficientBalance);
    }
    if t.escrows.len() >= 0xffff_ffffusize {
        return Err(TokenError::Overflow);
    }
    let id = (t.escrows.len() + 1) as u32;
    let contract = t.contract;
    move_balance(t, depositor, contract, amount);
    t.escrows.push(EscrowRecord { id, depositor, beneficiary, amount, expiry_ledger, released: false, refunded: false });
    Ok((id, TokenEvent::EscrowCreated { escrow_id: id, depositor, beneficiary, amount }))
}

/// Escrow `escrow_id`; fails with `EscrowNotFound` when there is none.
pub fn get_escrow(t: &VeritixToken, escrow_id: u32) -> (r: Result<EscrowRecord, TokenError>)
    ensures
        t@.has_escrow(escrow_id) ==> r == Ok::<EscrowRecord, TokenError>(t@.escrow(escrow_id)),
        !t@.has_escrow(escrow_id) ==> r == Err::<EscrowRecord, TokenError>(TokenError::EscrowNotFound),
{
    if escrow_id == 0 || escrow_id as usize > t.escrows.len() {
        return Err(TokenError::EscrowNotFound);
    }
    Ok(t.escrows[escrow_id as usize - 1])
}

/// Escrow `escrow_id`, or the message of the failure.
pub fn try_get_escrow(t: &VeritixToken, escrow_id: u32) -> (r: Result<EscrowRecord, &'static str>)
    ensures
        t@.has_escrow(escrow_id) ==> r == Ok::<EscrowRecord, &'static str>(t@.escrow(escrow_id)),
        !t@.has_escrow(escrow_id) ==> r == Err::<EscrowRecord, &'static str>(TokenError::EscrowNotFound.spec_message()),
{
    match get_escrow(t, escrow_id) {
        Ok(rec) => Ok(rec),
        Err(e) => Err(e.message()),
    }
}

/// What a release of escrow `escrow_id` pays: `amount`, or all that remains.
pub open spec fn release_amount(rec: EscrowRecord, amount: Option<i128>) -> int {
    match amount {
        Some(a) => a as int,
        None => rec.amount as int,
    }
}

/// The first check that a release fails, if any.
pub open spec fn release_error(m: TokenModel, caller: AccountId, escrow_id: u32, amount: Option<i128>) -> Option<TokenError> {
    if !m.has_escrow(escrow_id) {
        Some(TokenError::EscrowNotFound)
    } else {
        let rec = m.escrow(escrow_id);
        if is_settled(rec) {
            Some(TokenError::EscrowAlreadySettled)
        } else if caller != rec.beneficiary {
            Some(TokenError::NotBeneficiary)
        } else if m.is_frozen(rec.beneficiary) {
            Some(TokenError::AccountFrozen)
        } else if amount is Some && amount->Some_0 <= 0 {
            Some(TokenError::NonPositiveAmount)
        } else if release_amount(rec, amount) > rec.amount {
            Some(TokenError::ReleaseExceedsRemaining)
        } else if m.balance(m.contract) < release_amount(rec, amount) {
            Some(TokenError::InsufficientBalance)
        } else {
            None
        }
    }
}

/// Escrow `rec` after `paid` of it has been released.
pub open spec fn after_release(rec: EscrowRecord, paid: int) -> EscrowRecord {
    EscrowRecord { amount: (rec.amount - paid) as i128, released: rec.amount - paid == 0, ..rec }
}

/// The beneficiary takes `amount` of the escrow, or all of it when `amount`
/// is `None`; once nothing remains the escrow counts as released.
pub fn release_escrow(t: &mut VeritixToken, caller: AccountId, escrow_id: u32, amount: Option<i128>) -> (r: Result<TokenEvent, TokenError>)
    requires
        old(t).wf(),
    ensures
        final(t).wf(),
        final(t)@.supply_gap() == old(t)@.supply_gap(),
        match release_error(old(t)@, caller, escrow_id, amount) {
            Some(e) => r == Err::<TokenEvent, TokenError>(e) && final(t)@ == old(t)@,
            None => {
                let rec = old(t)@.escrow(escrow_id);
                let paid = release_amount(rec, amount);
                &&& r == Ok::<TokenEvent, TokenError>(TokenEvent::EscrowReleased { escrow_id, to: rec.beneficiary, amount: paid as i128 })
                &&& final(t)@ == old(t)@.pay_out(rec.beneficiary, paid).with_escrow(escrow_id, after_release(rec, paid))
            },
        },
{
    let rec = get_escrow(t, escrow_id)?;
    if rec.released || rec.refunded {
        return Err(TokenError::EscrowAlreadySettled);
    }
    if caller != rec.beneficiary {
        return Err(TokenError::NotBeneficiary);
    }
    crate::token::validation::require_not_frozen_account(t, &rec.beneficiary)?;
    let paid = match amount {
        Some(a) => {
            if a <= 0 {
                return Err(TokenError::NonPositiveAmount);
            }
            a
        },
        None => rec.amount,
    };
    if paid > rec.amount {
        return Err(TokenError::ReleaseExceedsRemaining);
    }
    let contract = t.contract;
    if read_balance(t, contract) < paid {
        return Err(TokenError::InsufficientBalance);
    }
    move_balance(t, contract, rec.beneficiary, paid);
    let remaining = rec.amount - paid;
    let updated = EscrowRecord { amount: remaining, released: remaining == 0, ..rec };
    t.escrows.set(escrow_id as usize - 1, updated);
    Ok(TokenEvent::EscrowReleased { escrow_id, to: rec.beneficiary, amount: paid })
}

/// The first check that a refund fails, if any.
pub open spec fn refund_error(m: TokenModel, caller: AccountId, escrow_id: u32, now: u32) -> Option<TokenError> {
    if !m.has_escrow(escrow_id) {
        Some(TokenError::EscrowNotFound)
    } else {
        let rec = m.escrow(escrow_id);
        if is_settled(rec) {
            Some(TokenError::EscrowAlreadySettled)
        } else if caller != rec.depositor && now <= rec.expiry_ledger {
            Some(TokenError::NotDepositor)
        } else if m.balance(m.contract) < rec.amount {
            Some(TokenError::InsufficientBalance)
        } else {
            None
        }
    }
}

/// Returns what remains of the escrow to the depositor. The depositor may do so
/// at any time; anyone may once the escrow's expiry ledger has passed.
pub fn refund_escrow(t: &mut VeritixToken, caller: AccountId, escrow_id: u32, now: u32) -> (r: Result<TokenEvent, TokenError>)
    requires
        old(t).wf(),
    ensures
        final(t).wf(),
        final(t)@.supply_gap() == old(t)@.supply_gap(),
        match refund_error(old(t)@, caller, escrow_id, now) {
            Some(e) => r == Err::<TokenEvent, TokenError>(e) && final(t)@ == old(t)@,
            None => {
                let rec = old(t)@.escrow(escrow_id);
                &&& r == Ok::<TokenEvent, TokenError>(TokenEvent::EscrowRefunded { escrow_id, to: rec.depositor, amount: rec.amount })
                &&& final(t)@ == old(t)@.pay_out(rec.depositor, rec.amount as int).with_escrow(escrow_id, EscrowRecord { refunded: true, ..rec })
            },
        },
{
    let rec = get_escrow(t, escrow_id)?;
    if rec.released || rec.refunded {
        return Err(TokenError::EscrowAlreadySettled);
    }
    if caller != rec.depositor && now <= rec.expiry_ledger {
        return Err(TokenError::NotDepositor);
    }
    let contract = t.contract;
    if read_balance(t, contract) < rec.amount {
        return Err(TokenError::InsufficientBalance);
    }
    move_balance(t, contract, rec.depositor, rec.amount);
    t.escrows.set(escrow_id as usize - 1, EscrowRecord { refunded: true, ..rec });
    Ok(TokenEvent::EscrowRefunded { escrow_id, to: rec.depositor, amount: rec.amount })
}

/// The first check that an administrator's settlement fails, if any.
pub open spec fn admin_settle_error(m: TokenModel, admin: AccountId, escrow_id: u32) -> Option<TokenError> {
    if admin_check(m, admin) is Some {
        admin_check(m, admin)
    } else if !m.has_escrow(escrow_id) {
        Some(TokenError::EscrowNotFound)
    } else if is_settled(m.escrow(escrow_id)) {
        Some(TokenError::EscrowAlreadySettled)
    } else if m.balance(m.contract) < m.escrow(escrow_id).amount {
        Some(TokenError::InsufficientBalance)
    } else {
        None
    }
}

/// The administrator pays what remains of the escrow to `to`, for instance when
/// the beneficiary is frozen, and marks the escrow released.
pub fn admin_settle_escrow(t: &mut VeritixToken, admin: AccountId, escrow_id: u32, to: AccountId) -> (r: Result<TokenEvent, TokenError>)
    requires
        old(t).wf(),
    ensures
        final(t).wf(),
        final(t)@.supply_gap() == old(t)@.supply_gap(),
        match admin_settle_error(old(t)@, admin, escrow_id) {
            Some(e) => r == Err::<TokenEvent, TokenError>(e) && final(t)@ == old(t)@,
            None => {
                let rec = old(t)@.escrow(escrow_id);
                &&& r == Ok::<TokenEvent, TokenError>(TokenEvent::EscrowReleased { escrow_id, to, amount: rec.amount })
                &&& final(t)@ == old(t)@.pay_out(to, rec.amount as int).with_escrow(escrow_id, EscrowRecord { released: true, ..rec })
            },
        },
{
    check_admin(t, admin)?;
    let rec = get_escrow(t, escrow_id)?;
    if rec.released || rec.refunded {
        return Err(TokenError::EscrowAlreadySettled);
    }
    let contract = t.contract;
    if read_balance(t, contract) < rec.amount {
        return Err(TokenError::InsufficientBalance);
    }
    move_balance(t, contract, to, rec.amount);
    t.escrows.set(escrow_id as usize - 1, EscrowRecord { released: true, ..rec });
    Ok(TokenEvent::EscrowReleased { escrow_id, to, amount: rec.amount })
}

/// `release_escrow`, with a failure given as its message.
pub fn try_release_escrow(t: &mut VeritixToken, caller: AccountId, escrow_id: u32, amount: Option<i128>) -> (r: Result<TokenEvent, &'static str>)
    requires
        old(t).wf(),
    ensures
        final(t).wf(),
        final(t)@.supply_gap() == old(t)@.supply_gap(),
        match release_error(old(t)@, caller, escrow_id, amount) {
            Some(e) => r == Err::<TokenEvent, &'static str>(e.spec_message()) && final(t)@ == old(t)@,
            None => {
                let rec = old(t)@.escrow(escrow_id);
                let paid = release_amount(rec, amount);
                &&& r == Ok::<TokenEvent, &'static str>(TokenEvent::EscrowReleased { escrow_id, to: rec.beneficiary, amount: paid as i128 })
                &&& final(t)@ == old(t)@.pay_out(rec.beneficiary, paid).with_escrow(escrow_id, after_release(rec, paid))
            },
        },
{
    match release_escrow(t, caller, escrow_id, amount) {
        Ok(ev) => Ok(ev),
        Err(e) => Err(e.message()),
    }
}

/// `refund_escrow`, with a failure given as its message.
pub fn try_refund_escrow(t: &mut VeritixToken, caller: AccountId, escrow_id: u32, now: u32) -> (r: Result<TokenEvent, &'static str>)
    requires
        old(t).wf(),
    ensures
        final(t).wf(),
        final(t)@.supply_gap() == old(t)@.supply_gap(),
        match refund_error(old(t)@, caller, escrow_id, now) {
            Some(e) => r == Err::<TokenEvent, &'static str>(e.spec_message()) && final(t)@ == old(t)@,
            None => {
                let rec = old(t)@.escrow(escrow_id);
                &&& r == Ok::<TokenEvent, &'static str>(TokenEvent::EscrowRefunded { escrow_id, to: rec.depositor, amount: rec.amount })
                &&& final(t)@ == old(t)@.pay_out(rec.depositor, rec.amount as int).with_escrow(escrow_id, EscrowRecord { refunded: true, ..rec })
            },
        },
{
    match refund_escrow(t, caller, escrow_id, now) {
        Ok(ev) => Ok(ev),
        Err(e) => Err(e.message()),
    }
}

} // verus!

//! Escrows of one token for several recipients at once.
use vstd::prelude::*;
use crate::pay::types::{AccountId, MultiEscrowRecord, MultiEscrowView, PayError, TokenTransfer};
use crate::pay::contract::{VeriTixPay, PayModel};
use crate::pay::admin::{party_check, check_party};

verus! {

/// The sum of the first `k` shares.
pub open spec fn shares_total(rs: Seq<(AccountId, i128)>, k: int) -> int
    decreases k,
{
    if k <= 0 {
        0
    } else {
        shares_total(rs, k - 1) + rs[k - 1].1
    }
}

/// The first check that creating a multi-recipient escrow fails, if any.
pub open spec fn create_multi_error(m: PayModel, rs: Seq<(AccountId, i128)>, expiry_ledger: u32, now: u32) -> Option<PayError> {
    if rs.len() == 0 {
        Some(PayError::NoRecipients)
    } else if exists|j: int| 0 <= j < rs.len() && (#[trigger] rs[j]).1 <= 0 {
        Some(PayError::ZeroShare)
    } else if shares_total(rs, rs.len() as int) > i128::MAX {
        Some(PayError::Overflow)
    } else if expiry_ledger <= now {
        Some(PayError::ExpiryNotInFuture)
    } else if m.multi_escrows.len() >= u32::MAX {
        Some(PayError::Overflow)
    } else {
        None
    }
}

/// The record of a new multi-recipient escrow numbered `id`.
pub open spec fn new_multi(id: u32, depositor: AccountId, rs: Seq<(AccountId, i128)>, token: AccountId, expiry_ledger: u32) -> MultiEscrowView {
    MultiEscrowView {
        id,
        depositor,
        recipients: rs,
        token,
        total_amount: shares_total(rs, rs.len() as int) as i128,
        expiry_ledger,
        released: false,
        refunded: false,
    }
}

/// The depositor locks the sum of the recipients' shares of `token` in a new
/// multi-recipient escrow (the host checks the depositor's signature and makes
/// the returned transfer into the contract). Numbered from 0.
pub fn create_multi_escrow(
    p: &mut VeriTixPay,
    depositor: AccountId,
    recipients: Vec<(AccountId, i128)>,
    token: AccountId,
    expiry_ledger: u32,
    now: u32,
) -> (r: Result<(u32, TokenTransfer), PayError>)
    requires
        old(p).wf(),
    ensures
        final(p).wf(),
        match create_multi_error(old(p)@, recipients@, expiry_ledger, now) {
            Some(e) => r == Err::<(u32, TokenTransfer), PayError>(e) && final(p)@ == old(p)@,
            None => {
                let id = old(p)@.multi_escrows.len() as u32;
                let total = shares_total(recipients@, recipients@.len() as int) as i128;
                &&& r == Ok::<(u32, TokenTransfer), PayError>((id, TokenTransfer { token, from: depositor, to: old(p)@.contract, amount: total }))
                &&& final(p)@ == (PayModel {
                    multi_escrows: old(p)@.multi_escrows.push(new_multi(id, depositor, recipients@, token, expiry_ledger)),
                    ..old(p)@
                })
            },
        },
{
    let n = recipients.len();
    if n == 0 {
        return Err(PayError::NoRecipients);
    }
    let mut i: usize = 0;
    while i < n
        invariant
            n == recipients@.len(),
            0 <= i <= n,
            p.wf(),
            p@ == old(p)@,
            forall|j: int| 0 <= j < i ==> (#[trigger] recipients@[j]).1 > 0,
        decreases n - i,
    {
        if recipients[i].1 <= 0 {
            assert(recipients@[i as int].1 <= 0);
            return Err(PayError::ZeroShare);
        }
        i = i + 1;
    }
    let mut total: i128 = 0;
    let mut k: usize = 0;
    while k < n
        invariant
            n == recipients@.len(),
            0 <= k <= n,
            p.wf(),
            p@ == old(p)@,
            forall|j: int| 0 <= j < n ==> (#[trigger] recipients@[j]).1 > 0,
            total == shares_total(recipients@, k as int),
            total >= 0,
        decreases n - k,
    {
        let share = recipients[k].1;
        if total > i128::MAX - share {
            proof {
                lemma_shares_total_monotone(recipients@, k as int + 1, n as int);
            }
            return Err(PayError::Overflow);
        }
        total = total + share;
        k = k + 1;
    }
    if expiry_ledger <= now {
        return Err(PayError::ExpiryNotInFuture);
    }
    if p.multi_escrows.len() >= 0xffff_ffffusize {
        return Err(PayError::Overflow);
    }
    let id = p.multi_escrows.len() as u32;
    let ghost before = *p;
    let record = MultiEscrowRecord {
        id,
        depositor,
        recipients,
        token,
        total_amount: total,
        expiry_ledger,
        released: false,
        refunded: false,
    };
    p.multi_escrows.push(record);
    proof {
        assert(p@.multi_escrows =~= before@.multi_escrows.push(record@));
    }
    Ok((id, TokenTransfer { token, from: depositor, to: p.contract, amount: total }))
}

/// Shares that are all positive add up to more with each one.
proof fn lemma_shares_total_monotone(rs: Seq<(AccountId, i128)>, a: int, b: int)
    requires
        0 <= a <= b <= rs.len(),
        forall|j: int| 0 <= j < rs.len() ==> (#[trigger] rs[j]).1 > 0,
    ensures
        0 <= shares_total(rs, a) <= shares_total(rs, b),
    decreases b,
{
    if a < b {
        lemma_shares_total_monotone(rs, a, b - 1);
    } else if a > 0 {
        lemma_shares_total_monotone(rs, a - 1, a - 1);
    }
}

/// The first check that settling multi-recipient escrow `id` fails, if any.
pub open spec fn settle_multi_error(m: PayModel, caller: AccountId, id: u32, refused: PayError) -> Option<PayError> {
    if !m.has_multi_escrow(id) {
        Some(PayError::MultiEscrowNotFound)
    } else {
        let rec = m.multi_escrows[id as int];
        if rec.released {
            Some(PayError::AlreadyReleased)
        } else if rec.refunded {
            Some(PayError::AlreadyRefunded)
        } else {
            party_check(m.admin, rec.depositor, caller, refused)
        }
    }
}

/// The first check that releasing multi-recipient escrow `id` on ledger `now` fails, if any.
pub open spec fn release_multi_error(m: PayModel, caller: AccountId, id: u32, now: u32) -> Option<PayError> {
    if settle_multi_error(m, caller, id, PayError::NotAuthorisedToRelease) is Some {
        settle_multi_error(m, caller, id, PayError::NotAuthorisedToRelease)
    } else if now > m.multi_escrows[id as int].expiry_ledger {
        Some(PayError::EscrowExpired)
    } else {
        None
    }
}

/// The transfers that pay each recipient its share of `rec` out of `contract`.
pub open spec fn payouts(rec: MultiEscrowView, contract: AccountId) -> Seq<TokenTransfer> {
    rec.recipients.map_values(|r: (AccountId, i128)| TokenTransfer { token: rec.token, from: contract, to: r.0, amount: r.1 })
}

/// The model with multi-recipient escrow `id` replaced by `rec`.
pub open spec fn with_multi(m: PayModel, id: u32, rec: MultiEscrowView) -> PayModel {
    PayModel { multi_escrows: m.multi_escrows.update(id as int, rec), ..m }
}

/// Marks multi-recipient escrow `idx` settled, released or refunded.
fn mark_multi(p: &mut VeriTixPay, idx: usize, released: bool)
    requires
        old(p).wf(),
        idx < old(p)@.multi_escrows.len(),
    ensures
        final(p).wf(),
        final(p)@ == with_multi(old(p)@, idx as u32, if released {
            MultiEscrowView { released: true, ..old(p)@.multi_escrows[idx as int] }
        } else {
            MultiEscrowView { refunded: true, ..old(p)@.multi_escrows[idx as int] }
        }),
{
    let ghost before = *p;
    let mut rec = p.multi_escrows.remove(idx);
    if released {
        rec.released = true;
    } else {
        rec.refunded = true;
    }
    p.multi_escrows.insert(idx, rec);
    proof {
        assert(p.multi_escrows@ =~= before.multi_escrows@.update(idx as int, rec));
        assert(p@.multi_escrows =~= before@.multi_escrows.update(idx as int, rec@));
    }
}

/// The depositor or the administrator pays every recipient its share before
/// the escrow expires (the host checks the caller's signature and makes the
/// returned transfers, in order).
pub fn release_multi_escrow(p: &mut VeriTixPay, caller: AccountId, multi_escrow_id: u32, now: u32) -> (r: Result<Vec<TokenTransfer>, PayError>)
    requires
        old(p).wf(),
    ensures
        final(p).wf(),
        match release_multi_error(old(p)@, caller, multi_escrow_id, now) {
            Some(e) => r == Err::<Vec<TokenTransfer>, PayError>(e) && final(p)@ == old(p)@,
            None => {
                let rec = old(p)@.multi_escrows[multi_escrow_id as int];
                &&& r is Ok
                &&& r->Ok_0@ == payouts(rec, old(p)@.contract)
                &&& final(p)@ == with_multi(old(p)@, multi_escrow_id, MultiEscrowView { released: true, ..rec })
            },
        },
{
    if multi_escrow_id as usize >= p.multi_escrows.len() {
        return Err(PayError::MultiEscrowNotFound);
    }
    let idx = multi_escrow_id as usize;
    if p.multi_escrows[idx].released {
        return Err(PayError::AlreadyReleased);
    }
    if p.multi_escrows[idx].refunded {
        return Err(PayError::AlreadyRefunded);
    }
    let depositor = p.multi_escrows[idx].depositor;
    check_party(p, depositor, caller, PayError::NotAuthorisedToRelease)?;
    if now > p.multi_escrows[idx].expiry_ledger {
        return Err(PayError::EscrowExpired);
    }
    let ghost rec = p@.multi_escrows[idx as int];
    let token = p.multi_escrows[idx].token;
    let contract = p.contract;
    let mut transfers: Vec<TokenTransfer> = Vec::new();
    let n = p.multi_escrows[idx].recipients.len();
    let mut i: usize = 0;
    while i < n
        invariant
            idx < p@.multi_escrows.len(),
            rec == p@.multi_escrows[idx as int],
            n == rec.recipients.len(),
            token == rec.token,
            0 <= i <= n,
            transfers@ == payouts(rec, contract).take(i as int),
        decreases n - i,
    {
        let (to, amount) = p.multi_escrows[idx].recipients[i];
        transfers.push(TokenTransfer { token, from: contract, to, amount });
        proof {
            assert(transfers@ =~= payouts(rec, contract).take(i as int + 1));
        }
        i = i + 1;
    }
    proof {
        assert(transfers@ =~= payouts(rec, contract));
    }
    mark_multi(p, idx, true);
    Ok(transfers)
}

/// The depositor or the administrator returns the whole escrow to the
/// depositor (the host checks the caller's signature and makes the returned
/// transfer).
pub fn refund_multi_escrow(p: &mut VeriTixPay, caller: AccountId, multi_escrow_id: u32) -> (r: Result<TokenTransfer, PayError>)
    requires
        old(p).wf(),
    ensures
        final(p).wf(),
        match settle_multi_error(old(p)@, caller, multi_escrow_id, PayError::NotAuthorisedToRefund) {
            Some(e) => r == Err::<TokenTransfer, PayError>(e) && final(p)@ == old(p)@,
            None => {
                let rec = old(p)@.multi_escrows[multi_escrow_id as int];
                &&& r == Ok::<TokenTransfer, PayError>(TokenTransfer { token: rec.token, from: old(p)@.contract, to: rec.depositor, amount: rec.total_amount })
                &&& final(p)@ == with_multi(old(p)@, multi_escrow_id, MultiEscrowView { refunded: true, ..rec })
            },
        },
{
    if multi_escrow_id as usize >= p.multi_escrows.len() {
        return Err(PayError::MultiEscrowNotFound);
    }
    let idx = multi_escrow_id as usize;
    if p.multi_escrows[idx].released {
        return Err(PayError::AlreadyReleased);
    }
    if p.multi_escrows[idx].refunded {
        return Err(PayError::AlreadyRefunded);
    }
    let depositor = p.multi_escrows[idx].depositor;
    check_party(p, depositor, caller, PayError::NotAuthorisedToRefund)?;
    let transfer = TokenTransfer {
        token: p.multi_escrows[idx].token,
        from: p.contract,
        to: depositor,
        amount: p.multi_escrows[idx].total_amount,
    };
    mark_multi(p, idx, false);
    Ok(transfer)
}

} // verus!

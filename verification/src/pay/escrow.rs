//! Escrows of any token: the depositor's payment is moved into the contract
//! and later released to the beneficiary or refunded.
use vstd::prelude::*;
use std::collections::HashMap;
use crate::pay::types::{AccountId, EscrowRecord, PayError, TokenTransfer, MAX_ESCROW_AMOUNT};
use crate::pay::contract::{VeriTixPay, PayModel, list_at};
use crate::pay::admin::{party_check, check_party};

verus! {

broadcast use vstd::std_specs::hash::group_hash_axioms;

/// The list of escrow numbers stored under `key`, or the empty list.
fn read_escrow_ids(index: &HashMap<AccountId, Vec<u32>>, key: AccountId) -> (r: Vec<u32>)
    ensures
        r@ == list_at(index@.map_values(|v: Vec<u32>| v@), key),
{
    match index.get(&key) {
        Some(ids) => {
            let r = ids.clone();
            assert(r@ =~= ids@);
            r
        },
        None => Vec::new(),
    }
}

/// Appends `id` to the list stored under `key`.
fn append_escrow_id(index: &mut HashMap<AccountId, Vec<u32>>, key: AccountId, id: u32)
    ensures
        final(index)@.map_values(|v: Vec<u32>| v@) == old(index)@.map_values(|v: Vec<u32>| v@).insert(
            key,
            list_at(old(index)@.map_values(|v: Vec<u32>| v@), key).push(id),
        ),
{
    let ghost before = index@.map_values(|v: Vec<u32>| v@);
    let mut list = match index.remove(&key) {
        Some(ids) => ids,
        None => Vec::new(),
    };
    list.push(id);
    index.insert(key, list);
    assert(index@.map_values(|v: Vec<u32>| v@) =~= before.insert(key, list_at(before, key).push(id)));
}

/// How many ledgers have passed since `rec` was created, as of ledger `now`
/// (none when `now` comes before its creation).
pub open spec fn escrow_age(rec: EscrowRecord, now: u32) -> u32 {
    if now >= rec.created_ledger {
        (now - rec.created_ledger) as u32
    } else {
        0
    }
}

/// The age of escrow `escrow_id` on ledger `now`; fails with
/// `EscrowNotFound` when there is no such escrow.
pub fn get_escrow_age(p: &VeriTixPay, escrow_id: u32, now: u32) -> (r: Result<u32, PayError>)
    ensures
        p@.has_escrow(escrow_id) ==> r == Ok::<u32, PayError>(escrow_age(p@.escrows[escrow_id as int], now)),
        !p@.has_escrow(escrow_id) ==> r == Err::<u32, PayError>(PayError::EscrowNotFound),
{
    if escrow_id as usize >= p.escrows.len() {
        return Err(PayError::EscrowNotFound);
    }
    let created = p.escrows[escrow_id as usize].created_ledger;
    if now >= created {
        Ok(now - created)
    } else {
        Ok(0)
    }
}

/// The first check that creating an escrow fails, if any.
pub open spec fn create_escrow_error(m: PayModel, amount: i128, expiry_ledger: u32, now: u32) -> Option<PayError> {
    if amount <= 0 {
        Some(PayError::AmountNotPositive)
    } else if expiry_ledger <= now {
        Some(PayError::ExpiryNotInFuture)
    } else if amount > MAX_ESCROW_AMOUNT {
        Some(PayError::AmountTooLarge)
    } else if m.escrows.len() >= u32::MAX {
        Some(PayError::Overflow)
    } else {
        None
    }
}

/// The model after a new escrow `rec` is stored and indexed under both parties.
pub open spec fn after_create(m: PayModel, rec: EscrowRecord) -> PayModel {
    PayModel {
        escrows: m.escrows.push(rec),
        depositor_escrows: m.depositor_escrows.insert(rec.depositor, m.escrows_by_depositor(rec.depositor).push(rec.id)),
        beneficiary_escrows: m.beneficiary_escrows.insert(rec.beneficiary, m.escrows_by_beneficiary(rec.beneficiary).push(rec.id)),
        ..m
    }
}

/// The depositor locks `amount` of `token` in a new escrow for `beneficiary`
/// until ledger `expiry_ledger` (the host checks the depositor's signature and
/// makes the returned transfer into the contract). Escrows are numbered from 0
/// and indexed under both parties.
pub fn create_escrow(
    p: &mut VeriTixPay,
    depositor: AccountId,
    beneficiary: AccountId,
    token: AccountId,
    amount: i128,
    expiry_ledger: u32,
    now: u32,
) -> (r: Result<(u32, TokenTransfer), PayError>)
    requires
        old(p).wf(),
    ensures
        final(p).wf(),
        match create_escrow_error(old(p)@, amount, expiry_ledger, now) {
            Some(e) => r == Err::<(u32, TokenTransfer), PayError>(e) && final(p)@ == old(p)@,
            None => {
                let id = old(p)@.escrows.len() as u32;
                &&& r == Ok::<(u32, TokenTransfer), PayError>((id, TokenTransfer { token, from: depositor, to: old(p)@.contract, amount }))
                &&& final(p)@ == after_create(old(p)@, EscrowRecord {
                    id,
                    depositor,
                    beneficiary,
                    amount,
                    token,
                    expiry_ledger,
                    created_ledger: now,
                    released: false,
                    refunded: false,
                })
            },
        },
{
    if amount <= 0 {
        return Err(PayError::AmountNotPositive);
    }
    if expiry_ledger <= now {
        return Err(PayError::ExpiryNotInFuture);
    }
    if amount > MAX_ESCROW_AMOUNT {
        return Err(PayError::AmountTooLarge);
    }
    if p.escrows.len() >= 0xffff_ffffusize {
        return Err(PayError::Overflow);
    }
    let id = p.escrows.len() as u32;
    let record = EscrowRecord { id, depositor, beneficiary, amount, token, expiry_ledger, created_ledger: now, released: false, refunded: false };
    p.escrows.push(record);
    append_escrow_id(&mut p.depositor_escrows, depositor, id);
    append_escrow_id(&mut p.beneficiary_escrows, beneficiary, id);
    Ok((id, TokenTransfer { token, from: depositor, to: p.contract, amount }))
}

/// Escrow `escrow_id`; fails with `EscrowNotFound` when there is none.
pub fn get_escrow(p: &VeriTixPay, escrow_id: u32) -> (r: Result<EscrowRecord, PayError>)
    ensures
        p@.has_escrow(escrow_id) ==> r == Ok::<EscrowRecord, PayError>(p@.escrows[escrow_id as int]),
        !p@.has_escrow(escrow_id) ==> r == Err::<EscrowRecord, PayError>(PayError::EscrowNotFound),
{
    if escrow_id as usize >= p.escrows.len() {
        return Err(PayError::EscrowNotFound);
    }
    Ok(p.escrows[escrow_id as usize])
}

/// The first check that settling escrow `escrow_id` fails, if any: a missing
/// or settled escrow, or a caller who is neither depositor nor administrator.
pub open spec fn settle_error(m: PayModel, caller: AccountId, escrow_id: u32, refused: PayError) -> Option<PayError> {
    if !m.has_escrow(escrow_id) {
        Some(PayError::EscrowNotFound)
    } else {
        let rec = m.escrows[escrow_id as int];
        if rec.released {
            Some(PayError::AlreadyReleased)
        } else if rec.refunded {
            Some(PayError::AlreadyRefunded)
        } else {
            party_check(m.admin, rec.depositor, caller, refused)
        }
    }
}

/// The first check that releasing escrow `escrow_id` on ledger `now` fails, if any.
pub open spec fn release_error(m: PayModel, caller: AccountId, escrow_id: u32, now: u32) -> Option<PayError> {
    if settle_error(m, caller, escrow_id, PayError::NotAuthorisedToRelease) is Some {
        settle_error(m, caller, escrow_id, PayError::NotAuthorisedToRelease)
    } else if now > m.escrows[escrow_id as int].expiry_ledger {
        Some(PayError::EscrowExpired)
    } else {
        None
    }
}

/// The model with escrow `id` replaced by `rec`.
pub open spec fn with_escrow(m: PayModel, id: u32, rec: EscrowRecord) -> PayModel {
    PayModel { escrows: m.escrows.update(id as int, rec), ..m }
}

/// The depositor or the administrator releases the escrow to the beneficiary
/// before it expires (the host checks the caller's signature and makes the
/// returned transfer out of the contract).
pub fn release_escrow(p: &mut VeriTixPay, caller: AccountId, escrow_id: u32, now: u32) -> (r: Result<TokenTransfer, PayError>)
    requires
        old(p).wf(),
    ensures
        final(p).wf(),
        match release_error(old(p)@, caller, escrow_id, now) {
            Some(e) => r == Err::<TokenTransfer, PayError>(e) && final(p)@ == old(p)@,
            None => {
                let rec = old(p)@.escrows[escrow_id as int];
                &&& r == Ok::<TokenTransfer, PayError>(TokenTransfer { token: rec.token, from: old(p)@.contract, to: rec.beneficiary, amount: rec.amount })
                &&& final(p)@ == with_escrow(old(p)@, escrow_id, EscrowRecord { released: true, ..rec })
            },
        },
{
    let rec = get_escrow(p, escrow_id)?;
    if rec.released {
        return Err(PayError::AlreadyReleased);
    }
    if rec.refunded {
        return Err(PayError::AlreadyRefunded);
    }
    check_party(p, rec.depositor, caller, PayError::NotAuthorisedToRelease)?;
    if now > rec.expiry_ledger {
        return Err(PayError::EscrowExpired);
    }
    p.escrows.set(escrow_id as usize, EscrowRecord { released: true, ..rec });
    Ok(TokenTransfer { token: rec.token, from: p.contract, to: rec.beneficiary, amount: rec.amount })
}

/// The first check that releasing `amount` of escrow `escrow_id` fails, if any.
pub open spec fn release_partial_error(m: PayModel, caller: AccountId, escrow_id: u32, amount: i128, now: u32) -> Option<PayError> {
    if amount <= 0 {
        Some(PayError::NonPositiveAmount)
    } else if release_error(m, caller, escrow_id, now) is Some {
        release_error(m, caller, escrow_id, now)
    } else if amount > m.escrows[escrow_id as int].amount {
        Some(PayError::ReleaseExceedsRemaining)
    } else {
        None
    }
}

/// The depositor or the administrator releases part of the escrow to the
/// beneficiary; once nothing remains the escrow counts as released.
pub fn release_partial_escrow(p: &mut VeriTixPay, caller: AccountId, escrow_id: u32, amount: i128, now: u32) -> (r: Result<TokenTransfer, PayError>)
    requires
        old(p).wf(),
    ensures
        final(p).wf(),
        match release_partial_error(old(p)@, caller, escrow_id, amount, now) {
            Some(e) => r == Err::<TokenTransfer, PayError>(e) && final(p)@ == old(p)@,
            None => {
                let rec = old(p)@.escrows[escrow_id as int];
                &&& r == Ok::<TokenTransfer, PayError>(TokenTransfer { token: rec.token, from: old(p)@.contract, to: rec.beneficiary, amount })
                &&& final(p)@ == with_escrow(old(p)@, escrow_id, EscrowRecord {
                    amount: (rec.amount - amount) as i128,
                    released: rec.amount - amount == 0,
                    ..rec
                })
            },
        },
{
    if amount <= 0 {
        return Err(PayError::NonPositiveAmount);
    }
    let rec = get_escrow(p, escrow_id)?;
    if rec.released {
        return Err(PayError::AlreadyReleased);
    }
    if rec.refunded {
        return Err(PayError::AlreadyRefunded);
    }
    check_party(p, rec.depositor, caller, PayError::NotAuthorisedToRelease)?;
    if now > rec.expiry_ledger {
        return Err(PayError::EscrowExpired);
    }
    if amount > rec.amount {
        return Err(PayError::ReleaseExceedsRemaining);
    }
    let remaining = rec.amount - amount;
    p.escrows.set(escrow_id as usize, EscrowRecord { amount: remaining, released: remaining == 0, ..rec });
    Ok(TokenTransfer { token: rec.token, from: p.contract, to: rec.beneficiary, amount })
}

/// The depositor or the administrator returns what remains of the escrow to
/// the depositor (the host checks the caller's signature and makes the
/// returned transfer out of the contract).
pub fn refund_escrow(p: &mut VeriTixPay, caller: AccountId, escrow_id: u32) -> (r: Result<TokenTransfer, PayError>)
    requires
        old(p).wf(),
    ensures
        final(p).wf(),
        match settle_error(old(p)@, caller, escrow_id, PayError::NotAuthorisedToRefund) {
            Some(e) => r == Err::<TokenTransfer, PayError>(e) && final(p)@ == old(p)@,
            None => {
                let rec = old(p)@.escrows[escrow_id as int];
                &&& r == Ok::<TokenTransfer, PayError>(TokenTransfer { token: rec.token, from: old(p)@.contract, to: rec.depositor, amount: rec.amount })
                &&& final(p)@ == with_escrow(old(p)@, escrow_id, EscrowRecord { refunded: true, ..rec })
            },
        },
{
    let rec = get_escrow(p, escrow_id)?;
    if rec.released {
        return Err(PayError::AlreadyReleased);
    }
    if rec.refunded {
        return Err(PayError::AlreadyRefunded);
    }
    check_party(p, rec.depositor, caller, PayError::NotAuthorisedToRefund)?;
    p.escrows.set(escrow_id as usize, EscrowRecord { refunded: true, ..rec });
    Ok(TokenTransfer { token: rec.token, from: p.contract, to: rec.depositor, amount: rec.amount })
}

/// The escrows that `depositor` deposited, oldest first.
pub fn get_escrows_by_depositor(p: &VeriTixPay, depositor: AccountId) -> (r: Vec<u32>)
    ensures
        r@ == p@.escrows_by_depositor(depositor),
{
    read_escrow_ids(&p.depositor_escrows, depositor)
}

/// The escrows of which `beneficiary` is the beneficiary, oldest first.
pub fn get_escrows_by_beneficiary(p: &VeriTixPay, beneficiary: AccountId) -> (r: Vec<u32>)
    ensures
        r@ == p@.escrows_by_beneficiary(beneficiary),
{
    read_escrow_ids(&p.beneficiary_escrows, beneficiary)
}

/// What the first `k` escrows still hold, counting only unsettled ones.
pub open spec fn escrowed_sum(es: Seq<EscrowRecord>, k: int) -> int
    decreases k,
{
    if k <= 0 {
        0
    } else {
        escrowed_sum(es, k - 1) + if es[k - 1].released || es[k - 1].refunded {
            0
        } else {
            es[k - 1].amount as int
        }
    }
}

/// The first `k` escrows hold a non-negative amount, no more than the rest.
proof fn lemma_escrowed_sum_monotone(es: Seq<EscrowRecord>, k: int, n: int)
    requires
        0 <= k <= n <= es.len(),
        forall|i: int| 0 <= i < es.len() ==> (#[trigger] es[i]).amount >= 0,
    ensures
        0 <= escrowed_sum(es, k) <= escrowed_sum(es, n),
    decreases n,
{
    if k < n {
        lemma_escrowed_sum_monotone(es, k, n - 1);
    } else if k > 0 {
        lemma_escrowed_sum_monotone(es, k - 1, k - 1);
    }
}

/// What all unsettled escrows hold together; fails with `Overflow` when the
/// sum leaves `i128`.
pub fn get_escrowed_total(p: &VeriTixPay) -> (r: Result<i128, PayError>)
    requires
        p.wf(),
    ensures
        escrowed_sum(p@.escrows, p@.escrows.len() as int) <= i128::MAX ==> r == Ok::<i128, PayError>(
            escrowed_sum(p@.escrows, p@.escrows.len() as int) as i128,
        ),
        escrowed_sum(p@.escrows, p@.escrows.len() as int) > i128::MAX ==> r == Err::<i128, PayError>(PayError::Overflow),
{
    let n = p.escrows.len();
    let mut total: i128 = 0;
    let mut i: usize = 0;
    while i < n
        invariant
            n == p@.escrows.len(),
            p.wf(),
            0 <= i <= n,
            total == escrowed_sum(p@.escrows, i as int),
        decreases n - i,
    {
        let rec = p.escrows[i];
        assert(rec.amount >= 0);
        if !(rec.released || rec.refunded) {
            if total > i128::MAX - rec.amount {
                proof {
                    lemma_escrowed_sum_monotone(p@.escrows, i as int + 1, n as int);
                }
                return Err(PayError::Overflow);
            }
            total = total + rec.amount;
        }
        i = i + 1;
    }
    Ok(total)
}

/// Each requested escrow, or nothing where there is no such escrow.
pub fn get_escrows_batch(p: &VeriTixPay, escrow_ids: Vec<u32>) -> (r: Vec<Option<EscrowRecord>>)
    ensures
        r@.len() == escrow_ids@.len(),
        forall|i: int| 0 <= i < escrow_ids@.len() ==> #[trigger] r@[i] == if p@.has_escrow(escrow_ids@[i]) {
            Some(p@.escrows[escrow_ids@[i] as int])
        } else {
            None
        },
{
    let mut out: Vec<Option<EscrowRecord>> = Vec::new();
    let n = escrow_ids.len();
    let mut i: usize = 0;
    while i < n
        invariant
            n == escrow_ids@.len(),
            0 <= i <= n,
            out@.len() == i,
            forall|j: int| 0 <= j < i ==> #[trigger] out@[j] == if p@.has_escrow(escrow_ids@[j]) {
                Some(p@.escrows[escrow_ids@[j] as int])
            } else {
                None
            },
        decreases n - i,
    {
        let id = escrow_ids[i];
        let found = match get_escrow(p, id) {
            Ok(rec) => Some(rec),
            Err(_) => None,
        };
        out.push(found);
        i = i + 1;
    }
    out
}

} // verus!

//! Dispute resolution: a party to an escrow names a resolver who settles it.
use vstd::prelude::*;
use std::collections::HashMap;
use crate::token::types::{AccountId, DisputeRecord, DisputeStatus, DisputeView, EscrowRecord, TokenError, TokenEvent};
use crate::token::contract::{VeritixToken, TokenModel};
use crate::token::balance::{read_balance, move_balance};
use crate::token::escrow::{get_escrow, is_settled};

verus! {

broadcast use vstd::std_specs::hash::group_hash_axioms;

/// The longest evidence a dispute may carry, in bytes.
pub const MAX_EVIDENCE_LEN: usize = 128;

impl TokenModel {
    /// The model with dispute `id` replaced by `d`.
    pub open spec fn with_dispute(self, id: u32, d: DisputeView) -> TokenModel {
        TokenModel { disputes: self.disputes.update(id - 1, d), ..self }
    }

    /// The disputes ever opened on escrow `escrow_id`, oldest first.
    pub open spec fn history_of(self, escrow_id: u32) -> Seq<u32> {
        ids_at(self.dispute_history, escrow_id)
    }
}

/// The list stored under `k`, or the empty list.
pub open spec fn ids_at(m: Map<u32, Seq<u32>>, k: u32) -> Seq<u32> {
    if m.dom().contains(k) {
        m[k]
    } else {
        Seq::empty()
    }
}

/// A copy of a byte string.
pub fn copy_bytes(v: &Vec<u8>) -> (r: Vec<u8>)
    ensures
        r@ == v@,
{
    let r = v.clone();
    assert(r@ =~= v@);
    r
}

/// A copy of a list of numbers.
fn copy_ids(v: &Vec<u32>) -> (r: Vec<u32>)
    ensures
        r@ == v@,
{
    let r = v.clone();
    assert(r@ =~= v@);
    r
}

/// A copy of a dispute.
pub fn copy_dispute(d: &DisputeRecord) -> (r: DisputeRecord)
    ensures
        r@ == d@,
{
    DisputeRecord {
        id: d.id,
        escrow_id: d.escrow_id,
        claimant: d.claimant,
        resolver: d.resolver,
        status: d.status,
        evidence: copy_bytes(&d.evidence),
        opened_at_ledger: d.opened_at_ledger,
        expiry_ledger: d.expiry_ledger,
        resolution_note: copy_bytes(&d.resolution_note),
    }
}

/// The first check that opening a dispute fails, if any.
pub open spec fn open_dispute_error(
    m: TokenModel,
    claimant: AccountId,
    escrow_id: u32,
    resolver: AccountId,
    evidence: Seq<u8>,
    expiry_ledger: u32,
    now: u32,
) -> Option<TokenError> {
    if evidence.len() > MAX_EVIDENCE_LEN {
        Some(TokenError::EvidenceTooLong)
    } else if expiry_ledger <= now {
        Some(TokenError::InvalidDisputeExpiry)
    } else if !m.has_escrow(escrow_id) {
        Some(TokenError::EscrowNotFound)
    } else {
        let rec = m.escrow(escrow_id);
        if is_settled(rec) {
            Some(TokenError::EscrowNotOpen)
        } else if claimant != rec.depositor && claimant != rec.beneficiary {
            Some(TokenError::NotEscrowParty)
        } else if resolver == claimant {
            Some(TokenError::ResolverIsClaimant)
        } else if resolver == rec.depositor {
            Some(TokenError::ResolverIsDepositor)
        } else if resolver == rec.beneficiary {
            Some(TokenError::ResolverIsBeneficiary)
        } else if m.escrow_dispute.dom().contains(escrow_id) {
            Some(TokenError::DisputeAlreadyOpen)
        } else if m.disputes.len() >= u32::MAX {
            Some(TokenError::Overflow)
        } else {
            None
        }
    }
}

/// The model after dispute `id` is opened on escrow `escrow_id`.
pub open spec fn after_open(m: TokenModel, d: DisputeView) -> TokenModel {
    TokenModel {
        disputes: m.disputes.push(d),
        escrow_dispute: m.escrow_dispute.insert(d.escrow_id, d.id),
        dispute_history: m.dispute_history.insert(d.escrow_id, m.history_of(d.escrow_id).push(d.id)),
        open_disputes: m.open_disputes.push(d.id),
        ..m
    }
}

/// `claimant`, a party to escrow `escrow_id`, opens a dispute that `resolver`
/// is to settle by ledger `expiry_ledger` (the host checks the claimant's
/// signature). Disputes are numbered from 1; an escrow has at most one open
/// dispute at a time.
pub fn open_dispute(
    t: &mut VeritixToken,
    claimant: AccountId,
    escrow_id: u32,
    resolver: AccountId,
    evidence: Vec<u8>,
    expiry_ledger: u32,
    now: u32,
) -> (r: Result<(u32, TokenEvent), TokenError>)
    requires
        old(t).wf(),
    ensures
        final(t).wf(),
        final(t)@.supply_gap() == old(t)@.supply_gap(),
        match open_dispute_error(old(t)@, claimant, escrow_id, resolver, evidence@, expiry_ledger, now) {
            Some(e) => r == Err::<(u32, TokenEvent), TokenError>(e) && final(t)@ == old(t)@,
            None => {
                let id = (old(t)@.disputes.len() + 1) as u32;
                &&& r is Ok
                &&& r->Ok_0.0 == id
                &&& r->Ok_0.1 matches TokenEvent::DisputeOpened { escrow_id: eid, claimant: c, evidence: ev }
                    && eid == escrow_id && c == claimant && ev@ == evidence@
                &&& final(t)@ == after_open(old(t)@, DisputeView {
                    id,
                    escrow_id,
                    claimant,
                    resolver,
                    status: DisputeStatus::Open,
                    evidence: evidence@,
                    opened_at_ledger: now,
                    expiry_ledger,
                    resolution_note: Seq::empty(),
                })
            },
        },
{
    if evidence.len() > MAX_EVIDENCE_LEN {
        return Err(TokenError::EvidenceTooLong);
    }
    if expiry_ledger <= now {
        return Err(TokenError::InvalidDisputeExpiry);
    }
    let escrow = get_escrow(t, escrow_id)?;
    if escrow.released || escrow.refunded {
        return Err(TokenError::EscrowNotOpen);
    }
    if claimant != escrow.depositor && claimant != escrow.beneficiary {
        return Err(TokenError::NotEscrowParty);
    }
    if resolver == claimant {
        return Err(TokenError::ResolverIsClaimant);
    }
    if resolver == escrow.depositor {
        return Err(TokenError::ResolverIsDepositor);
    }
    if resolver == escrow.beneficiary {
        return Err(TokenError::ResolverIsBeneficiary);
    }
    if t.escrow_dispute.contains_key(&escrow_id) {
        return Err(TokenError::DisputeAlreadyOpen);
    }
    if t.disputes.len() >= 0xffff_ffffusize {
        return Err(TokenError::Overflow);
    }
    let id = (t.disputes.len() + 1) as u32;
    let event_evidence = copy_bytes(&evidence);
    let record = DisputeRecord {
        id,
        escrow_id,
        claimant,
        resolver,
        status: DisputeStatus::Open,
        evidence,
        opened_at_ledger: now,
        expiry_ledger,
        resolution_note: Vec::new(),
    };
    let ghost old_t = *t;
    t.disputes.push(record);
    t.escrow_dispute.insert(escrow_id, id);
    append_dispute_history(&mut t.dispute_history, escrow_id, id);
    append_open_dispute(&mut t.open_disputes, id);
    proof {
        assert(t@.disputes =~= old_t@.disputes.push(record@));
    }
    Ok((id, TokenEvent::DisputeOpened { escrow_id, claimant, evidence: event_evidence }))
}

/// Adds dispute `dispute_id` to the end of the history of escrow `escrow_id`.
fn append_dispute_history(history: &mut HashMap<u32, Vec<u32>>, escrow_id: u32, dispute_id: u32)
    ensures
        final(history)@.map_values(|v: Vec<u32>| v@) == old(history)@.map_values(|v: Vec<u32>| v@).insert(
            escrow_id,
            ids_at(old(history)@.map_values(|v: Vec<u32>| v@), escrow_id).push(dispute_id),
        ),
{
    let ghost before = history@.map_values(|v: Vec<u32>| v@);
    let mut ids = match history.remove(&escrow_id) {
        Some(h) => h,
        None => Vec::new(),
    };
    ids.push(dispute_id);
    history.insert(escrow_id, ids);
    assert(history@.map_values(|v: Vec<u32>| v@) =~= before.insert(
        escrow_id,
        ids_at(before, escrow_id).push(dispute_id),
    ));
}

/// Adds dispute `id` to the end of the list of open disputes.
fn append_open_dispute(open: &mut Vec<u32>, id: u32)
    ensures
        final(open)@ == old(open)@.push(id),
{
    open.push(id);
}

/// The first check that settling escrow `escrow_id` fails, if any.
pub open spec fn settle_error(m: TokenModel, escrow_id: u32) -> Option<TokenError> {
    let rec = m.escrow(escrow_id);
    if is_settled(rec) {
        Some(TokenError::EscrowSettledDuringDispute)
    } else if m.balance(m.contract) < rec.amount {
        Some(TokenError::InsufficientBalance)
    } else {
        None
    }
}

/// The model after escrow `escrow_id` is settled: released to the beneficiary,
/// or refunded to the depositor.
pub open spec fn after_settle(m: TokenModel, escrow_id: u32, release_to_beneficiary: bool) -> TokenModel {
    let rec = m.escrow(escrow_id);
    if release_to_beneficiary {
        m.pay_out(rec.beneficiary, rec.amount as int).with_escrow(escrow_id, EscrowRecord { released: true, ..rec })
    } else {
        m.pay_out(rec.depositor, rec.amount as int).with_escrow(escrow_id, EscrowRecord { refunded: true, ..rec })
    }
}

/// The event published when escrow `escrow_id` is settled.
pub open spec fn settle_event(m: TokenModel, escrow_id: u32, release_to_beneficiary: bool) -> TokenEvent {
    let rec = m.escrow(escrow_id);
    if release_to_beneficiary {
        TokenEvent::EscrowReleased { escrow_id, to: rec.beneficiary, amount: rec.amount }
    } else {
        TokenEvent::EscrowRefunded { escrow_id, to: rec.depositor, amount: rec.amount }
    }
}

/// Pays out escrow `escrow_id` by the outcome of its dispute.
fn settle_escrow_by_outcome(t: &mut VeritixToken, escrow_id: u32, release_to_beneficiary: bool) -> (r: Result<TokenEvent, TokenError>)
    requires
        old(t).wf(),
        old(t)@.has_escrow(escrow_id),
    ensures
        final(t).wf(),
        final(t)@.supply_gap() == old(t)@.supply_gap(),
        match settle_error(old(t)@, escrow_id) {
            Some(e) => r == Err::<TokenEvent, TokenError>(e) && final(t)@ == old(t)@,
            None => r == Ok::<TokenEvent, TokenError>(settle_event(old(t)@, escrow_id, release_to_beneficiary))
                && final(t)@ == after_settle(old(t)@, escrow_id, release_to_beneficiary),
        },
{
    let escrow = get_escrow(t, escrow_id)?;
    if escrow.released || escrow.refunded {
        return Err(TokenError::EscrowSettledDuringDispute);
    }
    let contract = t.contract;
    if read_balance(t, contract) < escrow.amount {
        return Err(TokenError::InsufficientBalance);
    }
    if release_to_beneficiary {
        move_balance(t, contract, escrow.beneficiary, escrow.amount);
        t.escrows.set(escrow_id as usize - 1, EscrowRecord { released: true, ..escrow });
        Ok(TokenEvent::EscrowReleased { escrow_id, to: escrow.beneficiary, amount: escrow.amount })
    } else {
        move_balance(t, contract, escrow.depositor, escrow.amount);
        t.escrows.set(escrow_id as usize - 1, EscrowRecord { refunded: true, ..escrow });
        Ok(TokenEvent::EscrowRefunded { escrow_id, to: escrow.depositor, amount: escrow.amount })
    }
}

/// `s` without the occurrences of `id`.
pub open spec fn without(s: Seq<u32>, id: u32) -> Seq<u32> {
    s.filter(|x: u32| x != id)
}

/// Takes dispute `id` out of the list of open disputes.
fn remove_open_dispute(t: &mut VeritixToken, id: u32)
    requires
        old(t).wf(),
    ensures
        final(t).wf(),
        final(t)@ == (TokenModel { open_disputes: without(old(t)@.open_disputes, id), ..old(t)@ }),
{
    let mut ids: Vec<u32> = Vec::new();
    std::mem::swap(&mut ids, &mut t.open_disputes);
    let mut updated: Vec<u32> = Vec::new();
    let n = ids.len();
    let mut i: usize = 0;
    while i < n
        invariant
            n == ids@.len(),
            0 <= i <= n,
            updated@ == without(ids@.take(i as int), id),
        decreases n - i,
    {
        let v = ids[i];
        proof {
            reveal(Seq::filter);
            assert(ids@.take(i as int + 1).drop_last() =~= ids@.take(i as int));
            assert(ids@.take(i as int + 1).last() == v);
        }
        if v != id {
            updated.push(v);
        }
        i = i + 1;
    }
    proof {
        assert(ids@.take(n as int) =~= ids@);
        assert(updated@ == without(ids@, id));
    }
    t.open_disputes = updated;
}

/// The first check that closing dispute `dispute_id` by its resolver fails, if any.
pub open spec fn resolve_error(m: TokenModel, resolver: AccountId, dispute_id: u32) -> Option<TokenError> {
    if !m.has_dispute(dispute_id) {
        Some(TokenError::DisputeNotFound)
    } else if m.dispute(dispute_id).status != DisputeStatus::Open {
        Some(TokenError::DisputeNotOpen)
    } else if m.dispute(dispute_id).resolver != resolver {
        Some(TokenError::UnauthorizedResolver)
    } else {
        settle_error(m, m.dispute(dispute_id).escrow_id)
    }
}

/// The model after dispute `dispute_id` closes with `status` and `note`, its
/// escrow settled by the outcome.
pub open spec fn after_close(m: TokenModel, dispute_id: u32, release_to_beneficiary: bool, status: DisputeStatus, note: Seq<u8>) -> TokenModel {
    let d = m.dispute(dispute_id);
    let settled = after_settle(m, d.escrow_id, release_to_beneficiary);
    TokenModel {
        disputes: settled.disputes.update(dispute_id - 1, DisputeView { status, resolution_note: note, ..d }),
        escrow_dispute: settled.escrow_dispute.remove(d.escrow_id),
        open_disputes: without(settled.open_disputes, dispute_id),
        ..settled
    }
}

/// The note a dispute carries once closed with `note`, given the one it had.
pub open spec fn note_after(note: Option<Vec<u8>>, current: Seq<u8>) -> Seq<u8> {
    match note {
        Some(n) => n@,
        None => current,
    }
}

/// The status a resolution leaves a dispute in.
pub open spec fn resolution_status(release_to_beneficiary: bool) -> DisputeStatus {
    if release_to_beneficiary {
        DisputeStatus::ResolvedForBeneficiary
    } else {
        DisputeStatus::ResolvedForDepositor
    }
}

/// Closes an open dispute: settles its escrow, records the status and note,
/// clears the escrow's open dispute and drops it from the open list.
fn close_dispute(
    t: &mut VeritixToken,
    dispute_id: u32,
    release_to_beneficiary: bool,
    status: DisputeStatus,
    note: Option<Vec<u8>>,
) -> (r: Result<TokenEvent, TokenError>)
    requires
        old(t).wf(),
        old(t)@.has_dispute(dispute_id),
    ensures
        final(t).wf(),
        final(t)@.supply_gap() == old(t)@.supply_gap(),
        match settle_error(old(t)@, old(t)@.dispute(dispute_id).escrow_id) {
            Some(e) => r == Err::<TokenEvent, TokenError>(e) && final(t)@ == old(t)@,
            None => r == Ok::<TokenEvent, TokenError>(settle_event(old(t)@, old(t)@.dispute(dispute_id).escrow_id, release_to_beneficiary))
                && final(t)@ == after_close(old(t)@, dispute_id, release_to_beneficiary, status, note_after(note, old(t)@.dispute(dispute_id).resolution_note)),
        },
{
    let ghost new_note = note_after(note, old(t)@.dispute(dispute_id).resolution_note);
    let idx = dispute_id as usize - 1;
    let escrow_id = t.disputes[idx].escrow_id;
    let ev = settle_escrow_by_outcome(t, escrow_id, release_to_beneficiary)?;
    let ghost mid = *t;
    let old_d = copy_dispute(&t.disputes[idx]);
    let resolution_note = match note {
        Some(n) => n,
        None => old_d.resolution_note,
    };
    let updated = DisputeRecord { status, resolution_note, ..old_d };
    t.disputes.set(idx, updated);
    proof {
        assert(t@.disputes =~= mid@.disputes.update(idx as int, updated@));
    }
    t.escrow_dispute.remove(&escrow_id);
    remove_open_dispute(t, dispute_id);
    proof {
        let target = after_close(old(t)@, dispute_id, release_to_beneficiary, status, new_note);
        assert(updated@ == (DisputeView { status, resolution_note: new_note, ..old(t)@.dispute(dispute_id) }));
        assert(t@ == target);
    }
    Ok(ev)
}

/// The designated resolver settles dispute `dispute_id`: the escrow goes to the
/// beneficiary when `release_to_beneficiary`, else back to the depositor (the
/// host checks the resolver's signature). Returns the settlement event and the
/// resolution event.
pub fn resolve_dispute(t: &mut VeritixToken, resolver: AccountId, dispute_id: u32, release_to_beneficiary: bool) -> (r: Result<(TokenEvent, TokenEvent), TokenError>)
    requires
        old(t).wf(),
    ensures
        final(t).wf(),
        final(t)@.supply_gap() == old(t)@.supply_gap(),
        match resolve_error(old(t)@, resolver, dispute_id) {
            Some(e) => r == Err::<(TokenEvent, TokenEvent), TokenError>(e) && final(t)@ == old(t)@,
            None => r == Ok::<(TokenEvent, TokenEvent), TokenError>((
                settle_event(old(t)@, old(t)@.dispute(dispute_id).escrow_id, release_to_beneficiary),
                TokenEvent::DisputeResolved { dispute_id, resolver, release_to_beneficiary },
            )) && final(t)@ == after_close(old(t)@, dispute_id, release_to_beneficiary, resolution_status(release_to_beneficiary), old(t)@.dispute(dispute_id).resolution_note),
        },
{
    resolve_with(t, resolver, dispute_id, release_to_beneficiary, None)
}

/// `resolve_dispute`, also recording the resolver's `note` on the dispute.
pub fn resolve_dispute_with_note(t: &mut VeritixToken, resolver: AccountId, dispute_id: u32, release_to_beneficiary: bool, note: Vec<u8>) -> (r: Result<(TokenEvent, TokenEvent), TokenError>)
    requires
        old(t).wf(),
    ensures
        final(t).wf(),
        final(t)@.supply_gap() == old(t)@.supply_gap(),
        match resolve_error(old(t)@, resolver, dispute_id) {
            Some(e) => r == Err::<(TokenEvent, TokenEvent), TokenError>(e) && final(t)@ == old(t)@,
            None => r == Ok::<(TokenEvent, TokenEvent), TokenError>((
                settle_event(old(t)@, old(t)@.dispute(dispute_id).escrow_id, release_to_beneficiary),
                TokenEvent::DisputeResolved { dispute_id, resolver, release_to_beneficiary },
            )) && final(t)@ == after_close(old(t)@, dispute_id, release_to_beneficiary, resolution_status(release_to_beneficiary), note@),
        },
{
    resolve_with(t, resolver, dispute_id, release_to_beneficiary, Some(note))
}

fn resolve_with(t: &mut VeritixToken, resolver: AccountId, dispute_id: u32, release_to_beneficiary: bool, note: Option<Vec<u8>>) -> (r: Result<(TokenEvent, TokenEvent), TokenError>)
    requires
        old(t).wf(),
    ensures
        final(t).wf(),
        final(t)@.supply_gap() == old(t)@.supply_gap(),
        match resolve_error(old(t)@, resolver, dispute_id) {
            Some(e) => r == Err::<(TokenEvent, TokenEvent), TokenError>(e) && final(t)@ == old(t)@,
            None => r == Ok::<(TokenEvent, TokenEvent), TokenError>((
                settle_event(old(t)@, old(t)@.dispute(dispute_id).escrow_id, release_to_beneficiary),
                TokenEvent::DisputeResolved { dispute_id, resolver, release_to_beneficiary },
            )) && final(t)@ == after_close(old(t)@, dispute_id, release_to_beneficiary, resolution_status(release_to_beneficiary), note_after(note, old(t)@.dispute(dispute_id).resolution_note)),
        },
{
    if dispute_id == 0 || dispute_id as usize > t.disputes.len() {
        return Err(TokenError::DisputeNotFound);
    }
    let idx = dispute_id as usize - 1;
    if t.disputes[idx].status != DisputeStatus::Open {
        return Err(TokenError::DisputeNotOpen);
    }
    if t.disputes[idx].resolver != resolver {
        return Err(TokenError::UnauthorizedResolver);
    }
    let status = if release_to_beneficiary {
        DisputeStatus::ResolvedForBeneficiary
    } else {
        DisputeStatus::ResolvedForDepositor
    };
    let ev = close_dispute(t, dispute_id, release_to_beneficiary, status, note)?;
    Ok((ev, TokenEvent::DisputeResolved { dispute_id, resolver, release_to_beneficiary }))
}

/// The first check that expiring dispute `dispute_id` fails, if any.
pub open spec fn expire_error(m: TokenModel, dispute_id: u32, now: u32) -> Option<TokenError> {
    if !m.has_dispute(dispute_id) {
        Some(TokenError::DisputeNotFound)
    } else if m.dispute(dispute_id).status != DisputeStatus::Open {
        Some(TokenError::DisputeNotOpen)
    } else if now <= m.dispute(dispute_id).expiry_ledger {
        Some(TokenError::DisputeNotExpired)
    } else {
        settle_error(m, m.dispute(dispute_id).escrow_id)
    }
}

/// Anyone closes a dispute whose resolver let its expiry ledger pass: the
/// escrow goes back to the depositor. Returns the refund event and the
/// expiry event.
pub fn expire_dispute(t: &mut VeritixToken, dispute_id: u32, now: u32) -> (r: Result<(TokenEvent, TokenEvent), TokenError>)
    requires
        old(t).wf(),
    ensures
        final(t).wf(),
        final(t)@.supply_gap() == old(t)@.supply_gap(),
        match expire_error(old(t)@, dispute_id, now) {
            Some(e) => r == Err::<(TokenEvent, TokenEvent), TokenError>(e) && final(t)@ == old(t)@,
            None => {
                let escrow_id = old(t)@.dispute(dispute_id).escrow_id;
                &&& r == Ok::<(TokenEvent, TokenEvent), TokenError>((
                    settle_event(old(t)@, escrow_id, false),
                    TokenEvent::DisputeExpired { dispute_id, escrow_id },
                ))
                &&& final(t)@ == after_close(old(t)@, dispute_id, false, DisputeStatus::Expired, old(t)@.dispute(dispute_id).resolution_note)
            },
        },
{
    if dispute_id == 0 || dispute_id as usize > t.disputes.len() {
        return Err(TokenError::DisputeNotFound);
    }
    let idx = dispute_id as usize - 1;
    if t.disputes[idx].status != DisputeStatus::Open {
        return Err(TokenError::DisputeNotOpen);
    }
    if now <= t.disputes[idx].expiry_ledger {
        return Err(TokenError::DisputeNotExpired);
    }
    let escrow_id = t.disputes[idx].escrow_id;
    let ev = close_dispute(t, dispute_id, false, DisputeStatus::Expired, None)?;
    Ok((ev, TokenEvent::DisputeExpired { dispute_id, escrow_id }))
}

/// Dispute `dispute_id`; fails with `DisputeNotFound` when there is none.
pub fn get_dispute(t: &VeritixToken, dispute_id: u32) -> (r: Result<DisputeRecord, TokenError>)
    ensures
        t@.has_dispute(dispute_id) ==> r is Ok && r->Ok_0@ == t@.dispute(dispute_id),
        !t@.has_dispute(dispute_id) ==> r is Err && r->Err_0 == TokenError::DisputeNotFound,
{
    if dispute_id == 0 || dispute_id as usize > t.disputes.len() {
        return Err(TokenError::DisputeNotFound);
    }
    Ok(copy_dispute(&t.disputes[dispute_id as usize - 1]))
}

/// The disputes ever opened on escrow `escrow_id`, oldest first.
pub fn get_dispute_history_for_escrow(t: &VeritixToken, escrow_id: u32) -> (r: Vec<u32>)
    ensures
        r@ == t@.history_of(escrow_id),
{
    match t.dispute_history.get(&escrow_id) {
        Some(h) => copy_ids(h),
        None => Vec::new(),
    }
}

/// The disputes that are still open, oldest first.
pub fn get_open_disputes(t: &VeritixToken) -> (r: Vec<u32>)
    ensures
        r@ == t@.open_disputes,
{
    copy_ids(&t.open_disputes)
}

} // verus!

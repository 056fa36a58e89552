//! Properties of the token contract that span several calls.
use vstd::prelude::*;
use crate::sums::{all_non_negative, value_at};
use crate::token::types::{AccountId, BatchEntry, DisputeStatus, DisputeView, EscrowRecord, SplitRecipient, TokenError};
use crate::token::contract::{TokenModel, valid_recipients};
use crate::token::escrow::{is_settled, release_error, refund_error, after_release, release_amount};
use crate::token::dispute::{open_dispute_error, after_open};
use crate::token::splitter::{distribution_error, paid_out, payout, sum_payouts, lemma_payouts_add_up};
use crate::token::batch::{batch_total, sent, transfer_batch_error, lemma_batch_total_monotone};

verus! {

/// A settled escrow is final: every later release and every later refund of it
/// is refused as already settled.
pub proof fn law_settled_escrow_is_final(m: TokenModel, escrow_id: u32, caller: AccountId, amount: Option<i128>, now: u32)
    requires
        m.has_escrow(escrow_id),
        is_settled(m.escrow(escrow_id)),
    ensures
        release_error(m, caller, escrow_id, amount) == Some(TokenError::EscrowAlreadySettled),
        refund_error(m, caller, escrow_id, now) == Some(TokenError::EscrowAlreadySettled),
{
}

/// A release that takes all that remains settles the escrow, so it can be
/// neither released nor refunded again.
pub proof fn law_full_release_settles(m: TokenModel, caller: AccountId, escrow_id: u32, later: AccountId, amount: Option<i128>, now: u32)
    requires
        release_error(m, caller, escrow_id, None) is None,
    ensures
        ({
            let rec = m.escrow(escrow_id);
            let after = m.pay_out(rec.beneficiary, rec.amount as int).with_escrow(escrow_id, after_release(rec, release_amount(rec, None)));
            &&& release_error(after, later, escrow_id, amount) == Some(TokenError::EscrowAlreadySettled)
            &&& refund_error(after, later, escrow_id, now) == Some(TokenError::EscrowAlreadySettled)
        }),
{
}

/// A refund settles the escrow, so it can be neither released nor refunded again.
pub proof fn law_refund_settles(m: TokenModel, caller: AccountId, escrow_id: u32, later: AccountId, amount: Option<i128>, now: u32, later_now: u32)
    requires
        refund_error(m, caller, escrow_id, now) is None,
    ensures
        ({
            let rec = m.escrow(escrow_id);
            let after = m.pay_out(rec.depositor, rec.amount as int).with_escrow(escrow_id, EscrowRecord { refunded: true, ..rec });
            &&& release_error(after, later, escrow_id, amount) == Some(TokenError::EscrowAlreadySettled)
            &&& refund_error(after, later, escrow_id, later_now) == Some(TokenError::EscrowAlreadySettled)
        }),
{
}

/// An escrow has at most one open dispute: once a dispute is opened on it,
/// opening another on the same escrow is refused, whoever asks.
pub proof fn law_one_open_dispute_per_escrow(
    m: TokenModel,
    claimant: AccountId,
    escrow_id: u32,
    resolver: AccountId,
    evidence: Seq<u8>,
    expiry_ledger: u32,
    now: u32,
    claimant2: AccountId,
    resolver2: AccountId,
    evidence2: Seq<u8>,
    expiry_ledger2: u32,
    now2: u32,
)
    requires
        open_dispute_error(m, claimant, escrow_id, resolver, evidence, expiry_ledger, now) is None,
    ensures
        ({
            let d = DisputeView {
                id: (m.disputes.len() + 1) as u32,
                escrow_id,
                claimant,
                resolver,
                status: DisputeStatus::Open,
                evidence,
                opened_at_ledger: now,
                expiry_ledger,
                resolution_note: Seq::empty(),
            };
            open_dispute_error(after_open(m, d), claimant2, escrow_id, resolver2, evidence2, expiry_ledger2, now2) is Some
        }),
{
    let d = DisputeView {
        id: (m.disputes.len() + 1) as u32,
        escrow_id,
        claimant,
        resolver,
        status: DisputeStatus::Open,
        evidence,
        opened_at_ledger: now,
        expiry_ledger,
        resolution_note: Seq::empty(),
    };
    let m2 = after_open(m, d);
    assert(m2.escrows == m.escrows);
    assert(m2.escrow_dispute.dom().contains(escrow_id));
}

/// A payout plan that passes its checks finds the payer able to make each payout in turn.
proof fn lemma_each_payout_covered(b: Map<AccountId, i128>, from: AccountId, total: int, rs: Seq<SplitRecipient>, j: int, k: int)
    requires
        0 <= j <= k < rs.len(),
        distribution_error(b, from, total, rs, j) is None,
    ensures
        value_at(paid_out(b, from, total, rs, k), from) >= payout(total, rs, k),
    decreases k - j,
{
    if j < k {
        lemma_each_payout_covered(b, from, total, rs, j + 1, k);
    }
}

/// While the payer is none of the recipients, paying the first `k` of them
/// takes exactly their payouts out of the payer's balance.
proof fn lemma_payer_pays_prefix(b: Map<AccountId, i128>, from: AccountId, total: int, rs: Seq<SplitRecipient>, k: int)
    requires
        0 <= k <= rs.len(),
        forall|j: int| 0 <= j < rs.len() ==> (#[trigger] rs[j]).address != from,
        distribution_error(b, from, total, rs, 0) is None,
        forall|j: int| 0 <= j < rs.len() ==> #[trigger] payout(total, rs, j) >= 0,
    ensures
        value_at(paid_out(b, from, total, rs, k), from) == value_at(b, from) - sum_payouts(total, rs, k),
    decreases k,
{
    if k > 0 {
        lemma_payer_pays_prefix(b, from, total, rs, k - 1);
        lemma_each_payout_covered(b, from, total, rs, 0, k - 1);
        assert(rs[k - 1].address != from);
        assert(payout(total, rs, k - 1) >= 0);
    }
}

/// Paying out a split takes exactly the split's total out of the contract's
/// balance, when the contract is not itself a recipient: nothing is lost or
/// created by the rounding of shares.
pub proof fn law_distribution_takes_exactly_the_total(b: Map<AccountId, i128>, contract: AccountId, total: i128, rs: Seq<SplitRecipient>)
    requires
        total > 0,
        valid_recipients(rs),
        forall|j: int| 0 <= j < rs.len() ==> (#[trigger] rs[j]).address != contract,
        distribution_error(b, contract, total as int, rs, 0) is None,
    ensures
        value_at(paid_out(b, contract, total as int, rs, rs.len() as int), contract) == value_at(b, contract) - total,
{
    crate::token::splitter::lemma_payouts_non_negative(total as int, rs);
    lemma_payer_pays_prefix(b, contract, total as int, rs, rs.len() as int);
    lemma_payouts_add_up(total as int, rs);
}

/// Freezing an account that is not frozen and then unfreezing it leaves the
/// token as it was.
pub proof fn law_freeze_then_unfreeze_restores(m: TokenModel, target: AccountId)
    requires
        !m.frozen.contains(target),
    ensures
        (TokenModel { frozen: (TokenModel { frozen: m.frozen.insert(target), ..m }).frozen.remove(target), ..m }) == m,
{
    assert(m.frozen.insert(target).remove(target) =~= m.frozen);
}

/// Making the first `k` transfers of a batch takes their sum out of the
/// sender's balance, while the sender is none of the recipients.
proof fn lemma_sender_pays_prefix(b: Map<AccountId, i128>, from: AccountId, es: Seq<BatchEntry>, k: int)
    requires
        0 <= k <= es.len(),
        forall|j: int| 0 <= j < es.len() ==> (#[trigger] es[j]).address != from,
        forall|j: int| 0 <= j < es.len() ==> (#[trigger] es[j]).amount > 0,
        batch_total(es, es.len() as int) <= value_at(b, from),
    ensures
        value_at(sent(b, from, es, k), from) == value_at(b, from) - batch_total(es, k),
    decreases k,
{
    if k > 0 {
        lemma_sender_pays_prefix(b, from, es, k - 1);
        lemma_batch_total_monotone(es, k, es.len() as int);
        assert(es[k - 1].address != from);
        assert(es[k - 1].amount > 0);
    }
}

/// A transfer batch takes exactly the batch's total out of the sender's
/// balance, when the sender is none of the recipients.
pub proof fn law_transfer_batch_takes_the_batch_total(m: TokenModel, from: AccountId, es: Seq<BatchEntry>)
    requires
        transfer_batch_error(m, from, es) is None,
        forall|j: int| 0 <= j < es.len() ==> (#[trigger] es[j]).address != from,
    ensures
        value_at(sent(m.balances, from, es, es.len() as int), from) == m.balance(from) - batch_total(es, es.len() as int),
{
    assert forall|j: int| 0 <= j < es.len() implies (#[trigger] es[j]).amount > 0 by {
        if es[j].amount <= 0 {
            assert(exists|i: int| 0 <= i < es.len() && (#[trigger] es[i]).amount <= 0);
        }
    }
    lemma_sender_pays_prefix(m.balances, from, es, es.len() as int);
}

} // verus!

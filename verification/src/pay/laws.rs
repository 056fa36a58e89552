//! Properties of the escrow contract that span several calls.
use vstd::prelude::*;
use crate::pay::types::{AccountId, EscrowRecord, MultiEscrowView, PayError, TokenTransfer};
use crate::pay::contract::{PayModel, split_recipients, airdrop_share, holdings_total};
use crate::pay::escrow::{release_error, settle_error, with_escrow, after_create};
use crate::pay::multi_escrow::{new_multi, payouts, shares_total, settle_multi_error, release_multi_error, with_multi};

verus! {

/// What the first `k` transfers move together.
pub open spec fn transferred(ts: Seq<TokenTransfer>, k: int) -> int
    decreases k,
{
    if k <= 0 {
        0
    } else {
        transferred(ts, k - 1) + ts[k - 1].amount
    }
}

/// Freezing an account that is not frozen and then unfreezing it leaves the
/// contract as it was.
pub proof fn law_freeze_then_unfreeze_restores(m: PayModel, account: AccountId)
    requires
        !m.frozen.contains(account),
    ensures
        (PayModel { frozen: (PayModel { frozen: m.frozen.insert(account), ..m }).frozen.remove(account), ..m }) == m,
{
    assert(m.frozen.insert(account).remove(account) =~= m.frozen);
}

/// A released or refunded escrow is final: it can be neither released nor
/// refunded again.
pub proof fn law_settled_escrow_is_final(m: PayModel, escrow_id: u32, caller: AccountId, now: u32)
    requires
        m.has_escrow(escrow_id),
        m.escrows[escrow_id as int].released || m.escrows[escrow_id as int].refunded,
    ensures
        release_error(m, caller, escrow_id, now) is Some,
        settle_error(m, caller, escrow_id, PayError::NotAuthorisedToRefund) is Some,
{
}

/// A release settles the escrow for good: a later release or refund of it is
/// refused as already released.
pub proof fn law_release_is_final(m: PayModel, caller: AccountId, escrow_id: u32, now: u32, later: AccountId, later_now: u32)
    requires
        release_error(m, caller, escrow_id, now) is None,
    ensures
        ({
            let after = with_escrow(m, escrow_id, EscrowRecord { released: true, ..m.escrows[escrow_id as int] });
            &&& release_error(after, later, escrow_id, later_now) == Some(PayError::AlreadyReleased)
            &&& settle_error(after, later, escrow_id, PayError::NotAuthorisedToRefund) == Some(PayError::AlreadyReleased)
        }),
{
}

/// A released multi-recipient escrow can be neither released nor refunded again.
pub proof fn law_multi_release_is_final(m: PayModel, caller: AccountId, id: u32, now: u32, later: AccountId, later_now: u32)
    requires
        release_multi_error(m, caller, id, now) is None,
    ensures
        ({
            let after = with_multi(m, id, MultiEscrowView { released: true, ..m.multi_escrows[id as int] });
            &&& release_multi_error(after, later, id, later_now) == Some(PayError::AlreadyReleased)
            &&& settle_multi_error(after, later, id, PayError::NotAuthorisedToRefund) == Some(PayError::AlreadyReleased)
        }),
{
}

proof fn lemma_payouts_prefix(rec: MultiEscrowView, contract: AccountId, k: int)
    requires
        0 <= k <= rec.recipients.len(),
    ensures
        transferred(payouts(rec, contract), k) == shares_total(rec.recipients, k),
    decreases k,
{
    if k > 0 {
        lemma_payouts_prefix(rec, contract, k - 1);
    }
}

/// Releasing a multi-recipient escrow pays out exactly what was deposited.
pub proof fn law_multi_escrow_pays_out_its_deposit(id: u32, depositor: AccountId, rs: Seq<(AccountId, i128)>, token: AccountId, expiry_ledger: u32, contract: AccountId)
    requires
        shares_total(rs, rs.len() as int) <= i128::MAX,
        shares_total(rs, rs.len() as int) >= i128::MIN,
    ensures
        transferred(payouts(new_multi(id, depositor, rs, token, expiry_ledger), contract), rs.len() as int)
            == new_multi(id, depositor, rs, token, expiry_ledger).total_amount,
{
    lemma_payouts_prefix(new_multi(id, depositor, rs, token, expiry_ledger), contract, rs.len() as int);
}

/// A revenue split hands out exactly the total: the organizer's and the
/// artist's rounded-down shares and the platform's rest add up to it.
pub proof fn law_revenue_split_adds_up(
    organizer: AccountId,
    organizer_bps: u32,
    artist: AccountId,
    artist_bps: u32,
    platform: AccountId,
    total: i128,
)
    requires
        total > 0,
        organizer_bps + artist_bps < 10000,
    ensures
        shares_total(split_recipients(organizer, organizer_bps, artist, artist_bps, platform, total), 3) == total,
{
    let oa = total * organizer_bps / 10000;
    let aa = total * artist_bps / 10000;
    assert(0 <= oa && 0 <= aa && oa + aa <= total) by (nonlinear_arith)
        requires
            total > 0,
            organizer_bps + artist_bps < 10000,
            oa == total * organizer_bps / 10000,
            aa == total * artist_bps / 10000,
    ;
    let rs = split_recipients(organizer, organizer_bps, artist, artist_bps, platform, total);
    assert(shares_total(rs, 3) == shares_total(rs, 2) + rs[2].1);
    assert(shares_total(rs, 2) == shares_total(rs, 1) + rs[1].1);
    assert(shares_total(rs, 1) == shares_total(rs, 0) + rs[0].1);
}

/// The sum of the first `k` airdrop shares.
pub open spec fn shares_given(hs: Seq<(AccountId, i128)>, total: i128, all: int, k: int) -> int
    decreases k,
{
    if k <= 0 {
        0
    } else {
        shares_given(hs, total, all, k - 1) + airdrop_share(total, hs[k - 1].1, all)
    }
}

proof fn lemma_shares_bounded(hs: Seq<(AccountId, i128)>, total: i128, all: int, k: int)
    requires
        0 <= k <= hs.len(),
        total > 0,
        all > 0,
        forall|j: int| 0 <= j < hs.len() ==> (#[trigger] hs[j]).1 > 0,
    ensures
        all * shares_given(hs, total, all, k) <= total * holdings_total(hs, k),
        shares_given(hs, total, all, k) >= 0,
    decreases k,
{
    if k > 0 {
        lemma_shares_bounded(hs, total, all, k - 1);
        let h = hs[k - 1].1 as int;
        assert(hs[k - 1].1 > 0);
        let s = airdrop_share(total, hs[k - 1].1, all);
        assert(all * s <= total * h && s >= 0) by (nonlinear_arith)
            requires
                total > 0,
                all > 0,
                h > 0,
                s == (if total * h <= 0 { 0 } else { total * h / all }),
        ;
        let prev = shares_given(hs, total, all, k - 1);
        assert(shares_given(hs, total, all, k) == prev + s);
        assert(total * holdings_total(hs, k) == total * holdings_total(hs, k - 1) + total * h) by (nonlinear_arith)
            requires
                holdings_total(hs, k) == holdings_total(hs, k - 1) + h,
        ;
        assert(all * (prev + s) == all * prev + all * s) by (nonlinear_arith);
    }
}

/// When every holder holds something, an airdrop never hands out more than
/// its total: each share is rounded down.
pub proof fn law_airdrop_within_total(hs: Seq<(AccountId, i128)>, total: i128)
    requires
        total > 0,
        holdings_total(hs, hs.len() as int) > 0,
        forall|j: int| 0 <= j < hs.len() ==> (#[trigger] hs[j]).1 > 0,
    ensures
        shares_given(hs, total, holdings_total(hs, hs.len() as int), hs.len() as int) <= total,
{
    let all = holdings_total(hs, hs.len() as int);
    lemma_shares_bounded(hs, total, all, hs.len() as int);
    let s = shares_given(hs, total, all, hs.len() as int);
    assert(s <= total) by (nonlinear_arith)
        requires
            all * s <= total * all,
            all > 0,
    ;
}

/// The numbers of the first `k` escrows of `es` whose beneficiary is `a`
/// (`by_beneficiary`) or whose depositor is `a`, in order of creation.
pub open spec fn ids_of_party(es: Seq<EscrowRecord>, a: AccountId, by_beneficiary: bool, k: int) -> Seq<u32>
    decreases k,
{
    if k <= 0 {
        Seq::empty()
    } else {
        let rec = es[k - 1];
        let party = if by_beneficiary { rec.beneficiary } else { rec.depositor };
        let earlier = ids_of_party(es, a, by_beneficiary, k - 1);
        if party == a {
            earlier.push(rec.id)
        } else {
            earlier
        }
    }
}

/// Each account's depositor and beneficiary lists hold exactly the numbers
/// of its escrows, in order of creation.
pub open spec fn indexes_match(m: PayModel) -> bool {
    forall|a: AccountId|
        #![trigger m.escrows_by_beneficiary(a)]
        #![trigger m.escrows_by_depositor(a)]
        m.escrows_by_beneficiary(a) == ids_of_party(m.escrows, a, true, m.escrows.len() as int)
            && m.escrows_by_depositor(a) == ids_of_party(m.escrows, a, false, m.escrows.len() as int)
}

/// The first `k` escrows give the same lists whatever follows them, and
/// whatever changes in them other than their numbers and parties.
proof fn lemma_ids_of_party_same(es: Seq<EscrowRecord>, fs: Seq<EscrowRecord>, a: AccountId, by_beneficiary: bool, k: int)
    requires
        0 <= k <= es.len(),
        k <= fs.len(),
        forall|j: int| 0 <= j < k ==> (#[trigger] es[j]).id == fs[j].id && es[j].depositor == fs[j].depositor
            && es[j].beneficiary == fs[j].beneficiary,
    ensures
        ids_of_party(es, a, by_beneficiary, k) == ids_of_party(fs, a, by_beneficiary, k),
    decreases k,
{
    if k > 0 {
        assert(es[k - 1].id == fs[k - 1].id);
        lemma_ids_of_party_same(es, fs, a, by_beneficiary, k - 1);
    }
}

/// A fresh contract, with no escrows and empty lists, has matching lists.
pub proof fn law_fresh_contract_indexes_match(m: PayModel)
    requires
        m.escrows.len() == 0,
        m.depositor_escrows == Map::<AccountId, Seq<u32>>::empty(),
        m.beneficiary_escrows == Map::<AccountId, Seq<u32>>::empty(),
    ensures
        indexes_match(m),
{
}

/// Creating an escrow appends its number to its depositor's and its
/// beneficiary's lists and to no other: the lists keep holding exactly each
/// account's escrows in order of creation, so an account that was never a
/// beneficiary has an empty beneficiary list.
pub proof fn law_create_escrow_keeps_indexes(m: PayModel, rec: EscrowRecord)
    requires
        indexes_match(m),
        rec.id == m.escrows.len(),
    ensures
        indexes_match(after_create(m, rec)),
{
    let m2 = after_create(m, rec);
    let n = m.escrows.len() as int;
    assert forall|a: AccountId| #![trigger m2.escrows_by_beneficiary(a)] #![trigger m2.escrows_by_depositor(a)]
        m2.escrows_by_beneficiary(a) == ids_of_party(m2.escrows, a, true, m2.escrows.len() as int)
            && m2.escrows_by_depositor(a) == ids_of_party(m2.escrows, a, false, m2.escrows.len() as int) by {
        lemma_ids_of_party_same(m.escrows, m2.escrows, a, true, n);
        lemma_ids_of_party_same(m.escrows, m2.escrows, a, false, n);
        assert(m2.escrows[n] == rec);
        assert(m.escrows_by_beneficiary(a) == ids_of_party(m.escrows, a, true, n));
        assert(m.escrows_by_depositor(a) == ids_of_party(m.escrows, a, false, n));
    }
}

/// Settling an escrow, which changes neither its number nor its parties,
/// keeps the lists matching.
pub proof fn law_settling_keeps_indexes(m: PayModel, id: u32, rec: EscrowRecord)
    requires
        indexes_match(m),
        m.has_escrow(id),
        rec.id == m.escrows[id as int].id,
        rec.depositor == m.escrows[id as int].depositor,
        rec.beneficiary == m.escrows[id as int].beneficiary,
    ensures
        indexes_match(with_escrow(m, id, rec)),
{
    let m2 = with_escrow(m, id, rec);
    let n = m.escrows.len() as int;
    assert forall|a: AccountId| #![trigger m2.escrows_by_beneficiary(a)] #![trigger m2.escrows_by_depositor(a)]
        m2.escrows_by_beneficiary(a) == ids_of_party(m2.escrows, a, true, m2.escrows.len() as int)
            && m2.escrows_by_depositor(a) == ids_of_party(m2.escrows, a, false, m2.escrows.len() as int) by {
        lemma_ids_of_party_same(m.escrows, m2.escrows, a, true, n);
        lemma_ids_of_party_same(m.escrows, m2.escrows, a, false, n);
        assert(m.escrows_by_beneficiary(a) == ids_of_party(m.escrows, a, true, n));
        assert(m.escrows_by_depositor(a) == ids_of_party(m.escrows, a, false, n));
    }
}

} // verus!

//! The escrow contract's state and its entry points.
use vstd::prelude::*;
use std::collections::HashMap;
use std::collections::HashSet;
use crate::pay::types::{PLACEHOLDER_ACCOUNT, AccountId, EscrowRecord, MultiEscrowRecord, MultiEscrowView, PayError, RecurringPayment, TokenTransfer};
use crate::pay::admin::{pay_admin_check, check_admin};
use crate::pay::escrow::{escrow_age, create_escrow_error, after_create, release_error, release_partial_error, settle_error, with_escrow, escrowed_sum};
use crate::pay::multi_escrow::{create_multi_error, new_multi, release_multi_error, settle_multi_error, payouts, with_multi, shares_total};

verus! {

broadcast use vstd::std_specs::hash::group_hash_axioms;

/// Everything the escrow contract keeps in storage.
///
/// Escrows and multi-recipient escrows are numbered from 0 in the order of
/// their creation; the record with number `n` sits at index `n`.
pub struct VeriTixPay {
    /// The contract's own account, which holds the escrowed tokens.
    pub contract: AccountId,
    pub admin: Option<AccountId>,
    pub escrows: Vec<EscrowRecord>,
    /// The escrows each account deposited, oldest first.
    pub depositor_escrows: HashMap<AccountId, Vec<u32>>,
    /// The escrows each account is the beneficiary of, oldest first.
    pub beneficiary_escrows: HashMap<AccountId, Vec<u32>>,
    pub multi_escrows: Vec<MultiEscrowRecord>,
    /// The executions of each recurring payment, oldest first.
    pub recurring_history: HashMap<u32, Vec<RecurringPayment>>,
    pub frozen: HashSet<AccountId>,
    /// The disputes each account opened, oldest first.
    pub claimant_disputes: HashMap<AccountId, Vec<u32>>,
    /// The holders among whom an airdrop is shared, with their holdings.
    pub holders: Vec<(AccountId, i128)>,
}

/// The escrow contract's state as mathematical values.
pub ghost struct PayModel {
    pub contract: AccountId,
    pub admin: Option<AccountId>,
    pub escrows: Seq<EscrowRecord>,
    pub depositor_escrows: Map<AccountId, Seq<u32>>,
    pub beneficiary_escrows: Map<AccountId, Seq<u32>>,
    pub multi_escrows: Seq<MultiEscrowView>,
    pub recurring_history: Map<u32, Seq<RecurringPayment>>,
    pub frozen: Set<AccountId>,
    pub claimant_disputes: Map<AccountId, Seq<u32>>,
    pub holders: Seq<(AccountId, i128)>,
}

impl View for VeriTixPay {
    type V = PayModel;

    open spec fn view(&self) -> PayModel {
        PayModel {
            contract: self.contract,
            admin: self.admin,
            escrows: self.escrows@,
            depositor_escrows: self.depositor_escrows@.map_values(|v: Vec<u32>| v@),
            beneficiary_escrows: self.beneficiary_escrows@.map_values(|v: Vec<u32>| v@),
            multi_escrows: self.multi_escrows@.map_values(|m: MultiEscrowRecord| m@),
            recurring_history: self.recurring_history@.map_values(|v: Vec<RecurringPayment>| v@),
            frozen: self.frozen@,
            claimant_disputes: self.claimant_disputes@.map_values(|v: Vec<u32>| v@),
            holders: self.holders@,
        }
    }
}

/// The list stored under `k`, or the empty list.
pub open spec fn list_at<T>(m: Map<AccountId, Seq<T>>, k: AccountId) -> Seq<T> {
    if m.dom().contains(k) {
        m[k]
    } else {
        Seq::empty()
    }
}

impl PayModel {
    /// Escrow `id` exists.
    pub open spec fn has_escrow(self, id: u32) -> bool {
        id < self.escrows.len()
    }

    /// Multi-recipient escrow `id` exists.
    pub open spec fn has_multi_escrow(self, id: u32) -> bool {
        id < self.multi_escrows.len()
    }

    /// The escrows that `a` deposited, oldest first.
    pub open spec fn escrows_by_depositor(self, a: AccountId) -> Seq<u32> {
        list_at(self.depositor_escrows, a)
    }

    /// The escrows of which `a` is the beneficiary, oldest first.
    pub open spec fn escrows_by_beneficiary(self, a: AccountId) -> Seq<u32> {
        list_at(self.beneficiary_escrows, a)
    }

    /// The executions of recurring payment `id`, oldest first.
    pub open spec fn history(self, id: u32) -> Seq<RecurringPayment> {
        if self.recurring_history.dom().contains(id) {
            self.recurring_history[id]
        } else {
            Seq::empty()
        }
    }
}

/// The escrow at index `i` carries number `i`, a non-negative amount, and a
/// positive one while unsettled.
pub open spec fn pay_escrow_consistent(rec: EscrowRecord, i: int) -> bool {
    &&& rec.id == i
    &&& rec.amount >= 0
    &&& !(rec.released || rec.refunded) ==> rec.amount > 0
}

/// The multi-recipient escrow at index `i` carries number `i`.
pub open spec fn multi_escrow_consistent(m: MultiEscrowView, i: int) -> bool {
    m.id == i
}

impl VeriTixPay {
    /// Every record carries its own number, and the counts fit in `u32`.
    pub open spec fn wf(&self) -> bool {
        &&& self.escrows@.len() <= u32::MAX
        &&& self.multi_escrows@.len() <= u32::MAX
        &&& forall|i: int| 0 <= i < self.escrows@.len() ==> pay_escrow_consistent(#[trigger] self.escrows@[i], i)
        &&& forall|i: int|
            0 <= i < self.multi_escrows@.len() ==> multi_escrow_consistent((#[trigger] self.multi_escrows@[i])@, i)
    }

    /// Whether the state is consistent (`wf`), for a caller that holds a
    /// state it did not get from this library.
    pub fn is_consistent(&self) -> (b: bool)
        ensures
            b == self.wf(),
    {
        if self.escrows.len() > 0xffff_ffffusize || self.multi_escrows.len() > 0xffff_ffffusize {
            return false;
        }
        let mut i: usize = 0;
        while i < self.escrows.len()
            invariant
                0 <= i <= self.escrows@.len(),
                forall|j: int| 0 <= j < i ==> pay_escrow_consistent(#[trigger] self.escrows@[j], j),
            decreases self.escrows@.len() - i,
        {
            let rec = &self.escrows[i];
            if rec.id as usize != i || rec.amount < 0 || (!(rec.released || rec.refunded) && rec.amount == 0) {
                assert(!pay_escrow_consistent(self.escrows@[i as int], i as int));
                return false;
            }
            i = i + 1;
        }
        let mut k: usize = 0;
        while k < self.multi_escrows.len()
            invariant
                0 <= k <= self.multi_escrows@.len(),
                forall|j: int| 0 <= j < k ==> multi_escrow_consistent((#[trigger] self.multi_escrows@[j])@, j),
            decreases self.multi_escrows@.len() - k,
        {
            if self.multi_escrows[k].id as usize != k {
                assert(!multi_escrow_consistent(self.multi_escrows@[k as int]@, k as int));
                return false;
            }
            k = k + 1;
        }
        true
    }

    /// A fresh contract with no admin and no records; `contract` is its own
    /// account and `holders` are the holders an airdrop is shared among.
    pub fn new(contract: AccountId, holders: Vec<(AccountId, i128)>) -> (p: Self)
        ensures
            p.wf(),
            p@.contract == contract,
            p@.admin is None,
            p@.escrows.len() == 0,
            p@.depositor_escrows == Map::<AccountId, Seq<u32>>::empty(),
            p@.beneficiary_escrows == Map::<AccountId, Seq<u32>>::empty(),
            p@.multi_escrows.len() == 0,
            p@.recurring_history == Map::<u32, Seq<RecurringPayment>>::empty(),
            p@.frozen == Set::<AccountId>::empty(),
            p@.claimant_disputes == Map::<AccountId, Seq<u32>>::empty(),
            p@.holders == holders@,
    {
        let p = VeriTixPay {
            contract,
            admin: None,
            escrows: Vec::new(),
            depositor_escrows: HashMap::new(),
            beneficiary_escrows: HashMap::new(),
            multi_escrows: Vec::new(),
            recurring_history: HashMap::new(),
            frozen: HashSet::new(),
            claimant_disputes: HashMap::new(),
            holders,
        };
        assert(p@.depositor_escrows =~= Map::empty());
        assert(p@.beneficiary_escrows =~= Map::empty());
        assert(p@.recurring_history =~= Map::empty());
        assert(p@.claimant_disputes =~= Map::empty());
        p
    }
}

/// Initialization of the escrow contract.
pub struct EscrowContract;

impl EscrowContract {
    /// Makes `admin` the administrator, once. The host should pass an
    /// address that is funded and controlled: a wrong one locks every
    /// administrator action for good.
    pub fn initialize(p: &mut VeriTixPay, admin: AccountId) -> (r: Result<(), PayError>)
        requires
            old(p).wf(),
        ensures
            final(p).wf(),
            admin == PLACEHOLDER_ACCOUNT ==> r == Err::<(), PayError>(PayError::InvalidAdmin) && final(p)@ == old(p)@,
            admin != PLACEHOLDER_ACCOUNT && old(p)@.admin is Some ==> r == Err::<(), PayError>(PayError::AlreadyInitialized)
                && final(p)@ == old(p)@,
            admin != PLACEHOLDER_ACCOUNT && old(p)@.admin is None ==> r is Ok && final(p)@ == (PayModel { admin: Some(admin), ..old(p)@ }),
    {
        crate::pay::admin::validate_admin_address(admin)?;
        if p.admin.is_some() {
            return Err(PayError::AlreadyInitialized);
        }
        p.admin = Some(admin);
        Ok(())
    }
}

/// The recipients of a revenue split: the organizer's and the artist's shares
/// of `total` rounded down, and the rest for the platform.
pub open spec fn split_recipients(
    organizer: AccountId,
    organizer_bps: u32,
    artist: AccountId,
    artist_bps: u32,
    platform: AccountId,
    total: i128,
) -> Seq<(AccountId, i128)> {
    let oa = total * organizer_bps / 10000;
    let aa = total * artist_bps / 10000;
    seq![(organizer, oa as i128), (artist, aa as i128), (platform, (total - oa - aa) as i128)]
}

/// The first check that a revenue split fails, if any.
pub open spec fn revenue_split_error(
    m: PayModel,
    organizer: AccountId,
    organizer_bps: u32,
    artist: AccountId,
    artist_bps: u32,
    platform: AccountId,
    total: i128,
    event_ledger: u32,
    now: u32,
) -> Option<PayError> {
    if total <= 0 {
        Some(PayError::NonPositiveAmount)
    } else if organizer_bps + artist_bps > u32::MAX {
        Some(PayError::Overflow)
    } else if organizer_bps + artist_bps >= 10000 {
        Some(PayError::InvalidBasisPoints)
    } else if total * organizer_bps > i128::MAX || total * artist_bps > i128::MAX {
        Some(PayError::Overflow)
    } else if event_ledger + 100 > u32::MAX {
        Some(PayError::Overflow)
    } else {
        create_multi_error(
            m,
            split_recipients(organizer, organizer_bps, artist, artist_bps, platform, total),
            (event_ledger + 100) as u32,
            now,
        )
    }
}

/// What the first `k` holders hold together.
pub open spec fn holdings_total(hs: Seq<(AccountId, i128)>, k: int) -> int
    decreases k,
{
    if k <= 0 {
        0
    } else {
        holdings_total(hs, k - 1) + hs[k - 1].1
    }
}

/// A holder's part of an airdrop of `total` among holdings of `all`: its
/// holding's proportion rounded down; a holder holding nothing or less gets nothing.
pub open spec fn airdrop_share(total: i128, holding: i128, all: int) -> int {
    if total * holding <= 0 {
        0
    } else {
        total * holding / all
    }
}

/// The recipients of an airdrop of `total` among the holders `hs`.
pub open spec fn airdrop_recipients(hs: Seq<(AccountId, i128)>, total: i128) -> Seq<(AccountId, i128)> {
    hs.map_values(|h: (AccountId, i128)| (h.0, airdrop_share(total, h.1, holdings_total(hs, hs.len() as int)) as i128))
}

/// The first check that an airdrop fails, if any.
pub open spec fn airdrop_error(m: PayModel, admin: AccountId, total: i128, now: u32) -> Option<PayError> {
    let hs = m.holders;
    if pay_admin_check(m.admin, admin) is Some {
        pay_admin_check(m.admin, admin)
    } else if total <= 0 {
        Some(PayError::NonPositiveAmount)
    } else if hs.len() > 50 {
        Some(PayError::TooManyHolders)
    } else if exists|k: int| 0 < k <= hs.len() && !(i128::MIN <= #[trigger] holdings_total(hs, k) <= i128::MAX) {
        Some(PayError::Overflow)
    } else if holdings_total(hs, hs.len() as int) <= 0 {
        Some(PayError::NoHoldings)
    } else if exists|j: int| 0 <= j < hs.len() && !(i128::MIN <= total * (#[trigger] hs[j]).1 <= i128::MAX) {
        Some(PayError::Overflow)
    } else if now + 100 > u32::MAX {
        Some(PayError::Overflow)
    } else {
        create_multi_error(m, airdrop_recipients(hs, total), (now + 100) as u32, now)
    }
}

/// The model after a multi-recipient escrow is created and released at once.
pub open spec fn after_immediate_split(m: PayModel, depositor: AccountId, rs: Seq<(AccountId, i128)>, token: AccountId, expiry_ledger: u32) -> PayModel {
    PayModel {
        multi_escrows: m.multi_escrows.push(MultiEscrowView { released: true, ..new_multi(m.multi_escrows.len() as u32, depositor, rs, token, expiry_ledger) }),
        ..m
    }
}

/// The transfers of a multi-recipient escrow created and released at once:
/// the deposit into the contract, then each payout.
pub open spec fn immediate_split_transfers(m: PayModel, depositor: AccountId, rs: Seq<(AccountId, i128)>, token: AccountId, expiry_ledger: u32) -> Seq<TokenTransfer> {
    let rec = new_multi(m.multi_escrows.len() as u32, depositor, rs, token, expiry_ledger);
    seq![TokenTransfer { token, from: depositor, to: m.contract, amount: rec.total_amount }] + payouts(rec, m.contract)
}

/// Creates a multi-recipient escrow and releases it at once, by its depositor.
fn split_now(p: &mut VeriTixPay, depositor: AccountId, recipients: Vec<(AccountId, i128)>, token: AccountId, expiry_ledger: u32, now: u32) -> (r: Result<(u32, Vec<TokenTransfer>), PayError>)
    requires
        old(p).wf(),
    ensures
        final(p).wf(),
        match create_multi_error(old(p)@, recipients@, expiry_ledger, now) {
            Some(e) => r == Err::<(u32, Vec<TokenTransfer>), PayError>(e) && final(p)@ == old(p)@,
            None => {
                &&& r is Ok
                &&& r->Ok_0.0 == old(p)@.multi_escrows.len() as u32
                &&& r->Ok_0.1@ == immediate_split_transfers(old(p)@, depositor, recipients@, token, expiry_ledger)
                &&& final(p)@ == after_immediate_split(old(p)@, depositor, recipients@, token, expiry_ledger)
            },
        },
{
    let ghost rs = recipients@;
    let (id, deposit) = crate::pay::multi_escrow::create_multi_escrow(p, depositor, recipients, token, expiry_ledger, now)?;
    let ghost mid = p@;
    assert(release_multi_error(mid, depositor, id, now) is None);
    let payout_list = match crate::pay::multi_escrow::release_multi_escrow(p, depositor, id, now) {
        Ok(t) => t,
        Err(e) => return Err(e),
    };
    let mut transfers: Vec<TokenTransfer> = Vec::new();
    transfers.push(deposit);
    let mut out = payout_list;
    transfers.append(&mut out);
    proof {
        assert(transfers@ =~= immediate_split_transfers(old(p)@, depositor, rs, token, expiry_ledger));
        assert(p@.multi_escrows =~= after_immediate_split(old(p)@, depositor, rs, token, expiry_ledger).multi_escrows);
    }
    Ok((id, transfers))
}

impl VeriTixPay {
    /// `escrow::create_escrow` for a positive amount; the memo travels with
    /// the call and is not kept in the record.
    pub fn create_escrow(
        &mut self,
        depositor: AccountId,
        beneficiary: AccountId,
        token: AccountId,
        amount: i128,
        expiry_ledger: u32,
        memo: Vec<u8>,
        now: u32,
    ) -> (r: Result<(u32, TokenTransfer), PayError>)
        requires
            old(self).wf(),
        ensures
            final(self).wf(),
            amount <= 0 ==> r == Err::<(u32, TokenTransfer), PayError>(PayError::NonPositiveAmount) && final(self)@ == old(self)@,
            amount > 0 ==> match create_escrow_error(old(self)@, amount, expiry_ledger, now) {
                Some(e) => r == Err::<(u32, TokenTransfer), PayError>(e) && final(self)@ == old(self)@,
                None => {
                    let id = old(self)@.escrows.len() as u32;
                    &&& r == Ok::<(u32, TokenTransfer), PayError>((id, TokenTransfer { token, from: depositor, to: old(self)@.contract, amount }))
                    &&& final(self)@ == after_create(old(self)@, EscrowRecord {
                        id,
                        depositor,
                        beneficiary,
                        amount,
                        token,
                        expiry_ledger,
                        created_ledger: now,
                        released: false,
                        refunded: false,
                    })
                },
            },
    {
        if amount <= 0 {
            return Err(PayError::NonPositiveAmount);
        }
        crate::pay::escrow::create_escrow(self, depositor, beneficiary, token, amount, expiry_ledger, now)
    }

    /// `escrow::release_escrow`.
    pub fn release_escrow(&mut self, caller: AccountId, escrow_id: u32, now: u32) -> (r: Result<TokenTransfer, PayError>)
        requires
            old(self).wf(),
        ensures
            final(self).wf(),
            match release_error(old(self)@, caller, escrow_id, now) {
                Some(e) => r == Err::<TokenTransfer, PayError>(e) && final(self)@ == old(self)@,
                None => {
                    let rec = old(self)@.escrows[escrow_id as int];
                    &&& r == Ok::<TokenTransfer, PayError>(TokenTransfer { token: rec.token, from: old(self)@.contract, to: rec.beneficiary, amount: rec.amount })
                    &&& final(self)@ == with_escrow(old(self)@, escrow_id, EscrowRecord { released: true, ..rec })
                },
            },
    {
        crate::pay::escrow::release_escrow(self, caller, escrow_id, now)
    }

    /// `escrow::release_partial_escrow`.
    pub fn release_partial_escrow(&mut self, caller: AccountId, escrow_id: u32, amount: i128, now: u32) -> (r: Result<TokenTransfer, PayError>)
        requires
            old(self).wf(),
        ensures
            final(self).wf(),
            match release_partial_error(old(self)@, caller, escrow_id, amount, now) {
                Some(e) => r == Err::<TokenTransfer, PayError>(e) && final(self)@ == old(self)@,
                None => {
                    let rec = old(self)@.escrows[escrow_id as int];
                    &&& r == Ok::<TokenTransfer, PayError>(TokenTransfer { token: rec.token, from: old(self)@.contract, to: rec.beneficiary, amount })
                    &&& final(self)@ == with_escrow(old(self)@, escrow_id, EscrowRecord {
                        amount: (rec.amount - amount) as i128,
                        released: rec.amount - amount == 0,
                        ..rec
                    })
                },
            },
    {
        crate::pay::escrow::release_partial_escrow(self, caller, escrow_id, amount, now)
    }

    /// `escrow::refund_escrow`.
    pub fn refund_escrow(&mut self, caller: AccountId, escrow_id: u32) -> (r: Result<TokenTransfer, PayError>)
        requires
            old(self).wf(),
        ensures
            final(self).wf(),
            match settle_error(old(self)@, caller, escrow_id, PayError::NotAuthorisedToRefund) {
                Some(e) => r == Err::<TokenTransfer, PayError>(e) && final(self)@ == old(self)@,
                None => {
                    let rec = old(self)@.escrows[escrow_id as int];
                    &&& r == Ok::<TokenTransfer, PayError>(TokenTransfer { token: rec.token, from: old(self)@.contract, to: rec.depositor, amount: rec.amount })
                    &&& final(self)@ == with_escrow(old(self)@, escrow_id, EscrowRecord { refunded: true, ..rec })
                },
            },
    {
        crate::pay::escrow::refund_escrow(self, caller, escrow_id)
    }

    /// The escrows that `depositor` deposited, oldest first.
    pub fn get_escrows_by_depositor(&self, depositor: AccountId) -> (r: Vec<u32>)
        ensures
            r@ == self@.escrows_by_depositor(depositor),
    {
        crate::pay::escrow::get_escrows_by_depositor(self, depositor)
    }

    /// The escrows of which `beneficiary` is the beneficiary, oldest first.
    pub fn get_escrows_by_beneficiary(&self, beneficiary: AccountId) -> (r: Vec<u32>)
        ensures
            r@ == self@.escrows_by_beneficiary(beneficiary),
    {
        crate::pay::escrow::get_escrows_by_beneficiary(self, beneficiary)
    }

    /// What all unsettled escrows hold together.
    pub fn escrowed_total(&self) -> (r: Result<i128, PayError>)
        requires
            self.wf(),
        ensures
            escrowed_sum(self@.escrows, self@.escrows.len() as int) <= i128::MAX ==> r == Ok::<i128, PayError>(
                escrowed_sum(self@.escrows, self@.escrows.len() as int) as i128,
            ),
            escrowed_sum(self@.escrows, self@.escrows.len() as int) > i128::MAX ==> r == Err::<i128, PayError>(PayError::Overflow),
    {
        crate::pay::escrow::get_escrowed_total(self)
    }

    /// Each requested escrow, or nothing where there is no such escrow.
    pub fn get_escrows_batch(&self, escrow_ids: Vec<u32>) -> (r: Vec<Option<EscrowRecord>>)
        ensures
            r@.len() == escrow_ids@.len(),
            forall|i: int| 0 <= i < escrow_ids@.len() ==> #[trigger] r@[i] == if self@.has_escrow(escrow_ids@[i]) {
                Some(self@.escrows[escrow_ids@[i] as int])
            } else {
                None
            },
    {
        crate::pay::escrow::get_escrows_batch(self, escrow_ids)
    }

    /// `escrow::get_escrow_age`.
    pub fn get_escrow_age(&self, escrow_id: u32, now: u32) -> (r: Result<u32, PayError>)
        ensures
            self@.has_escrow(escrow_id) ==> r == Ok::<u32, PayError>(escrow_age(self@.escrows[escrow_id as int], now)),
            !self@.has_escrow(escrow_id) ==> r == Err::<u32, PayError>(PayError::EscrowNotFound),
    {
        crate::pay::escrow::get_escrow_age(self, escrow_id, now)
    }

    /// `multi_escrow::create_multi_escrow`.
    pub fn create_multi_escrow(&mut self, depositor: AccountId, recipients: Vec<(AccountId, i128)>, token: AccountId, expiry_ledger: u32, now: u32) -> (r: Result<(u32, TokenTransfer), PayError>)
        requires
            old(self).wf(),
        ensures
            final(self).wf(),
            match create_multi_error(old(self)@, recipients@, expiry_ledger, now) {
                Some(e) => r == Err::<(u32, TokenTransfer), PayError>(e) && final(self)@ == old(self)@,
                None => {
                    let id = old(self)@.multi_escrows.len() as u32;
                    let total = shares_total(recipients@, recipients@.len() as int) as i128;
                    &&& r == Ok::<(u32, TokenTransfer), PayError>((id, TokenTransfer { token, from: depositor, to: old(self)@.contract, amount: total }))
                    &&& final(self)@ == (PayModel {
                        multi_escrows: old(self)@.multi_escrows.push(new_multi(id, depositor, recipients@, token, expiry_ledger)),
                        ..old(self)@
                    })
                },
            },
    {
        crate::pay::multi_escrow::create_multi_escrow(self, depositor, recipients, token, expiry_ledger, now)
    }

    /// `multi_escrow::release_multi_escrow`.
    pub fn release_multi_escrow(&mut self, caller: AccountId, multi_escrow_id: u32, now: u32) -> (r: Result<Vec<TokenTransfer>, PayError>)
        requires
            old(self).wf(),
        ensures
            final(self).wf(),
            match release_multi_error(old(self)@, caller, multi_escrow_id, now) {
                Some(e) => r == Err::<Vec<TokenTransfer>, PayError>(e) && final(self)@ == old(self)@,
                None => {
                    let rec = old(self)@.multi_escrows[multi_escrow_id as int];
                    &&& r is Ok
                    &&& r->Ok_0@ == payouts(rec, old(self)@.contract)
                    &&& final(self)@ == with_multi(old(self)@, multi_escrow_id, MultiEscrowView { released: true, ..rec })
                },
            },
    {
        crate::pay::multi_escrow::release_multi_escrow(self, caller, multi_escrow_id, now)
    }

    /// `multi_escrow::refund_multi_escrow`.
    pub fn refund_multi_escrow(&mut self, caller: AccountId, multi_escrow_id: u32) -> (r: Result<TokenTransfer, PayError>)
        requires
            old(self).wf(),
        ensures
            final(self).wf(),
            match settle_multi_error(old(self)@, caller, multi_escrow_id, PayError::NotAuthorisedToRefund) {
                Some(e) => r == Err::<TokenTransfer, PayError>(e) && final(self)@ == old(self)@,
                None => {
                    let rec = old(self)@.multi_escrows[multi_escrow_id as int];
                    &&& r == Ok::<TokenTransfer, PayError>(TokenTransfer { token: rec.token, from: old(self)@.contract, to: rec.depositor, amount: rec.total_amount })
                    &&& final(self)@ == with_multi(old(self)@, multi_escrow_id, MultiEscrowView { refunded: true, ..rec })
                },
            },
    {
        crate::pay::multi_escrow::refund_multi_escrow(self, caller, multi_escrow_id)
    }

    /// A buyer pays `ticket_price` into an escrow for the organizer that
    /// expires 100 ledgers after the event (the host checks the buyer's
    /// signature); the ticket reference travels with the call.
    pub fn ticket_escrow(
        &mut self,
        buyer: AccountId,
        organizer: AccountId,
        token: AccountId,
        ticket_price: i128,
        event_ledger: u32,
        ticket_ref: Vec<u8>,
        now: u32,
    ) -> (r: Result<(u32, TokenTransfer), PayError>)
        requires
            old(self).wf(),
        ensures
            final(self).wf(),
            ticket_price <= 0 ==> r == Err::<(u32, TokenTransfer), PayError>(PayError::NonPositiveAmount) && final(self)@ == old(self)@,
            ticket_price > 0 && event_ledger + 100 > u32::MAX ==> r == Err::<(u32, TokenTransfer), PayError>(PayError::Overflow) && final(self)@ == old(self)@,
            ticket_price > 0 && event_ledger + 100 <= u32::MAX ==> match create_escrow_error(old(self)@, ticket_price, (event_ledger + 100) as u32, now) {
                Some(e) => r == Err::<(u32, TokenTransfer), PayError>(e) && final(self)@ == old(self)@,
                None => {
                    let id = old(self)@.escrows.len() as u32;
                    &&& r == Ok::<(u32, TokenTransfer), PayError>((id, TokenTransfer { token, from: buyer, to: old(self)@.contract, amount: ticket_price }))
                    &&& final(self)@ == after_create(old(self)@, EscrowRecord {
                        id,
                        depositor: buyer,
                        beneficiary: organizer,
                        amount: ticket_price,
                        token,
                        expiry_ledger: (event_ledger + 100) as u32,
                        created_ledger: now,
                        released: false,
                        refunded: false,
                    })
                },
            },
    {
        if ticket_price <= 0 {
            return Err(PayError::NonPositiveAmount);
        }
        if event_ledger > u32::MAX - 100 {
            return Err(PayError::Overflow);
        }
        self.create_escrow(buyer, organizer, token, ticket_price, event_ledger + 100, ticket_ref, now)
    }

    /// Splits `total_amount` among organizer, artist and platform by basis
    /// points (the platform taking the rest) and pays it out at once through a
    /// multi-recipient escrow deposited by `sender` (the host checks the
    /// sender's signature and makes the returned transfers, in order).
    pub fn revenue_split(
        &mut self,
        sender: AccountId,
        organizer: AccountId,
        organizer_bps: u32,
        artist: AccountId,
        artist_bps: u32,
        platform: AccountId,
        token: AccountId,
        total_amount: i128,
        event_ledger: u32,
        now: u32,
    ) -> (r: Result<(u32, Vec<TokenTransfer>), PayError>)
        requires
            old(self).wf(),
        ensures
            final(self).wf(),
            match revenue_split_error(old(self)@, organizer, organizer_bps, artist, artist_bps, platform, total_amount, event_ledger, now) {
                Some(e) => r == Err::<(u32, Vec<TokenTransfer>), PayError>(e) && final(self)@ == old(self)@,
                None => {
                    let rs = split_recipients(organizer, organizer_bps, artist, artist_bps, platform, total_amount);
                    let expiry = (event_ledger + 100) as u32;
                    &&& r is Ok
                    &&& r->Ok_0.0 == old(self)@.multi_escrows.len() as u32
                    &&& r->Ok_0.1@ == immediate_split_transfers(old(self)@, sender, rs, token, expiry)
                    &&& final(self)@ == after_immediate_split(old(self)@, sender, rs, token, expiry)
                },
            },
    {
        if total_amount <= 0 {
            return Err(PayError::NonPositiveAmount);
        }
        if organizer_bps > u32::MAX - artist_bps {
            return Err(PayError::Overflow);
        }
        if organizer_bps + artist_bps >= 10_000 {
            return Err(PayError::InvalidBasisPoints);
        }
        let organizer_amt = match total_amount.checked_mul(organizer_bps as i128) {
            Some(x) => x / 10_000,
            None => return Err(PayError::Overflow),
        };
        let artist_amt = match total_amount.checked_mul(artist_bps as i128) {
            Some(x) => x / 10_000,
            None => return Err(PayError::Overflow),
        };
        assert(0 <= organizer_amt + artist_amt <= total_amount) by (nonlinear_arith)
            requires
                total_amount > 0,
                organizer_bps + artist_bps < 10000,
                organizer_amt == total_amount * organizer_bps / 10000,
                artist_amt == total_amount * artist_bps / 10000,
        ;
        let platform_amt = total_amount - organizer_amt - artist_amt;
        if event_ledger > u32::MAX - 100 {
            return Err(PayError::Overflow);
        }
        let mut recipients: Vec<(AccountId, i128)> = Vec::new();
        recipients.push((organizer, organizer_amt));
        recipients.push((artist, artist_amt));
        recipients.push((platform, platform_amt));
        assert(recipients@ =~= split_recipients(organizer, organizer_bps, artist, artist_bps, platform, total_amount));
        split_now(self, sender, recipients, token, event_ledger + 100, now)
    }

    /// The administrator shares `total_amount` among the holders in proportion
    /// to their holdings (each share rounded down; at most 50 holders) and pays
    /// it out at once through a multi-recipient escrow that the administrator
    /// deposits (the host checks the administrator's signature and makes the
    /// returned transfers, in order).
    pub fn airdrop(&mut self, admin: AccountId, total_amount: i128, token: AccountId, now: u32) -> (r: Result<(u32, Vec<TokenTransfer>), PayError>)
        requires
            old(self).wf(),
        ensures
            final(self).wf(),
            match airdrop_error(old(self)@, admin, total_amount, now) {
                Some(e) => r == Err::<(u32, Vec<TokenTransfer>), PayError>(e) && final(self)@ == old(self)@,
                None => {
                    let rs = airdrop_recipients(old(self)@.holders, total_amount);
                    let expiry = (now + 100) as u32;
                    &&& r is Ok
                    &&& r->Ok_0.0 == old(self)@.multi_escrows.len() as u32
                    &&& r->Ok_0.1@ == immediate_split_transfers(old(self)@, admin, rs, token, expiry)
                    &&& final(self)@ == after_immediate_split(old(self)@, admin, rs, token, expiry)
                },
            },
    {
        check_admin(self, admin)?;
        if total_amount <= 0 {
            return Err(PayError::NonPositiveAmount);
        }
        let n = self.holders.len();
        if n > 50 {
            return Err(PayError::TooManyHolders);
        }
        let ghost hs = self@.holders;
        let mut total_holdings: i128 = 0;
        let mut i: usize = 0;
        while i < n
            invariant
                n == hs.len(),
                hs == self@.holders,
                self@ == old(self)@,
                self.wf(),
                0 <= i <= n,
                n <= 50,
                total_amount > 0,
                pay_admin_check(old(self)@.admin, admin) is None,
                total_holdings == holdings_total(hs, i as int),
                forall|k: int| 0 < k <= i ==> i128::MIN <= #[trigger] holdings_total(hs, k) <= i128::MAX,
            decreases n - i,
        {
            let h = self.holders[i].1;
            let next = total_holdings.checked_add(h);
            match next {
                Some(x) => {
                    total_holdings = x;
                },
                None => {
                    assert(!(i128::MIN <= holdings_total(hs, i as int + 1) <= i128::MAX));
                    return Err(PayError::Overflow);
                },
            }
            i = i + 1;
        }
        if total_holdings <= 0 {
            return Err(PayError::NoHoldings);
        }
        let mut recipients: Vec<(AccountId, i128)> = Vec::new();
        let mut k: usize = 0;
        while k < n
            invariant
                n == hs.len(),
                hs == self@.holders,
                self@ == old(self)@,
                self.wf(),
                0 <= k <= n,
                n <= 50,
                total_amount > 0,
                pay_admin_check(old(self)@.admin, admin) is None,
                forall|q: int| 0 < q <= n ==> i128::MIN <= #[trigger] holdings_total(hs, q) <= i128::MAX,
                total_holdings == holdings_total(hs, n as int),
                total_holdings > 0,
                forall|j: int| 0 <= j < k ==> i128::MIN <= total_amount * (#[trigger] hs[j]).1 <= i128::MAX,
                recipients@ == airdrop_recipients(hs, total_amount).take(k as int),
            decreases n - k,
        {
            let (holder, h) = self.holders[k];
            let product = match total_amount.checked_mul(h) {
                Some(x) => x,
                None => {
                    assert(!(i128::MIN <= total_amount * hs[k as int].1 <= i128::MAX));
                    return Err(PayError::Overflow);
                },
            };
            let share = if product <= 0 {
                0
            } else {
                proof {
                    assert(0 <= product / total_holdings <= product) by (nonlinear_arith)
                        requires
                            product > 0,
                            total_holdings > 0,
                    ;
                }
                product / total_holdings
            };
            recipients.push((holder, share));
            proof {
                assert(recipients@ =~= airdrop_recipients(hs, total_amount).take(k as int + 1));
            }
            k = k + 1;
        }
        proof {
            assert(recipients@ =~= airdrop_recipients(hs, total_amount));
        }
        if now > u32::MAX - 100 {
            return Err(PayError::Overflow);
        }
        split_now(self, admin, recipients, token, now + 100, now)
    }
}

} // verus!

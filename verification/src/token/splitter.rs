//! Splits: an amount held by the contract and paid out to several recipients
//! by their shares, the last recipient taking the rounding dust.
use vstd::prelude::*;
use crate::sums::value_at;
use crate::token::types::{AccountId, SplitRecipient, SplitRecord, SplitView, TokenError, TokenEvent};
use crate::token::contract::{VeritixToken, TokenModel, sum_bps, valid_recipients, distinct_addresses};
use crate::token::balance::{moved, with_balances, read_balance, move_balance};
use crate::token::dispute::copy_bytes;
use crate::token::validation::require_positive_amount;

verus! {

/// The most recipients a split may have.
pub const MAX_SPLIT_RECIPIENTS: usize = 20;

/// The longest memo a split may carry, in bytes.
pub const MAX_MEMO_LEN: usize = 64;

/// The first problem with the recipients from index `i` on, given that the
/// shares before `i` add up to `acc`: a zero share, an address that comes again
/// later, a sum of shares beyond `u32`, or, at the end, shares that do not make
/// up the whole.
pub open spec fn recipients_error(rs: Seq<SplitRecipient>, i: int, acc: int) -> Option<TokenError>
    decreases rs.len() - i,
{
    if i < 0 || i >= rs.len() {
        if acc != 10000 {
            Some(TokenError::SharesNotWhole)
        } else {
            None
        }
    } else if rs[i].share_bps == 0 {
        Some(TokenError::ZeroShare)
    } else if exists|j: int| i < j < rs.len() && #[trigger] rs[j].address == rs[i].address {
        Some(TokenError::DuplicateRecipient)
    } else if acc + rs[i].share_bps > u32::MAX {
        Some(TokenError::Overflow)
    } else {
        recipients_error(rs, i + 1, acc + rs[i].share_bps)
    }
}

/// Recipients that pass the checks are valid.
proof fn lemma_recipients_ok(rs: Seq<SplitRecipient>, i: int, acc: int)
    requires
        0 <= i <= rs.len(),
        acc == sum_bps(rs, i),
        recipients_error(rs, i, acc) is None,
        forall|j: int| 0 <= j < i ==> (#[trigger] rs[j]).share_bps > 0,
    ensures
        sum_bps(rs, rs.len() as int) == 10000,
        forall|j: int| 0 <= j < rs.len() ==> (#[trigger] rs[j]).share_bps > 0,
        forall|a: int, c: int| i <= a < c < rs.len() ==> (#[trigger] rs[a]).address != (#[trigger] rs[c]).address,
    decreases rs.len() - i,
{
    if i < rs.len() {
        lemma_recipients_ok(rs, i + 1, acc + rs[i].share_bps);
        assert forall|c: int| i < c < rs.len() implies rs[i].address != (#[trigger] rs[c]).address by {
            if rs[c].address == rs[i].address {
                assert(exists|j: int| i < j < rs.len() && #[trigger] rs[j].address == rs[i].address);
            }
        }
    }
}

/// Recipients that list one address at two positions never pass the checks.
proof fn lemma_repeated_address_refused(rs: Seq<SplitRecipient>, k: int, acc: int, i: int, j: int)
    requires
        0 <= k <= i < j < rs.len(),
        rs[i].address == rs[j].address,
    ensures
        recipients_error(rs, k, acc) is Some,
    decreases i - k,
{
    if k < i {
        if rs[k].share_bps != 0 && !(exists|c: int| k < c < rs.len() && #[trigger] rs[c].address == rs[k].address)
            && acc + rs[k].share_bps <= u32::MAX {
            lemma_repeated_address_refused(rs, k + 1, acc + rs[k].share_bps, i, j);
        }
    } else {
        assert(rs[j].address == rs[k].address);
    }
}

/// A split is created only when no address is listed at two positions among
/// its recipients: recipients with a repeated address, wherever the repeats
/// stand, are refused, and the recipients of every created split are
/// pairwise distinct.
pub proof fn law_split_recipients_are_distinct(m: TokenModel, sender: AccountId, rs: Seq<SplitRecipient>, total_amount: i128)
    ensures
        (exists|i: int, j: int| 0 <= i < j < rs.len() && (#[trigger] rs[i]).address == (#[trigger] rs[j]).address)
            ==> create_split_error(m, sender, rs, total_amount) is Some,
        create_split_error(m, sender, rs, total_amount) is None ==> distinct_addresses(rs),
{
    if exists|i: int, j: int| 0 <= i < j < rs.len() && (#[trigger] rs[i]).address == (#[trigger] rs[j]).address {
        let (i, j) = choose|i: int, j: int| 0 <= i < j < rs.len() && (#[trigger] rs[i]).address == (#[trigger] rs[j]).address;
        lemma_repeated_address_refused(rs, 0, 0, i, j);
    }
    if create_split_error(m, sender, rs, total_amount) is None {
        lemma_recipients_ok(rs, 0, 0);
    }
}

/// The first check that creating a split fails, if any.
pub open spec fn create_split_error(m: TokenModel, sender: AccountId, rs: Seq<SplitRecipient>, total_amount: i128) -> Option<TokenError> {
    if total_amount <= 0 {
        Some(TokenError::NonPositiveAmount)
    } else if rs.len() == 0 {
        Some(TokenError::EmptyRecipients)
    } else if rs.len() > MAX_SPLIT_RECIPIENTS {
        Some(TokenError::TooManyRecipients)
    } else if recipients_error(rs, 0, 0) is Some {
        recipients_error(rs, 0, 0)
    } else if m.splits.len() >= u32::MAX {
        Some(TokenError::Overflow)
    } else if m.balance(sender) < total_amount {
        Some(TokenError::InsufficientBalance)
    } else {
        None
    }
}

/// The model after `sender` locks `total_amount` in a new split numbered `id`.
pub open spec fn after_create_split(m: TokenModel, sender: AccountId, rs: Seq<SplitRecipient>, total_amount: i128, memo: Seq<u8>) -> TokenModel {
    let id = (m.splits.len() + 1) as u32;
    TokenModel {
        splits: m.splits.push(SplitView { id, sender, recipients: rs, total_amount, distributed: false, cancelled: false, memo }),
        ..with_balances(m, moved(m.balances, sender, m.contract, total_amount as int))
    }
}

/// Checks the recipients one by one, as `recipients_error` describes.
fn check_recipients(recipients: &Vec<SplitRecipient>) -> (r: Result<(), TokenError>)
    ensures
        match recipients_error(recipients@, 0, 0) {
            Some(e) => r == Err::<(), TokenError>(e),
            None => r is Ok,
        },
{
    let n = recipients.len();
    let mut total_bps: u32 = 0;
    let mut i: usize = 0;
    while i < n
        invariant
            n == recipients@.len(),
            0 <= i <= n,
            recipients_error(recipients@, 0, 0) == recipients_error(recipients@, i as int, total_bps as int),
        decreases n - i,
    {
        let r = recipients[i];
        if r.share_bps == 0 {
            return Err(TokenError::ZeroShare);
        }
        let mut j: usize = i + 1;
        while j < n
            invariant
                n == recipients@.len(),
                i < n,
                r == recipients@[i as int],
                i + 1 <= j <= n,
                r.share_bps != 0,
                recipients_error(recipients@, 0, 0) == recipients_error(recipients@, i as int, total_bps as int),
                forall|k: int| i < k < j ==> (#[trigger] recipients@[k]).address != r.address,
            decreases n - j,
        {
            if r.address == recipients[j].address {
                assert(recipients@[j as int].address == recipients@[i as int].address);
                return Err(TokenError::DuplicateRecipient);
            }
            j = j + 1;
        }
        if total_bps > u32::MAX - r.share_bps {
            return Err(TokenError::Overflow);
        }
        total_bps = total_bps + r.share_bps;
        i = i + 1;
    }
    if total_bps != 10000 {
        return Err(TokenError::SharesNotWhole);
    }
    Ok(())
}

/// A copy of a list of recipients.
fn copy_recipients(v: &Vec<SplitRecipient>) -> (r: Vec<SplitRecipient>)
    ensures
        r@ == v@,
{
    let r = v.clone();
    assert(r@ =~= v@);
    r
}

/// `sender` locks `total_amount` in a new split among `recipients` (the host
/// checks the sender's signature). Splits are numbered from 1.
pub fn create_split(t: &mut VeritixToken, sender: AccountId, recipients: Vec<SplitRecipient>, total_amount: i128) -> (r: Result<u32, TokenError>)
    requires
        old(t).wf(),
    ensures
        final(t).wf(),
        final(t)@.supply_gap() == old(t)@.supply_gap(),
        match create_split_error(old(t)@, sender, recipients@, total_amount) {
            Some(e) => r == Err::<u32, TokenError>(e) && final(t)@ == old(t)@,
            None => r == Ok::<u32, TokenError>((old(t)@.splits.len() + 1) as u32)
                && final(t)@ == after_create_split(old(t)@, sender, recipients@, total_amount, Seq::empty()),
        },
{
    create_split_inner(t, sender, recipients, total_amount, Vec::new())
}

fn create_split_inner(t: &mut VeritixToken, sender: AccountId, recipients: Vec<SplitRecipient>, total_amount: i128, memo: Vec<u8>) -> (r: Result<u32, TokenError>)
    requires
        old(t).wf(),
    ensures
        final(t).wf(),
        final(t)@.supply_gap() == old(t)@.supply_gap(),
        match create_split_error(old(t)@, sender, recipients@, total_amount) {
            Some(e) => r == Err::<u32, TokenError>(e) && final(t)@ == old(t)@,
            None => r == Ok::<u32, TokenError>((old(t)@.splits.len() + 1) as u32)
                && final(t)@ == after_create_split(old(t)@, sender, recipients@, total_amount, memo@),
        },
{
    require_positive_amount(total_amount)?;
    if recipients.len() == 0 {
        return Err(TokenError::EmptyRecipients);
    }
    if recipients.len() > MAX_SPLIT_RECIPIENTS {
        return Err(TokenError::TooManyRecipients);
    }
    check_recipients(&recipients)?;
    if t.splits.len() >= 0xffff_ffffusize {
        return Err(TokenError::Overflow);
    }
    if read_balance(t, sender) < total_amount {
        return Err(TokenError::InsufficientBalance);
    }
    proof {
        lemma_recipients_ok(recipients@, 0, 0);
    }
    let id = (t.splits.len() + 1) as u32;
    let contract = t.contract;
    move_balance(t, sender, contract, total_amount);
    let ghost mid = *t;
    let record = SplitRecord { id, sender, recipients, total_amount, distributed: false, cancelled: false, memo };
    t.splits.push(record);
    proof {
        assert(t@.splits =~= mid@.splits.push(record@));
    }
    Ok(id)
}

/// `create_split`, the split tagged with `memo` (at most 64 bytes) for
/// correlation off the ledger.
pub fn create_split_with_memo(t: &mut VeritixToken, sender: AccountId, recipients: Vec<SplitRecipient>, total_amount: i128, memo: Vec<u8>) -> (r: Result<u32, TokenError>)
    requires
        old(t).wf(),
    ensures
        final(t).wf(),
        final(t)@.supply_gap() == old(t)@.supply_gap(),
        memo@.len() > MAX_MEMO_LEN ==> r == Err::<u32, TokenError>(TokenError::MemoTooLong) && final(t)@ == old(t)@,
        memo@.len() <= MAX_MEMO_LEN ==> match create_split_error(old(t)@, sender, recipients@, total_amount) {
            Some(e) => r == Err::<u32, TokenError>(e) && final(t)@ == old(t)@,
            None => r == Ok::<u32, TokenError>((old(t)@.splits.len() + 1) as u32)
                && final(t)@ == after_create_split(old(t)@, sender, recipients@, total_amount, memo@),
        },
{
    if memo.len() > MAX_MEMO_LEN {
        return Err(TokenError::MemoTooLong);
    }
    create_split_inner(t, sender, recipients, total_amount, memo)
}

/// A copy of a split.
fn copy_split(s: &SplitRecord) -> (r: SplitRecord)
    ensures
        r@ == s@,
{
    SplitRecord {
        id: s.id,
        sender: s.sender,
        recipients: copy_recipients(&s.recipients),
        total_amount: s.total_amount,
        distributed: s.distributed,
        cancelled: s.cancelled,
        memo: copy_bytes(&s.memo),
    }
}

/// Split `split_id`; fails with `SplitNotFound` when there is none.
pub fn get_split(t: &VeritixToken, split_id: u32) -> (r: Result<SplitRecord, TokenError>)
    ensures
        t@.has_split(split_id) ==> r is Ok && r->Ok_0@ == t@.split(split_id),
        !t@.has_split(split_id) ==> r is Err && r->Err_0 == TokenError::SplitNotFound,
{
    if split_id == 0 || split_id as usize > t.splits.len() {
        return Err(TokenError::SplitNotFound);
    }
    Ok(copy_split(&t.splits[split_id as usize - 1]))
}

/// A recipient's share of `total`, rounded down.
pub open spec fn portion(total: int, bps: int) -> int {
    total * bps / 10000
}

/// What the first `k` recipients receive together by their rounded-down shares.
pub open spec fn sum_portions(total: int, rs: Seq<SplitRecipient>, k: int) -> int
    decreases k,
{
    if k <= 0 {
        0
    } else {
        sum_portions(total, rs, k - 1) + portion(total, rs[k - 1].share_bps as int)
    }
}

/// What recipient `i` receives: its share rounded down, or, for the last
/// recipient, all that the others leave.
pub open spec fn payout(total: int, rs: Seq<SplitRecipient>, i: int) -> int {
    if i == rs.len() - 1 {
        total - sum_portions(total, rs, i)
    } else {
        portion(total, rs[i].share_bps as int)
    }
}

/// The balances after `from` has paid the first `k` recipients.
pub open spec fn paid_out(b: Map<AccountId, i128>, from: AccountId, total: int, rs: Seq<SplitRecipient>, k: int) -> Map<AccountId, i128>
    decreases k,
{
    if k <= 0 {
        b
    } else {
        moved(paid_out(b, from, total, rs, k - 1), from, rs[k - 1].address, payout(total, rs, k - 1))
    }
}

/// The first step, from step `k` on, at which paying out fails: a share whose
/// product with the total leaves `i128`, or a payer short of the payout.
pub open spec fn distribution_error(b: Map<AccountId, i128>, from: AccountId, total: int, rs: Seq<SplitRecipient>, k: int) -> Option<TokenError>
    decreases rs.len() - k,
{
    if k < 0 || k >= rs.len() {
        None
    } else if k < rs.len() - 1 && total * rs[k].share_bps > i128::MAX {
        Some(TokenError::Overflow)
    } else if value_at(paid_out(b, from, total, rs, k), from) < payout(total, rs, k) {
        Some(TokenError::InsufficientBalance)
    } else {
        distribution_error(b, from, total, rs, k + 1)
    }
}

/// Rounded-down shares never add up to more than the shares allow:
/// `10000 * sum_portions(k) <= total * sum_bps(k)`.
proof fn lemma_portions_bounded(total: int, rs: Seq<SplitRecipient>, k: int)
    requires
        total > 0,
        0 <= k <= rs.len(),
        forall|j: int| 0 <= j < rs.len() ==> (#[trigger] rs[j]).share_bps > 0,
    ensures
        10000 * sum_portions(total, rs, k) <= total * sum_bps(rs, k),
        sum_portions(total, rs, k) >= 0,
    decreases k,
{
    if k > 0 {
        lemma_portions_bounded(total, rs, k - 1);
        let b = rs[k - 1].share_bps as int;
        assert(rs[k - 1].share_bps > 0);
        assert(10000 * portion(total, b) <= total * b && portion(total, b) >= 0) by (nonlinear_arith)
            requires
                total > 0,
                b > 0,
        ;
        assert(total * sum_bps(rs, k) == total * sum_bps(rs, k - 1) + total * b) by (nonlinear_arith)
            requires
                sum_bps(rs, k) == sum_bps(rs, k - 1) + b,
        ;
    }
}

/// Every payout of a valid split is non-negative, the last included.
pub proof fn lemma_payouts_non_negative(total: int, rs: Seq<SplitRecipient>)
    requires
        total > 0,
        valid_recipients(rs),
    ensures
        forall|i: int| 0 <= i < rs.len() ==> #[trigger] payout(total, rs, i) >= 0,
{
    let last = rs.len() - 1;
    lemma_portions_bounded(total, rs, last);
    assert(sum_bps(rs, last + 1) == sum_bps(rs, last) + rs[last].share_bps);
    assert(rs[last].share_bps > 0);
    assert(sum_bps(rs, last) < 10000);
    assert(total * sum_bps(rs, last) <= total * 10000) by (nonlinear_arith)
        requires
            total > 0,
            sum_bps(rs, last) < 10000,
    ;
    assert forall|i: int| 0 <= i < rs.len() implies #[trigger] payout(total, rs, i) >= 0 by {
        if i < last {
            let b = rs[i].share_bps as int;
            assert(rs[i].share_bps > 0);
            assert(portion(total, b) >= 0) by (nonlinear_arith)
                requires
                    total > 0,
                    b > 0,
            ;
        }
    }
}

/// The payouts of all recipients add up to the split's total: nothing is lost
/// to rounding, the last recipient taking the dust.
pub open spec fn sum_payouts(total: int, rs: Seq<SplitRecipient>, k: int) -> int
    decreases k,
{
    if k <= 0 {
        0
    } else {
        sum_payouts(total, rs, k - 1) + payout(total, rs, k - 1)
    }
}

/// The payouts of a split's recipients add up to exactly its total.
pub proof fn lemma_payouts_add_up(total: int, rs: Seq<SplitRecipient>)
    requires
        rs.len() >= 1,
    ensures
        sum_payouts(total, rs, rs.len() as int) == total,
{
    lemma_sum_payouts_prefix(total, rs, rs.len() - 1);
}

proof fn lemma_sum_payouts_prefix(total: int, rs: Seq<SplitRecipient>, k: int)
    requires
        0 <= k <= rs.len() - 1,
    ensures
        sum_payouts(total, rs, k) == sum_portions(total, rs, k),
    decreases k,
{
    if k > 0 {
        lemma_sum_payouts_prefix(total, rs, k - 1);
    }
}

/// The first check that distributing split `split_id` fails, if any.
pub open spec fn distribute_error(m: TokenModel, caller: AccountId, split_id: u32) -> Option<TokenError> {
    if !m.has_split(split_id) {
        Some(TokenError::SplitNotFound)
    } else {
        let s = m.split(split_id);
        if s.sender != caller {
            Some(TokenError::Unauthorized)
        } else if s.distributed {
            Some(TokenError::AlreadyDistributed)
        } else if s.cancelled {
            Some(TokenError::SplitCancelled)
        } else {
            distribution_error(m.balances, m.contract, s.total_amount as int, s.recipients, 0)
        }
    }
}

/// The model after split `split_id` is paid out and marked distributed.
pub open spec fn after_distribute(m: TokenModel, split_id: u32) -> TokenModel {
    let s = m.split(split_id);
    TokenModel {
        balances: paid_out(m.balances, m.contract, s.total_amount as int, s.recipients, s.recipients.len() as int),
        splits: m.splits.update(split_id - 1, SplitView { distributed: true, ..s }),
        ..m
    }
}

/// The sender pays the split out: each recipient but the last receives its
/// share of the total rounded down, the last receives the rest; the split is
/// then marked distributed.
pub fn distribute(t: &mut VeritixToken, caller: AccountId, split_id: u32) -> (r: Result<TokenEvent, TokenError>)
    requires
        old(t).wf(),
    ensures
        final(t).wf(),
        final(t)@.supply_gap() == old(t)@.supply_gap(),
        match distribute_error(old(t)@, caller, split_id) {
            Some(e) => r == Err::<TokenEvent, TokenError>(e) && final(t)@ == old(t)@,
            None => r == Ok::<TokenEvent, TokenError>(TokenEvent::SplitDistributed {
                split_id,
                sender: caller,
                amount: old(t)@.split(split_id).total_amount,
            }) && final(t)@ == after_distribute(old(t)@, split_id),
        },
{
    if split_id == 0 || split_id as usize > t.splits.len() {
        return Err(TokenError::SplitNotFound);
    }
    let idx = split_id as usize - 1;
    if t.splits[idx].sender != caller {
        return Err(TokenError::Unauthorized);
    }
    if t.splits[idx].distributed {
        return Err(TokenError::AlreadyDistributed);
    }
    if t.splits[idx].cancelled {
        return Err(TokenError::SplitCancelled);
    }
    let total = t.splits[idx].total_amount;
    let rs = copy_recipients(&t.splits[idx].recipients);
    let contract = t.contract;
    let ghost b0 = t.balances@;
    let ghost m0 = t@;
    proof {
        assert(m0.split(split_id).recipients == rs@);
        lemma_payouts_non_negative(total as int, rs@);
        lemma_portions_bounded(total as int, rs@, rs@.len() - 1);
    }
    let n = rs.len();
    // Work out every payout, and that the contract can make each in turn.
    let mut amounts: Vec<i128> = Vec::new();
    let mut held = read_balance(t, contract);
    let mut shared: i128 = 0;
    let mut i: usize = 0;
    while i < n
        invariant
            n == rs@.len(),
            1 <= n <= 20,
            total > 0,
            t@ == m0,
            t.wf(),
            m0 == old(t)@,
            b0 == m0.balances,
            contract == m0.contract,
            m0.has_split(split_id),
            rs@ == m0.split(split_id).recipients,
            total == m0.split(split_id).total_amount,
            distribute_error(m0, caller, split_id) == distribution_error(b0, contract, total as int, rs@, 0),
            valid_recipients(rs@),
            0 <= i <= n,
            amounts@.len() == i,
            forall|j: int| 0 <= j < i ==> amounts@[j] == #[trigger] payout(total as int, rs@, j),
            forall|j: int| 0 <= j < n ==> #[trigger] payout(total as int, rs@, j) >= 0,
            i < n ==> shared == sum_portions(total as int, rs@, i as int),
            10000 * sum_portions(total as int, rs@, n - 1) <= total * sum_bps(rs@, n - 1),
            held == value_at(paid_out(b0, contract, total as int, rs@, i as int), contract),
            distribution_error(b0, contract, total as int, rs@, 0) == distribution_error(b0, contract, total as int, rs@, i as int),
        decreases n - i,
    {
        let r = rs[i];
        let amount = if i == n - 1 {
            proof {
                lemma_portions_bounded(total as int, rs@, i as int);
            }
            total - shared
        } else {
            match total.checked_mul(r.share_bps as i128) {
                Some(x) => x / 10000,
                None => return Err(TokenError::Overflow),
            }
        };
        assert(amount == payout(total as int, rs@, i as int));
        if held < amount {
            return Err(TokenError::InsufficientBalance);
        }
        if r.address != contract {
            held = held - amount;
        }
        if i < n - 1 {
            proof {
                lemma_portions_bounded(total as int, rs@, i as int + 1);
                assert(sum_bps(rs@, i as int + 1) <= sum_bps(rs@, n - 1)) by {
                    lemma_sum_bps_monotone(rs@, i as int + 1, n - 1);
                }
                assert(total * sum_bps(rs@, i as int + 1) <= total * sum_bps(rs@, n - 1)) by (nonlinear_arith)
                    requires
                        total > 0,
                        sum_bps(rs@, i as int + 1) <= sum_bps(rs@, n - 1),
                ;
                assert(sum_bps(rs@, n as int) == sum_bps(rs@, n - 1) + rs@[n - 1].share_bps);
                assert(rs@[n - 1].share_bps > 0);
                let x = sum_portions(total as int, rs@, i as int + 1);
                let sb = sum_bps(rs@, n - 1);
                assert(x <= total) by (nonlinear_arith)
                    requires
                        10000 * x <= total * sb,
                        sb <= 10000,
                        total > 0,
                ;
            }
            shared = shared + amount;
        }
        amounts.push(amount);
        i = i + 1;
    }
    // Pay them.
    let mut k: usize = 0;
    while k < n
        invariant
            n == rs@.len(),
            n == amounts@.len(),
            0 <= k <= n,
            t.wf(),
            m0 == old(t)@,
            b0 == m0.balances,
            contract == m0.contract,
            m0.has_split(split_id),
            rs@ == m0.split(split_id).recipients,
            total == m0.split(split_id).total_amount,
            distribute_error(m0, caller, split_id) == distribution_error(b0, contract, total as int, rs@, 0),
            t.contract == contract,
            forall|j: int| 0 <= j < n ==> amounts@[j] == #[trigger] payout(total as int, rs@, j),
            forall|j: int| 0 <= j < n ==> #[trigger] payout(total as int, rs@, j) >= 0,
            distribution_error(b0, contract, total as int, rs@, 0) is None,
            distribution_error(b0, contract, total as int, rs@, 0) == distribution_error(b0, contract, total as int, rs@, k as int),
            t@ == with_balances(m0, paid_out(b0, contract, total as int, rs@, k as int)),
            crate::sums::total_of(t@.balances) == crate::sums::total_of(b0),
        decreases n - k,
    {
        move_balance(t, contract, rs[k].address, amounts[k]);
        k = k + 1;
    }
    let ghost paid = *t;
    let s = copy_split(&t.splits[idx]);
    t.splits.set(idx, SplitRecord { distributed: true, ..s });
    proof {
        assert(t@.splits =~= paid@.splits.update(idx as int, SplitView { distributed: true, ..m0.split(split_id) }));
    }
    Ok(TokenEvent::SplitDistributed { split_id, sender: caller, amount: total })
}

/// The shares of the first recipients add up to no more than those of more of them.
proof fn lemma_sum_bps_monotone(rs: Seq<SplitRecipient>, a: int, b: int)
    requires
        0 <= a <= b <= rs.len(),
    ensures
        sum_bps(rs, a) <= sum_bps(rs, b),
    decreases b - a,
{
    if a < b {
        lemma_sum_bps_monotone(rs, a, b - 1);
    }
}

/// The first check that cancelling split `split_id` fails, if any.
pub open spec fn cancel_split_error(m: TokenModel, caller: AccountId, split_id: u32) -> Option<TokenError> {
    if !m.has_split(split_id) {
        Some(TokenError::SplitNotFound)
    } else {
        let s = m.split(split_id);
        if s.sender != caller {
            Some(TokenError::Unauthorized)
        } else if s.distributed {
            Some(TokenError::AlreadyDistributed)
        } else if s.cancelled {
            Some(TokenError::AlreadyCancelled)
        } else if m.balance(m.contract) < s.total_amount {
            Some(TokenError::InsufficientBalance)
        } else {
            None
        }
    }
}

/// The sender takes back the whole amount of a split that was not paid out;
/// the split is marked cancelled.
pub fn cancel_split(t: &mut VeritixToken, caller: AccountId, split_id: u32) -> (r: Result<TokenEvent, TokenError>)
    requires
        old(t).wf(),
    ensures
        final(t).wf(),
        final(t)@.supply_gap() == old(t)@.supply_gap(),
        match cancel_split_error(old(t)@, caller, split_id) {
            Some(e) => r == Err::<TokenEvent, TokenError>(e) && final(t)@ == old(t)@,
            None => {
                let s = old(t)@.split(split_id);
                &&& r == Ok::<TokenEvent, TokenError>(TokenEvent::SplitCancelled { split_id, caller, amount: s.total_amount })
                &&& final(t)@ == (TokenModel {
                    splits: old(t)@.splits.update(split_id - 1, SplitView { cancelled: true, ..s }),
                    ..old(t)@.pay_out(caller, s.total_amount as int)
                })
            },
        },
{
    if split_id == 0 || split_id as usize > t.splits.len() {
        return Err(TokenError::SplitNotFound);
    }
    let idx = split_id as usize - 1;
    if t.splits[idx].sender != caller {
        return Err(TokenError::Unauthorized);
    }
    if t.splits[idx].distributed {
        return Err(TokenError::AlreadyDistributed);
    }
    if t.splits[idx].cancelled {
        return Err(TokenError::AlreadyCancelled);
    }
    let total = t.splits[idx].total_amount;
    let contract = t.contract;
    if read_balance(t, contract) < total {
        return Err(TokenError::InsufficientBalance);
    }
    move_balance(t, contract, caller, total);
    let ghost paid = *t;
    let s = copy_split(&t.splits[idx]);
    t.splits.set(idx, SplitRecord { cancelled: true, ..s });
    proof {
        assert(t@.splits =~= paid@.splits.update(idx as int, SplitView { cancelled: true, ..paid@.split(split_id) }));
    }
    Ok(TokenEvent::SplitCancelled { split_id, caller, amount: total })
}

} // verus!

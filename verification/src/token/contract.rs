//! The token contract's state and its entry points.
use vstd::prelude::*;
use std::collections::HashMap;
use std::collections::HashSet;
use crate::sums::{total_of, all_non_negative};
use crate::token::types::{TokenError, TokenEvent};
use crate::token::admin::{admin_check, check_admin, read_admin, transfer_admin};
use crate::token::allowance::{after_spending_allowance, read_allowance, spend_allowance, write_allowance};
use crate::token::balance::{credit, moved, with_balances, read_balance, credit_balance, debit_balance, move_balance, balances_add_up};
use crate::token::validation::{require_positive_amount, require_not_frozen_account};
use crate::token::{escrow, dispute, splitter, recurring};
use crate::token::types::DisputeStatus;
use crate::token::types::{SplitRecipient, AccountId, TokenMetadata, MetadataView, AllowanceValue, EscrowRecord, DisputeRecord, DisputeView, SplitRecord, SplitView, RecurringRecord};

verus! {

broadcast use vstd::std_specs::hash::group_hash_axioms;

/// Everything the token contract keeps in storage.
///
/// Escrows, disputes, splits and recurring payments are numbered from 1 in the
/// order of their creation; the record with number `n` sits at index `n - 1`.
pub struct VeritixToken {
    /// The contract's own account, which holds escrowed and split funds.
    pub contract: AccountId,
    pub admin: Option<AccountId>,
    pub metadata: Option<TokenMetadata>,
    pub balances: HashMap<AccountId, i128>,
    /// The sum of all balances, kept alongside them.
    pub balance_total: i128,
    pub total_supply: i128,
    /// Allowances keyed by `allowance_key(owner, spender)`.
    pub allowances: HashMap<u128, AllowanceValue>,
    pub frozen: HashSet<AccountId>,
    pub escrows: Vec<EscrowRecord>,
    pub disputes: Vec<DisputeRecord>,
    /// The open dispute of each disputed escrow.
    pub escrow_dispute: HashMap<u32, u32>,
    /// Every dispute ever opened on each escrow, oldest first.
    pub dispute_history: HashMap<u32, Vec<u32>>,
    /// The disputes that are still open, oldest first.
    pub open_disputes: Vec<u32>,
    pub splits: Vec<SplitRecord>,
    pub recurrings: Vec<RecurringRecord>,
}

/// The token contract's state as mathematical values.
pub ghost struct TokenModel {
    pub contract: AccountId,
    pub admin: Option<AccountId>,
    pub metadata: Option<MetadataView>,
    pub balances: Map<AccountId, i128>,
    pub total_supply: i128,
    pub allowances: Map<u128, AllowanceValue>,
    pub frozen: Set<AccountId>,
    pub escrows: Seq<EscrowRecord>,
    pub disputes: Seq<DisputeView>,
    pub escrow_dispute: Map<u32, u32>,
    pub dispute_history: Map<u32, Seq<u32>>,
    pub open_disputes: Seq<u32>,
    pub splits: Seq<SplitView>,
    pub recurrings: Seq<RecurringRecord>,
}

impl View for VeritixToken {
    type V = TokenModel;

    open spec fn view(&self) -> TokenModel {
        TokenModel {
            contract: self.contract,
            admin: self.admin,
            metadata: match self.metadata {
                Some(m) => Some(m@),
                None => None,
            },
            balances: self.balances@,
            total_supply: self.total_supply,
            allowances: self.allowances@,
            frozen: self.frozen@,
            escrows: self.escrows@,
            disputes: self.disputes@.map_values(|d: DisputeRecord| d@),
            escrow_dispute: self.escrow_dispute@,
            dispute_history: self.dispute_history@.map_values(|v: Vec<u32>| v@),
            open_disputes: self.open_disputes@,
            splits: self.splits@.map_values(|s: SplitRecord| s@),
            recurrings: self.recurrings@,
        }
    }
}

impl TokenModel {
    /// The balance of an account; an account never credited holds 0.
    pub open spec fn balance(self, a: AccountId) -> int {
        crate::sums::value_at(self.balances, a)
    }

    /// How far the sum of balances lies above the total supply. Every entry
    /// point of the contract keeps this unchanged.
    pub open spec fn supply_gap(self) -> int {
        total_of(self.balances) - self.total_supply
    }

    /// Whether an account is frozen.
    pub open spec fn is_frozen(self, a: AccountId) -> bool {
        self.frozen.contains(a)
    }

    /// Escrow `id` exists.
    pub open spec fn has_escrow(self, id: u32) -> bool {
        1 <= id <= self.escrows.len()
    }

    /// Escrow `id` (meaningful when it exists).
    pub open spec fn escrow(self, id: u32) -> EscrowRecord {
        self.escrows[id - 1]
    }

    /// Dispute `id` exists.
    pub open spec fn has_dispute(self, id: u32) -> bool {
        1 <= id <= self.disputes.len()
    }

    /// Dispute `id` (meaningful when it exists).
    pub open spec fn dispute(self, id: u32) -> DisputeView {
        self.disputes[id - 1]
    }

    /// Split `id` exists.
    pub open spec fn has_split(self, id: u32) -> bool {
        1 <= id <= self.splits.len()
    }

    /// Split `id` (meaningful when it exists).
    pub open spec fn split(self, id: u32) -> SplitView {
        self.splits[id - 1]
    }

    /// Recurring payment `id` exists.
    pub open spec fn has_recurring(self, id: u32) -> bool {
        1 <= id <= self.recurrings.len()
    }

    /// Recurring payment `id` (meaningful when it exists).
    pub open spec fn recurring(self, id: u32) -> RecurringRecord {
        self.recurrings[id - 1]
    }
}

/// The escrow at index `i` carries number `i + 1`, holds a non-negative
/// amount, and a positive one while unsettled.
pub open spec fn escrow_consistent(rec: EscrowRecord, i: int) -> bool {
    &&& rec.id == i + 1
    &&& rec.amount >= 0
    &&& !(rec.released || rec.refunded) ==> rec.amount > 0
}

/// The dispute at index `i` carries number `i + 1` and concerns one of the
/// `escrow_count` escrows.
pub open spec fn dispute_consistent(d: DisputeRecord, i: int, escrow_count: int) -> bool {
    &&& d.id == i + 1
    &&& 1 <= d.escrow_id <= escrow_count
}

/// The recurring payment at index `i` carries number `i + 1`, a positive
/// amount and interval, and distinct payer and payee.
pub open spec fn recurring_consistent(rec: RecurringRecord, i: int) -> bool {
    &&& rec.id == i + 1
    &&& rec.amount > 0
    &&& rec.interval > 0
    &&& rec.payer != rec.payee
}

/// The sum of the shares of the first `k` recipients.
pub open spec fn sum_bps(rs: Seq<SplitRecipient>, k: int) -> int
    decreases k,
{
    if k <= 0 {
        0
    } else {
        sum_bps(rs, k - 1) + rs[k - 1].share_bps
    }
}

/// No address is listed at two positions of `rs`.
pub open spec fn distinct_addresses(rs: Seq<SplitRecipient>) -> bool {
    forall|i: int, j: int| 0 <= i < j < rs.len() ==> (#[trigger] rs[i]).address != (#[trigger] rs[j]).address
}

/// The recipients of a split: between 1 and 20 of them, each with a positive
/// share and a different address, the shares making up the whole (10000
/// basis points).
pub open spec fn valid_recipients(rs: Seq<SplitRecipient>) -> bool {
    &&& 1 <= rs.len() <= 20
    &&& forall|j: int| 0 <= j < rs.len() ==> (#[trigger] rs[j]).share_bps > 0
    &&& distinct_addresses(rs)
    &&& sum_bps(rs, rs.len() as int) == 10000
}

/// The split at index `i` carries number `i + 1`, a positive total and valid recipients.
pub open spec fn split_consistent(s: SplitView, i: int) -> bool {
    &&& s.id == i + 1
    &&& s.total_amount > 0
    &&& valid_recipients(s.recipients)
}

/// Whether `rs` are valid split recipients.
fn recipients_valid(rs: &Vec<SplitRecipient>) -> (b: bool)
    ensures
        b == valid_recipients(rs@),
{
    if rs.len() == 0 || rs.len() > 20 {
        return false;
    }
    let mut total: u32 = 0;
    let mut i: usize = 0;
    while i < rs.len()
        invariant
            1 <= rs@.len() <= 20,
            0 <= i <= rs@.len(),
            forall|j: int| 0 <= j < i ==> (#[trigger] rs@[j]).share_bps > 0,
            total == sum_bps(rs@, i as int),
            total <= 10000,
        decreases rs@.len() - i,
    {
        let b = rs[i].share_bps;
        if b == 0 {
            return false;
        }
        if b > 10000 - total {
            proof {
                lemma_sum_bps_grows(rs@, i as int + 1, rs@.len() as int);
            }
            return false;
        }
        total = total + b;
        i = i + 1;
    }
    if total != 10000 {
        return false;
    }
    let n = rs.len();
    let mut i: usize = 0;
    while i < n
        invariant
            n == rs@.len(),
            0 <= i <= n,
            forall|a: int, c: int| 0 <= a < i && a < c < n ==> (#[trigger] rs@[a]).address != (#[trigger] rs@[c]).address,
        decreases n - i,
    {
        let mut j: usize = i + 1;
        while j < n
            invariant
                n == rs@.len(),
                0 <= i < n,
                i + 1 <= j <= n,
                forall|a: int, c: int| 0 <= a < i && a < c < n ==> (#[trigger] rs@[a]).address != (#[trigger] rs@[c]).address,
                forall|c: int| i < c < j ==> rs@[i as int].address != (#[trigger] rs@[c]).address,
            decreases n - j,
        {
            if rs[i].address == rs[j].address {
                assert(!distinct_addresses(rs@));
                return false;
            }
            j = j + 1;
        }
        i = i + 1;
    }
    true
}

/// With positive shares, the sum of the first `a` shares is at most that of the first `b`.
proof fn lemma_sum_bps_grows(rs: Seq<SplitRecipient>, a: int, b: int)
    requires
        0 <= a <= b <= rs.len(),
        forall|j: int| 0 <= j < a ==> (#[trigger] rs[j]).share_bps > 0,
    ensures
        sum_bps(rs, a) <= sum_bps(rs, b),
    decreases b - a,
{
    if a < b {
        lemma_sum_bps_grows(rs, a, b - 1);
    }
}

impl VeritixToken {
    /// The state is consistent: balances are non-negative and their sum is
    /// the one kept alongside them, and every record carries its own number.
    pub open spec fn wf(&self) -> bool {
        &&& all_non_negative(self.balances@)
        &&& self.balance_total == total_of(self.balances@)
        &&& self.escrows@.len() <= u32::MAX
        &&& self.disputes@.len() <= u32::MAX
        &&& self.splits@.len() <= u32::MAX
        &&& self.recurrings@.len() <= u32::MAX
        &&& forall|i: int| 0 <= i < self.escrows@.len() ==> escrow_consistent(#[trigger] self.escrows@[i], i)
        &&& forall|i: int|
            0 <= i < self.disputes@.len() ==> dispute_consistent(#[trigger] self.disputes@[i], i, self.escrows@.len() as int)
        &&& forall|i: int| 0 <= i < self.splits@.len() ==> split_consistent((#[trigger] self.splits@[i])@, i)
        &&& forall|i: int|
            0 <= i < self.recurrings@.len() ==> recurring_consistent(#[trigger] self.recurrings@[i], i)
    }

    /// Whether the state is consistent (`wf`), for a caller that holds a
    /// state it did not get from this library.
    pub fn is_consistent(&self) -> (b: bool)
        ensures
            b == self.wf(),
    {
        if !balances_add_up(&self.balances, self.balance_total) {
            return false;
        }
        if self.escrows.len() > 0xffff_ffffusize || self.disputes.len() > 0xffff_ffffusize
            || self.splits.len() > 0xffff_ffffusize || self.recurrings.len() > 0xffff_ffffusize {
            return false;
        }
        let mut i: usize = 0;
        while i < self.escrows.len()
            invariant
                0 <= i <= self.escrows@.len(),
                forall|j: int| 0 <= j < i ==> escrow_consistent(#[trigger] self.escrows@[j], j),
            decreases self.escrows@.len() - i,
        {
            let rec = &self.escrows[i];
            if rec.id as usize != i + 1 || rec.amount < 0 || (!(rec.released || rec.refunded) && rec.amount == 0) {
                assert(!escrow_consistent(self.escrows@[i as int], i as int));
                return false;
            }
            i = i + 1;
        }
        let n = self.escrows.len();
        let mut i: usize = 0;
        while i < self.disputes.len()
            invariant
                n == self.escrows@.len(),
                0 <= i <= self.disputes@.len(),
                forall|j: int| 0 <= j < i ==> dispute_consistent(#[trigger] self.disputes@[j], j, n as int),
            decreases self.disputes@.len() - i,
        {
            let d = &self.disputes[i];
            if d.id as usize != i + 1 || d.escrow_id == 0 || d.escrow_id as usize > n {
                assert(!dispute_consistent(self.disputes@[i as int], i as int, n as int));
                return false;
            }
            i = i + 1;
        }
        let mut i: usize = 0;
        while i < self.splits.len()
            invariant
                0 <= i <= self.splits@.len(),
                forall|j: int| 0 <= j < i ==> split_consistent((#[trigger] self.splits@[j])@, j),
            decreases self.splits@.len() - i,
        {
            let sp = &self.splits[i];
            if sp.id as usize != i + 1 || sp.total_amount <= 0 || !recipients_valid(&sp.recipients) {
                assert(!split_consistent(self.splits@[i as int]@, i as int));
                return false;
            }
            i = i + 1;
        }
        let mut i: usize = 0;
        while i < self.recurrings.len()
            invariant
                0 <= i <= self.recurrings@.len(),
                forall|j: int| 0 <= j < i ==> recurring_consistent(#[trigger] self.recurrings@[j], j),
            decreases self.recurrings@.len() - i,
        {
            let rec = &self.recurrings[i];
            if rec.id as usize != i + 1 || rec.amount <= 0 || rec.interval == 0 || rec.payer == rec.payee {
                assert(!recurring_consistent(self.recurrings@[i as int], i as int));
                return false;
            }
            i = i + 1;
        }
        true
    }

    /// A fresh contract with no admin, balances or records; `contract` is its own account.
    pub fn new(contract: AccountId) -> (t: Self)
        ensures
            t.wf(),
            t@.contract == contract,
            t@.admin is None,
            t@.metadata is None,
            t@.balances == Map::<AccountId, i128>::empty(),
            t@.total_supply == 0,
            t@.supply_gap() == 0,
            t@.allowances == Map::<u128, AllowanceValue>::empty(),
            t@.frozen == Set::<AccountId>::empty(),
            t@.escrows.len() == 0,
            t@.disputes.len() == 0,
            t@.escrow_dispute == Map::<u32, u32>::empty(),
            t@.dispute_history == Map::<u32, Seq<u32>>::empty(),
            t@.open_disputes.len() == 0,
            t@.splits.len() == 0,
            t@.recurrings.len() == 0,
    {
        let t = VeritixToken {
            contract,
            admin: None,
            metadata: None,
            balances: HashMap::new(),
            balance_total: 0,
            total_supply: 0,
            allowances: HashMap::new(),
            frozen: HashSet::new(),
            escrows: Vec::new(),
            disputes: Vec::new(),
            escrow_dispute: HashMap::new(),
            dispute_history: HashMap::new(),
            open_disputes: Vec::new(),
            splits: Vec::new(),
            recurrings: Vec::new(),
        };
        assert(t.balances@ =~= Map::empty());
        assert(t@.dispute_history =~= Map::empty());
        t
    }
}


/// The first check that `initialize` fails, if any.
pub open spec fn initialize_error(m: TokenModel, decimal: u32) -> Option<TokenError> {
    if m.admin is Some {
        Some(TokenError::AlreadyInitialized)
    } else if decimal > 255 {
        Some(TokenError::InvalidDecimal)
    } else {
        None
    }
}

/// The first check that minting `amount` to `to` fails, if any.
pub open spec fn mint_error(m: TokenModel, admin: AccountId, amount: i128) -> Option<TokenError> {
    if admin_check(m, admin) is Some {
        admin_check(m, admin)
    } else if amount <= 0 {
        Some(TokenError::NonPositiveAmount)
    } else if total_of(m.balances) + amount > i128::MAX || m.total_supply + amount > i128::MAX {
        Some(TokenError::Overflow)
    } else {
        None
    }
}

/// The first check that taking `amount` from `from` and destroying it fails, once
/// the caller has been admitted.
pub open spec fn destroy_error(m: TokenModel, from: AccountId, amount: i128) -> Option<TokenError> {
    if amount <= 0 {
        Some(TokenError::NonPositiveAmount)
    } else if m.balance(from) < amount {
        Some(TokenError::InsufficientBalance)
    } else if m.total_supply - amount < i128::MIN {
        Some(TokenError::Overflow)
    } else {
        None
    }
}

/// The first check that a clawback fails, if any.
pub open spec fn clawback_error(m: TokenModel, admin: AccountId, from: AccountId, amount: i128) -> Option<TokenError> {
    if admin_check(m, admin) is Some {
        admin_check(m, admin)
    } else {
        destroy_error(m, from, amount)
    }
}

/// The first check that burning fails, if any.
pub open spec fn burn_error(m: TokenModel, from: AccountId, amount: i128) -> Option<TokenError> {
    if m.is_frozen(from) {
        Some(TokenError::AccountFrozen)
    } else {
        destroy_error(m, from, amount)
    }
}

/// The model after `amount` is taken from `from` and destroyed.
pub open spec fn destroyed(m: TokenModel, from: AccountId, amount: i128) -> TokenModel {
    TokenModel {
        balances: credit(m.balances, from, -amount),
        total_supply: (m.total_supply - amount) as i128,
        ..m
    }
}

/// The first check that a spender's burn fails, if any.
pub open spec fn burn_from_error(m: TokenModel, spender: AccountId, from: AccountId, amount: i128, now: u32) -> Option<TokenError> {
    if m.is_frozen(from) {
        Some(TokenError::AccountFrozen)
    } else if amount <= 0 {
        Some(TokenError::NonPositiveAmount)
    } else if m.allowance_at(from, spender, now).amount < amount {
        Some(TokenError::InsufficientAllowance)
    } else {
        destroy_error(m, from, amount)
    }
}

/// The first check that a transfer fails, if any.
pub open spec fn transfer_error(m: TokenModel, from: AccountId, amount: i128) -> Option<TokenError> {
    if m.is_frozen(from) {
        Some(TokenError::AccountFrozen)
    } else if amount <= 0 {
        Some(TokenError::NonPositiveAmount)
    } else if m.balance(from) < amount {
        Some(TokenError::InsufficientBalance)
    } else {
        None
    }
}

/// The first check that a spender's transfer fails, if any.
pub open spec fn transfer_from_error(m: TokenModel, spender: AccountId, from: AccountId, amount: i128, now: u32) -> Option<TokenError> {
    if m.is_frozen(from) || m.is_frozen(spender) {
        Some(TokenError::AccountFrozen)
    } else if amount <= 0 {
        Some(TokenError::NonPositiveAmount)
    } else if m.allowance_at(from, spender, now).amount < amount {
        Some(TokenError::InsufficientAllowance)
    } else if m.balance(from) < amount {
        Some(TokenError::InsufficientBalance)
    } else {
        None
    }
}

/// The first check that an approval fails, if any.
pub open spec fn approve_error(m: TokenModel, from: AccountId, amount: i128, expiration_ledger: u32, now: u32) -> Option<TokenError> {
    if m.is_frozen(from) {
        Some(TokenError::AccountFrozen)
    } else if amount > 0 && expiration_ledger < now {
        Some(TokenError::AllowanceExpiryInPast)
    } else {
        None
    }
}

impl VeritixToken {
    /// Sets the administrator and the metadata, once; the host checks the
    /// administrator's signature.
    pub fn initialize(&mut self, admin: AccountId, name: String, symbol: String, decimal: u32) -> (r: Result<(), TokenError>)
        requires
            old(self).wf(),
        ensures
            final(self).wf(),
            match initialize_error(old(self)@, decimal) {
                Some(e) => r == Err::<(), TokenError>(e) && final(self)@ == old(self)@,
                None => r is Ok && final(self)@ == (TokenModel {
                    admin: Some(admin),
                    metadata: Some(MetadataView { name: name@, symbol: symbol@, decimal }),
                    ..old(self)@
                }),
            },
    {
        if self.admin.is_some() {
            return Err(TokenError::AlreadyInitialized);
        }
        let meta = TokenMetadata { name, symbol, decimal };
        crate::token::metadata::validate_metadata(&meta)?;
        crate::token::admin::write_admin(self, admin);
        crate::token::metadata::write_metadata(self, meta);
        Ok(())
    }

    /// Hands the administrator role to `new_admin`, returning the previous
    /// administrator, whose signature the host checks.
    pub fn set_admin(&mut self, new_admin: AccountId) -> (r: Result<AccountId, TokenError>)
        requires
            old(self).wf(),
        ensures
            final(self).wf(),
            match old(self)@.admin {
                Some(a) => r == Ok::<AccountId, TokenError>(a) && final(self)@ == (TokenModel { admin: Some(new_admin), ..old(self)@ }),
                None => r == Err::<AccountId, TokenError>(TokenError::NotInitialized) && final(self)@ == old(self)@,
            },
    {
        transfer_admin(self, new_admin)
    }

    /// The administrator takes `amount` from `from` and destroys it.
    pub fn clawback(&mut self, admin: AccountId, from: AccountId, amount: i128) -> (r: Result<TokenEvent, TokenError>)
        requires
            old(self).wf(),
        ensures
            final(self).wf(),
            final(self)@.supply_gap() == old(self)@.supply_gap(),
            match clawback_error(old(self)@, admin, from, amount) {
                Some(e) => r == Err::<TokenEvent, TokenError>(e) && final(self)@ == old(self)@,
                None => r == Ok::<TokenEvent, TokenError>(TokenEvent::Clawback { admin, from, amount })
                    && final(self)@ == destroyed(old(self)@, from, amount),
            },
    {
        check_admin(self, admin)?;
        require_positive_amount(amount)?;
        if read_balance(self, from) < amount {
            return Err(TokenError::InsufficientBalance);
        }
        if self.total_supply < i128::MIN + amount {
            return Err(TokenError::Overflow);
        }
        debit_balance(self, from, amount);
        self.total_supply = self.total_supply - amount;
        Ok(TokenEvent::Clawback { admin, from, amount })
    }

    /// The administrator freezes `target`.
    pub fn freeze(&mut self, target: AccountId) -> (r: Result<TokenEvent, TokenError>)
        requires
            old(self).wf(),
        ensures
            final(self).wf(),
            match old(self)@.admin {
                Some(a) => r == Ok::<TokenEvent, TokenError>(TokenEvent::Frozen { target, admin: a })
                    && final(self)@ == (TokenModel { frozen: old(self)@.frozen.insert(target), ..old(self)@ }),
                None => r == Err::<TokenEvent, TokenError>(TokenError::NotInitialized) && final(self)@ == old(self)@,
            },
    {
        let admin = read_admin(self)?;
        check_admin(self, admin)?;
        Ok(crate::token::freeze::freeze_account(self, admin, target))
    }

    /// The administrator unfreezes `target`.
    pub fn unfreeze(&mut self, target: AccountId) -> (r: Result<TokenEvent, TokenError>)
        requires
            old(self).wf(),
        ensures
            final(self).wf(),
            match old(self)@.admin {
                Some(a) => r == Ok::<TokenEvent, TokenError>(TokenEvent::Unfrozen { target, admin: a })
                    && final(self)@ == (TokenModel { frozen: old(self)@.frozen.remove(target), ..old(self)@ }),
                None => r == Err::<TokenEvent, TokenError>(TokenError::NotInitialized) && final(self)@ == old(self)@,
            },
    {
        let admin = read_admin(self)?;
        check_admin(self, admin)?;
        Ok(crate::token::freeze::unfreeze_account(self, admin, target))
    }

    /// The administrator creates `amount` new tokens for `to`.
    pub fn mint(&mut self, admin: AccountId, to: AccountId, amount: i128) -> (r: Result<TokenEvent, TokenError>)
        requires
            old(self).wf(),
        ensures
            final(self).wf(),
            final(self)@.supply_gap() == old(self)@.supply_gap(),
            match mint_error(old(self)@, admin, amount) {
                Some(e) => r == Err::<TokenEvent, TokenError>(e) && final(self)@ == old(self)@,
                None => r == Ok::<TokenEvent, TokenError>(TokenEvent::Mint { admin, to, amount })
                    && final(self)@ == (TokenModel {
                        balances: credit(old(self)@.balances, to, amount as int),
                        total_supply: (old(self)@.total_supply + amount) as i128,
                        ..old(self)@
                    }),
            },
    {
        check_admin(self, admin)?;
        require_positive_amount(amount)?;
        if self.balance_total > i128::MAX - amount || self.total_supply > i128::MAX - amount {
            return Err(TokenError::Overflow);
        }
        credit_balance(self, to, amount);
        self.total_supply = self.total_supply + amount;
        Ok(TokenEvent::Mint { admin, to, amount })
    }

    /// `from` destroys `amount` of its own tokens.
    pub fn burn(&mut self, from: AccountId, amount: i128) -> (r: Result<TokenEvent, TokenError>)
        requires
            old(self).wf(),
        ensures
            final(self).wf(),
            final(self)@.supply_gap() == old(self)@.supply_gap(),
            match burn_error(old(self)@, from, amount) {
                Some(e) => r == Err::<TokenEvent, TokenError>(e) && final(self)@ == old(self)@,
                None => r == Ok::<TokenEvent, TokenError>(TokenEvent::Burn { from, amount })
                    && final(self)@ == destroyed(old(self)@, from, amount),
            },
    {
        require_not_frozen_account(self, &from)?;
        require_positive_amount(amount)?;
        if read_balance(self, from) < amount {
            return Err(TokenError::InsufficientBalance);
        }
        if self.total_supply < i128::MIN + amount {
            return Err(TokenError::Overflow);
        }
        debit_balance(self, from, amount);
        self.total_supply = self.total_supply - amount;
        Ok(TokenEvent::Burn { from, amount })
    }

    /// `spender` destroys `amount` of the tokens of `from` out of its allowance.
    pub fn burn_from(&mut self, spender: AccountId, from: AccountId, amount: i128, now: u32) -> (r: Result<TokenEvent, TokenError>)
        requires
            old(self).wf(),
        ensures
            final(self).wf(),
            final(self)@.supply_gap() == old(self)@.supply_gap(),
            match burn_from_error(old(self)@, spender, from, amount, now) {
                Some(e) => r == Err::<TokenEvent, TokenError>(e) && final(self)@ == old(self)@,
                None => r == Ok::<TokenEvent, TokenError>(TokenEvent::BurnFrom { spender, from, amount })
                    && final(self)@ == destroyed(after_spending_allowance(old(self)@, from, spender, amount, now), from, amount),
            },
    {
        require_not_frozen_account(self, &from)?;
        require_positive_amount(amount)?;
        let a = read_allowance(self, from, spender, now);
        if a.amount < amount {
            return Err(TokenError::InsufficientAllowance);
        }
        if read_balance(self, from) < amount {
            return Err(TokenError::InsufficientBalance);
        }
        if self.total_supply < i128::MIN + amount {
            return Err(TokenError::Overflow);
        }
        let _ = spend_allowance(self, from, spender, amount, now);
        debit_balance(self, from, amount);
        self.total_supply = self.total_supply - amount;
        Ok(TokenEvent::BurnFrom { spender, from, amount })
    }

    /// `from` sends `amount` to `to`.
    pub fn transfer(&mut self, from: AccountId, to: AccountId, amount: i128) -> (r: Result<TokenEvent, TokenError>)
        requires
            old(self).wf(),
        ensures
            final(self).wf(),
            final(self)@.supply_gap() == old(self)@.supply_gap(),
            match transfer_error(old(self)@, from, amount) {
                Some(e) => r == Err::<TokenEvent, TokenError>(e) && final(self)@ == old(self)@,
                None => r == Ok::<TokenEvent, TokenError>(TokenEvent::Transfer { from, to, amount })
                    && final(self)@ == with_balances(old(self)@, moved(old(self)@.balances, from, to, amount as int)),
            },
    {
        require_not_frozen_account(self, &from)?;
        require_positive_amount(amount)?;
        if read_balance(self, from) < amount {
            return Err(TokenError::InsufficientBalance);
        }
        move_balance(self, from, to, amount);
        Ok(TokenEvent::Transfer { from, to, amount })
    }

    /// `spender` sends `amount` of the tokens of `from` to `to` out of its allowance.
    pub fn transfer_from(&mut self, spender: AccountId, from: AccountId, to: AccountId, amount: i128, now: u32) -> (r: Result<TokenEvent, TokenError>)
        requires
            old(self).wf(),
        ensures
            final(self).wf(),
            final(self)@.supply_gap() == old(self)@.supply_gap(),
            match transfer_from_error(old(self)@, spender, from, amount, now) {
                Some(e) => r == Err::<TokenEvent, TokenError>(e) && final(self)@ == old(self)@,
                None => r == Ok::<TokenEvent, TokenError>(TokenEvent::Transfer { from, to, amount })
                    && final(self)@ == with_balances(
                        after_spending_allowance(old(self)@, from, spender, amount, now),
                        moved(old(self)@.balances, from, to, amount as int),
                    ),
            },
    {
        require_not_frozen_account(self, &from)?;
        require_not_frozen_account(self, &spender)?;
        require_positive_amount(amount)?;
        let a = read_allowance(self, from, spender, now);
        if a.amount < amount {
            return Err(TokenError::InsufficientAllowance);
        }
        if read_balance(self, from) < amount {
            return Err(TokenError::InsufficientBalance);
        }
        let _ = spend_allowance(self, from, spender, amount, now);
        move_balance(self, from, to, amount);
        Ok(TokenEvent::Transfer { from, to, amount })
    }

    /// `from` lets `spender` use `amount` of its tokens until ledger `expiration_ledger`.
    pub fn approve(&mut self, from: AccountId, spender: AccountId, amount: i128, expiration_ledger: u32, now: u32) -> (r: Result<TokenEvent, TokenError>)
        requires
            old(self).wf(),
        ensures
            final(self).wf(),
            match approve_error(old(self)@, from, amount, expiration_ledger, now) {
                Some(e) => r == Err::<TokenEvent, TokenError>(e) && final(self)@ == old(self)@,
                None => r == Ok::<TokenEvent, TokenError>(TokenEvent::Approve { from, spender, amount })
                    && final(self)@ == old(self)@.with_allowance(from, spender, AllowanceValue { amount, expiration_ledger }),
            },
    {
        require_not_frozen_account(self, &from)?;
        write_allowance(self, from, spender, amount, expiration_ledger, now)?;
        Ok(TokenEvent::Approve { from, spender, amount })
    }

    /// The total supply.
    pub fn total_supply(&self) -> (r: i128)
        ensures
            r == self@.total_supply,
    {
        self.total_supply
    }

    /// The balance of `id`.
    pub fn balance(&self, id: AccountId) -> (r: i128)
        ensures
            r == self@.balance(id),
    {
        read_balance(self, id)
    }

    /// What `spender` may still take from `from` on ledger `now`.
    pub fn allowance(&self, from: AccountId, spender: AccountId, now: u32) -> (r: i128)
        ensures
            r == self@.allowance_at(from, spender, now).amount,
    {
        read_allowance(self, from, spender, now).amount
    }

    /// The administrator; fails with `NotInitialized` before initialization.
    pub fn admin(&self) -> (r: Result<AccountId, TokenError>)
        ensures
            match self@.admin {
                Some(a) => r == Ok::<AccountId, TokenError>(a),
                None => r == Err::<AccountId, TokenError>(TokenError::NotInitialized),
            },
    {
        read_admin(self)
    }

    /// Whether `id` is frozen.
    pub fn is_frozen(&self, id: AccountId) -> (r: bool)
        ensures
            r == self@.is_frozen(id),
    {
        crate::token::freeze::is_frozen(self, &id)
    }

    /// The decimal precision; fails with `NotInitialized` before initialization.
    pub fn decimals(&self) -> (r: Result<u32, TokenError>)
        ensures
            match self@.metadata {
                Some(m) => r == Ok::<u32, TokenError>(m.decimal),
                None => r == Err::<u32, TokenError>(TokenError::NotInitialized),
            },
    {
        crate::token::metadata::read_decimal(self)
    }

    /// The name; fails with `NotInitialized` before initialization.
    pub fn name(&self) -> (r: Result<String, TokenError>)
        ensures
            match self@.metadata {
                Some(m) => r is Ok && r->Ok_0@ == m.name,
                None => r == Err::<String, TokenError>(TokenError::NotInitialized),
            },
    {
        crate::token::metadata::read_name(self)
    }

    /// The symbol; fails with `NotInitialized` before initialization.
    pub fn symbol(&self) -> (r: Result<String, TokenError>)
        ensures
            match self@.metadata {
                Some(m) => r is Ok && r->Ok_0@ == m.symbol,
                None => r == Err::<String, TokenError>(TokenError::NotInitialized),
            },
    {
        crate::token::metadata::read_symbol(self)
    }
}

/// The counters the contract keeps: how many records of each kind exist.
#[derive(Debug, Clone, Copy, PartialEq, Eq, Structural)]
pub enum DataKey {
    EscrowCount,
    DisputeCount,
    SplitCount,
    RecurringCount,
}

/// The value of counter `key`: the number of records of its kind, which is
/// also the number of the latest one.
pub fn read_counter(t: &VeritixToken, key: &DataKey) -> (r: u32)
    requires
        t.wf(),
    ensures
        r == match *key {
            DataKey::EscrowCount => t@.escrows.len(),
            DataKey::DisputeCount => t@.disputes.len(),
            DataKey::SplitCount => t@.splits.len(),
            DataKey::RecurringCount => t@.recurrings.len(),
        },
{
    match key {
        DataKey::EscrowCount => t.escrows.len() as u32,
        DataKey::DisputeCount => t.disputes.len() as u32,
        DataKey::SplitCount => t.splits.len() as u32,
        DataKey::RecurringCount => t.recurrings.len() as u32,
    }
}

impl VeritixToken {
    /// `escrow::create_escrow`.
    pub fn create_escrow(&mut self, depositor: AccountId, beneficiary: AccountId, amount: i128, expiry_ledger: u32, now: u32) -> (r: Result<(u32, TokenEvent), TokenError>)
        requires
            old(self).wf(),
        ensures
            final(self).wf(),
            final(self)@.supply_gap() == old(self)@.supply_gap(),
            match escrow::create_escrow_error(old(self)@, depositor, beneficiary, amount, expiry_ledger, now) {
                Some(e) => r == Err::<(u32, TokenEvent), TokenError>(e) && final(self)@ == old(self)@,
                None => {
                    let id = (old(self)@.escrows.len() + 1) as u32;
                    &&& r == Ok::<(u32, TokenEvent), TokenError>((id, TokenEvent::EscrowCreated { escrow_id: id, depositor, beneficiary, amount }))
                    &&& final(self)@ == (TokenModel {
                        escrows: old(self)@.escrows.push(escrow::new_escrow(id, depositor, beneficiary, amount, expiry_ledger)),
                        ..with_balances(old(self)@, moved(old(self)@.balances, depositor, old(self)@.contract, amount as int))
                    })
                },
            },
    {
        escrow::create_escrow(self, depositor, beneficiary, amount, expiry_ledger, now)
    }

    /// The beneficiary takes all that remains of the escrow (`escrow::release_escrow`).
    pub fn release_escrow(&mut self, caller: AccountId, escrow_id: u32) -> (r: Result<TokenEvent, TokenError>)
        requires
            old(self).wf(),
        ensures
            final(self).wf(),
            final(self)@.supply_gap() == old(self)@.supply_gap(),
            match escrow::release_error(old(self)@, caller, escrow_id, None) {
                Some(e) => r == Err::<TokenEvent, TokenError>(e) && final(self)@ == old(self)@,
                None => {
                    let rec = old(self)@.escrow(escrow_id);
                    &&& r == Ok::<TokenEvent, TokenError>(TokenEvent::EscrowReleased { escrow_id, to: rec.beneficiary, amount: rec.amount })
                    &&& final(self)@ == old(self)@.pay_out(rec.beneficiary, rec.amount as int).with_escrow(escrow_id, escrow::after_release(rec, rec.amount as int))
                },
            },
    {
        escrow::release_escrow(self, caller, escrow_id, None)
    }

    /// `escrow::refund_escrow`.
    pub fn refund_escrow(&mut self, caller: AccountId, escrow_id: u32, now: u32) -> (r: Result<TokenEvent, TokenError>)
        requires
            old(self).wf(),
        ensures
            final(self).wf(),
            final(self)@.supply_gap() == old(self)@.supply_gap(),
            match escrow::refund_error(old(self)@, caller, escrow_id, now) {
                Some(e) => r == Err::<TokenEvent, TokenError>(e) && final(self)@ == old(self)@,
                None => {
                    let rec = old(self)@.escrow(escrow_id);
                    &&& r == Ok::<TokenEvent, TokenError>(TokenEvent::EscrowRefunded { escrow_id, to: rec.depositor, amount: rec.amount })
                    &&& final(self)@ == old(self)@.pay_out(rec.depositor, rec.amount as int).with_escrow(escrow_id, EscrowRecord { refunded: true, ..rec })
                },
            },
    {
        escrow::refund_escrow(self, caller, escrow_id, now)
    }

    /// Escrow `escrow_id`; fails with `EscrowNotFound` when there is none.
    pub fn get_escrow(&self, escrow_id: u32) -> (r: Result<EscrowRecord, TokenError>)
        ensures
            self@.has_escrow(escrow_id) ==> r == Ok::<EscrowRecord, TokenError>(self@.escrow(escrow_id)),
            !self@.has_escrow(escrow_id) ==> r == Err::<EscrowRecord, TokenError>(TokenError::EscrowNotFound),
    {
        escrow::get_escrow(self, escrow_id)
    }

    /// How many escrows have been created.
    pub fn escrow_count(&self) -> (r: u32)
        requires
            self.wf(),
        ensures
            r == self@.escrows.len(),
    {
        read_counter(self, &DataKey::EscrowCount)
    }

    /// `dispute::open_dispute`.
    pub fn open_dispute(&mut self, claimant: AccountId, escrow_id: u32, resolver: AccountId, evidence: Vec<u8>, expiry_ledger: u32, now: u32) -> (r: Result<(u32, TokenEvent), TokenError>)
        requires
            old(self).wf(),
        ensures
            final(self).wf(),
            final(self)@.supply_gap() == old(self)@.supply_gap(),
            match dispute::open_dispute_error(old(self)@, claimant, escrow_id, resolver, evidence@, expiry_ledger, now) {
                Some(e) => r == Err::<(u32, TokenEvent), TokenError>(e) && final(self)@ == old(self)@,
                None => {
                    let id = (old(self)@.disputes.len() + 1) as u32;
                    &&& r is Ok
                    &&& r->Ok_0.0 == id
                    &&& r->Ok_0.1 matches TokenEvent::DisputeOpened { escrow_id: eid, claimant: c, evidence: ev }
                        && eid == escrow_id && c == claimant && ev@ == evidence@
                    &&& final(self)@ == dispute::after_open(old(self)@, DisputeView {
                        id,
                        escrow_id,
                        claimant,
                        resolver,
                        status: DisputeStatus::Open,
                        evidence: evidence@,
                        opened_at_ledger: now,
                        expiry_ledger,
                        resolution_note: Seq::empty(),
                    })
                },
            },
    {
        dispute::open_dispute(self, claimant, escrow_id, resolver, evidence, expiry_ledger, now)
    }

    /// `dispute::resolve_dispute`.
    pub fn resolve_dispute(&mut self, resolver: AccountId, dispute_id: u32, release_to_beneficiary: bool) -> (r: Result<(TokenEvent, TokenEvent), TokenError>)
        requires
            old(self).wf(),
        ensures
            final(self).wf(),
            final(self)@.supply_gap() == old(self)@.supply_gap(),
            match dispute::resolve_error(old(self)@, resolver, dispute_id) {
                Some(e) => r == Err::<(TokenEvent, TokenEvent), TokenError>(e) && final(self)@ == old(self)@,
                None => r == Ok::<(TokenEvent, TokenEvent), TokenError>((
                    dispute::settle_event(old(self)@, old(self)@.dispute(dispute_id).escrow_id, release_to_beneficiary),
                    TokenEvent::DisputeResolved { dispute_id, resolver, release_to_beneficiary },
                )) && final(self)@ == dispute::after_close(old(self)@, dispute_id, release_to_beneficiary, dispute::resolution_status(release_to_beneficiary), old(self)@.dispute(dispute_id).resolution_note),
            },
    {
        dispute::resolve_dispute(self, resolver, dispute_id, release_to_beneficiary)
    }

    /// Dispute `dispute_id`; fails with `DisputeNotFound` when there is none.
    pub fn get_dispute(&self, dispute_id: u32) -> (r: Result<DisputeRecord, TokenError>)
        ensures
            self@.has_dispute(dispute_id) ==> r is Ok && r->Ok_0@ == self@.dispute(dispute_id),
            !self@.has_dispute(dispute_id) ==> r is Err && r->Err_0 == TokenError::DisputeNotFound,
    {
        dispute::get_dispute(self, dispute_id)
    }

    /// `splitter::create_split`.
    pub fn create_split(&mut self, sender: AccountId, recipients: Vec<SplitRecipient>, total_amount: i128) -> (r: Result<u32, TokenError>)
        requires
            old(self).wf(),
        ensures
            final(self).wf(),
            final(self)@.supply_gap() == old(self)@.supply_gap(),
            match splitter::create_split_error(old(self)@, sender, recipients@, total_amount) {
                Some(e) => r == Err::<u32, TokenError>(e) && final(self)@ == old(self)@,
                None => r == Ok::<u32, TokenError>((old(self)@.splits.len() + 1) as u32)
                    && final(self)@ == splitter::after_create_split(old(self)@, sender, recipients@, total_amount, Seq::empty()),
            },
    {
        splitter::create_split(self, sender, recipients, total_amount)
    }

    /// `splitter::distribute`.
    pub fn distribute(&mut self, caller: AccountId, split_id: u32) -> (r: Result<TokenEvent, TokenError>)
        requires
            old(self).wf(),
        ensures
            final(self).wf(),
            final(self)@.supply_gap() == old(self)@.supply_gap(),
            match splitter::distribute_error(old(self)@, caller, split_id) {
                Some(e) => r == Err::<TokenEvent, TokenError>(e) && final(self)@ == old(self)@,
                None => r == Ok::<TokenEvent, TokenError>(TokenEvent::SplitDistributed {
                    split_id,
                    sender: caller,
                    amount: old(self)@.split(split_id).total_amount,
                }) && final(self)@ == splitter::after_distribute(old(self)@, split_id),
            },
    {
        splitter::distribute(self, caller, split_id)
    }

    /// Split `split_id`; fails with `SplitNotFound` when there is none.
    pub fn get_split(&self, split_id: u32) -> (r: Result<SplitRecord, TokenError>)
        ensures
            self@.has_split(split_id) ==> r is Ok && r->Ok_0@ == self@.split(split_id),
            !self@.has_split(split_id) ==> r is Err && r->Err_0 == TokenError::SplitNotFound,
    {
        splitter::get_split(self, split_id)
    }

    /// `recurring::setup_recurring`.
    pub fn setup_recurring(&mut self, payer: AccountId, payee: AccountId, amount: i128, interval: u32, now: u32) -> (r: Result<(u32, TokenEvent), TokenError>)
        requires
            old(self).wf(),
        ensures
            final(self).wf(),
            final(self)@.supply_gap() == old(self)@.supply_gap(),
            match recurring::setup_recurring_error(old(self)@, payer, payee, amount, interval) {
                Some(e) => r == Err::<(u32, TokenEvent), TokenError>(e) && final(self)@ == old(self)@,
                None => {
                    let id = (old(self)@.recurrings.len() + 1) as u32;
                    &&& r == Ok::<(u32, TokenEvent), TokenError>((id, TokenEvent::RecurringSetup { payer, payee, amount }))
                    &&& final(self)@ == (TokenModel {
                        recurrings: old(self)@.recurrings.push(RecurringRecord {
                            id,
                            payer,
                            payee,
                            amount,
                            interval,
                            last_charged_ledger: now,
                            active: true,
                            max_executions: 0,
                            execution_count: 0,
                        }),
                        ..old(self)@
                    })
                },
            },
    {
        recurring::setup_recurring(self, payer, payee, amount, interval, now)
    }

    /// `recurring::execute_recurring`.
    pub fn execute_recurring(&mut self, recurring_id: u32, now: u32) -> (r: Result<Vec<TokenEvent>, TokenError>)
        requires
            old(self).wf(),
        ensures
            final(self).wf(),
            final(self)@.supply_gap() == old(self)@.supply_gap(),
            match recurring::execute_recurring_error(old(self)@, recurring_id, now) {
                Some(e) => r == Err::<Vec<TokenEvent>, TokenError>(e) && final(self)@ == old(self)@,
                None => {
                    let rec = old(self)@.recurring(recurring_id);
                    &&& r is Ok
                    &&& r->Ok_0@ == recurring::execution_events(recurring_id, rec)
                    &&& final(self)@ == with_balances(old(self)@, moved(old(self)@.balances, rec.payer, rec.payee, rec.amount as int))
                        .with_recurring(recurring_id, recurring::after_execution(rec))
                },
            },
    {
        recurring::execute_recurring(self, recurring_id, now)
    }

    /// `recurring::cancel_recurring`.
    pub fn cancel_recurring(&mut self, caller: AccountId, recurring_id: u32) -> (r: Result<TokenEvent, TokenError>)
        requires
            old(self).wf(),
        ensures
            final(self).wf(),
            match recurring::cancel_recurring_error(old(self)@, caller, recurring_id) {
                Some(e) => r == Err::<TokenEvent, TokenError>(e) && final(self)@ == old(self)@,
                None => r == Ok::<TokenEvent, TokenError>(TokenEvent::RecurringCancelled { recurring_id, caller })
                    && final(self)@ == old(self)@.with_recurring(recurring_id, RecurringRecord { active: false, ..old(self)@.recurring(recurring_id) }),
            },
    {
        recurring::cancel_recurring(self, caller, recurring_id)
    }

    /// Recurring payment `recurring_id`; fails with `RecurringNotFound` when there is none.
    pub fn get_recurring(&self, recurring_id: u32) -> (r: Result<RecurringRecord, TokenError>)
        ensures
            self@.has_recurring(recurring_id) ==> r == Ok::<RecurringRecord, TokenError>(self@.recurring(recurring_id)),
            !self@.has_recurring(recurring_id) ==> r == Err::<RecurringRecord, TokenError>(TokenError::RecurringNotFound),
    {
        recurring::get_recurring(self, recurring_id)
    }
}

} // verus!

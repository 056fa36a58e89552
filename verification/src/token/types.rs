//! Records, errors and events of the token contract.
use vstd::prelude::*;

verus! {

/// An account or contract, identified by a number that the host maps to its address.
pub type AccountId = u64;

/// Why the token contract rejects a call.
#[derive(Debug, Clone, Copy, PartialEq, Eq, Structural)]
pub enum TokenError {
    AlreadyInitialized,
    NotInitialized,
    NotAdmin,
    InvalidDecimal,
    NonPositiveAmount,
    AccountFrozen,
    InsufficientBalance,
    InsufficientAllowance,
    AllowanceExpiryInPast,
    Overflow,
    EscrowNotFound,
    EscrowSameParties,
    EscrowExpiryInPast,
    EscrowAlreadySettled,
    NotBeneficiary,
    NotDepositor,
    ReleaseExceedsRemaining,
    EvidenceTooLong,
    InvalidDisputeExpiry,
    EscrowNotOpen,
    NotEscrowParty,
    ResolverIsClaimant,
    ResolverIsDepositor,
    ResolverIsBeneficiary,
    DisputeAlreadyOpen,
    DisputeNotFound,
    DisputeNotOpen,
    UnauthorizedResolver,
    DisputeNotExpired,
    EscrowSettledDuringDispute,
    EmptyRecipients,
    TooManyRecipients,
    ZeroShare,
    DuplicateRecipient,
    SharesNotWhole,
    SplitNotFound,
    Unauthorized,
    AlreadyDistributed,
    SplitCancelled,
    AlreadyCancelled,
    MemoTooLong,
    InvalidInterval,
    SamePayerAndPayee,
    RecurringNotFound,
    RecurringInactive,
    IntervalNotElapsed,
    /// The payer of the recurring payment with this number holds too little.
    PayerUnderfunded(u32),
    BatchTooLarge,
    TransferBatchTooLarge,
}

/// The digit character for `d`, which is below 10.
pub open spec fn digit_char(d: nat) -> char {
    seq!['0', '1', '2', '3', '4', '5', '6', '7', '8', '9'][d as int]
}

/// `n` written in decimal, without leading zeros.
pub open spec fn decimal_text(n: nat) -> Seq<char>
    decreases n,
{
    if n < 10 {
        seq![digit_char(n)]
    } else {
        decimal_text(n / 10).push(digit_char(n % 10))
    }
}

/// `prefix`, a space and `n`, as std's `format!` writes them: its
/// documentation gives `{}` on a `u32` as the number in decimal, without
/// leading zeros or sign.
#[verifier::external_body]
fn with_number(prefix: &str, n: u32) -> (s: String)
    ensures
        s@ == prefix@ + seq![' '] + decimal_text(n as nat),
{
    format!("{} {}", prefix, n)
}

impl TokenError {
    /// The fixed text of the message with which the contract aborts on this
    /// error; for `PayerUnderfunded` the payment's number follows it (see `text`).
    pub fn message(&self) -> (s: &'static str)
        ensures
            s == self.spec_message(),
    {
        match self {
            TokenError::AlreadyInitialized => "already initialized",
            TokenError::NotInitialized => "not initialized",
            TokenError::NotAdmin => "not admin",
            TokenError::InvalidDecimal => "Decimal must fit in a u8",
            TokenError::NonPositiveAmount => "amount must be positive",
            TokenError::AccountFrozen => "AccountFrozen: account is frozen",
            TokenError::InsufficientBalance => "insufficient balance",
            TokenError::InsufficientAllowance => "insufficient allowance",
            TokenError::AllowanceExpiryInPast => "expiration_ledger is less than ledger seq when amount > 0",
            TokenError::Overflow => "arithmetic overflow",
            TokenError::EscrowNotFound => "escrow not found",
            TokenError::EscrowSameParties => "InvalidEscrow: depositor and beneficiary cannot be the same address",
            TokenError::EscrowExpiryInPast => "expiration ledger is in the past",
            TokenError::EscrowAlreadySettled => "already settled",
            TokenError::NotBeneficiary => "not beneficiary",
            TokenError::NotDepositor => "not depositor",
            TokenError::ReleaseExceedsRemaining => "release amount exceeds remaining escrow",
            TokenError::EvidenceTooLong => "EvidenceTooLong: evidence cannot exceed 128 bytes",
            TokenError::InvalidDisputeExpiry => "InvalidExpiry: expiry_ledger must be in the future",
            TokenError::EscrowNotOpen => "InvalidState: Cannot open dispute on a settled escrow",
            TokenError::NotEscrowParty => "Unauthorized: only escrow parties can open a dispute",
            TokenError::ResolverIsClaimant => "InvalidResolver: resolver cannot be the claimant",
            TokenError::ResolverIsDepositor => "InvalidResolver: resolver cannot be the depositor",
            TokenError::ResolverIsBeneficiary => "InvalidResolver: resolver cannot be the beneficiary",
            TokenError::DisputeAlreadyOpen => "DisputeAlreadyOpen: An open dispute already exists for this escrow",
            TokenError::DisputeNotFound => "Dispute not found",
            TokenError::DisputeNotOpen => "AlreadyResolved: This dispute has already been resolved",
            TokenError::UnauthorizedResolver => "UnauthorizedResolver: Only the designated resolver can resolve this",
            TokenError::DisputeNotExpired => "NotExpired: expiry ledger has not been reached",
            TokenError::EscrowSettledDuringDispute => "AlreadySettled: escrow is already settled",
            TokenError::EmptyRecipients => "recipients list cannot be empty",
            TokenError::TooManyRecipients => "TooManyRecipients: maximum 20 recipients allowed",
            TokenError::ZeroShare => "recipient share_bps cannot be zero",
            TokenError::DuplicateRecipient => "duplicate recipient address",
            TokenError::SharesNotWhole => "total bps must equal 10000",
            TokenError::SplitNotFound => "split record not found",
            TokenError::Unauthorized => "unauthorized",
            TokenError::AlreadyDistributed => "already distributed",
            TokenError::SplitCancelled => "split cancelled",
            TokenError::AlreadyCancelled => "already cancelled",
            TokenError::MemoTooLong => "MemoTooLong: memo cannot exceed 64 bytes",
            TokenError::InvalidInterval => "interval must be positive",
            TokenError::SamePayerAndPayee => "InvalidRecurring: payer and payee cannot be the same address",
            TokenError::RecurringNotFound => "recurring record not found",
            TokenError::RecurringInactive => "recurring payment is not active",
            TokenError::IntervalNotElapsed => "interval has not elapsed",
            TokenError::PayerUnderfunded(_) => "InsufficientBalance: payer has insufficient balance for recurring payment",
            TokenError::BatchTooLarge => "batch too large",
            TokenError::TransferBatchTooLarge => "BatchLimit: at most 50 entries per batch",
        }
    }

    /// The fixed text of the message with which the contract aborts on this error.
    pub open spec fn spec_message(&self) -> &'static str {
        match self {
            TokenError::AlreadyInitialized => "already initialized",
            TokenError::NotInitialized => "not initialized",
            TokenError::NotAdmin => "not admin",
            TokenError::InvalidDecimal => "Decimal must fit in a u8",
            TokenError::NonPositiveAmount => "amount must be positive",
            TokenError::AccountFrozen => "AccountFrozen: account is frozen",
            TokenError::InsufficientBalance => "insufficient balance",
            TokenError::InsufficientAllowance => "insufficient allowance",
            TokenError::AllowanceExpiryInPast => "expiration_ledger is less than ledger seq when amount > 0",
            TokenError::Overflow => "arithmetic overflow",
            TokenError::EscrowNotFound => "escrow not found",
            TokenError::EscrowSameParties => "InvalidEscrow: depositor and beneficiary cannot be the same address",
            TokenError::EscrowExpiryInPast => "expiration ledger is in the past",
            TokenError::EscrowAlreadySettled => "already settled",
            TokenError::NotBeneficiary => "not beneficiary",
            TokenError::NotDepositor => "not depositor",
            TokenError::ReleaseExceedsRemaining => "release amount exceeds remaining escrow",
            TokenError::EvidenceTooLong => "EvidenceTooLong: evidence cannot exceed 128 bytes",
            TokenError::InvalidDisputeExpiry => "InvalidExpiry: expiry_ledger must be in the future",
            TokenError::EscrowNotOpen => "InvalidState: Cannot open dispute on a settled escrow",
            TokenError::NotEscrowParty => "Unauthorized: only escrow parties can open a dispute",
            TokenError::ResolverIsClaimant => "InvalidResolver: resolver cannot be the claimant",
            TokenError::ResolverIsDepositor => "InvalidResolver: resolver cannot be the depositor",
            TokenError::ResolverIsBeneficiary => "InvalidResolver: resolver cannot be the beneficiary",
            TokenError::DisputeAlreadyOpen => "DisputeAlreadyOpen: An open dispute already exists for this escrow",
            TokenError::DisputeNotFound => "Dispute not found",
            TokenError::DisputeNotOpen => "AlreadyResolved: This dispute has already been resolved",
            TokenError::UnauthorizedResolver => "UnauthorizedResolver: Only the designated resolver can resolve this",
            TokenError::DisputeNotExpired => "NotExpired: expiry ledger has not been reached",
            TokenError::EscrowSettledDuringDispute => "AlreadySettled: escrow is already settled",
            TokenError::EmptyRecipients => "recipients list cannot be empty",
            TokenError::TooManyRecipients => "TooManyRecipients: maximum 20 recipients allowed",
            TokenError::ZeroShare => "recipient share_bps cannot be zero",
            TokenError::DuplicateRecipient => "duplicate recipient address",
            TokenError::SharesNotWhole => "total bps must equal 10000",
            TokenError::SplitNotFound => "split record not found",
            TokenError::Unauthorized => "unauthorized",
            TokenError::AlreadyDistributed => "already distributed",
            TokenError::SplitCancelled => "split cancelled",
            TokenError::AlreadyCancelled => "already cancelled",
            TokenError::MemoTooLong => "MemoTooLong: memo cannot exceed 64 bytes",
            TokenError::InvalidInterval => "interval must be positive",
            TokenError::SamePayerAndPayee => "InvalidRecurring: payer and payee cannot be the same address",
            TokenError::RecurringNotFound => "recurring record not found",
            TokenError::RecurringInactive => "recurring payment is not active",
            TokenError::IntervalNotElapsed => "interval has not elapsed",
            TokenError::PayerUnderfunded(_) => "InsufficientBalance: payer has insufficient balance for recurring payment",
            TokenError::BatchTooLarge => "batch too large",
            TokenError::TransferBatchTooLarge => "BatchLimit: at most 50 entries per batch",
        }
    }

    /// The whole message with which the contract aborts on this error.
    pub open spec fn spec_text(&self) -> Seq<char> {
        match self {
            TokenError::PayerUnderfunded(id) => self.spec_message()@ + seq![' '] + decimal_text(*id as nat),
            _ => self.spec_message()@,
        }
    }

    /// The whole message with which the contract aborts on this error.
    pub fn text(&self) -> (s: String)
        ensures
            s@ == self.spec_text(),
    {
        match self {
            TokenError::PayerUnderfunded(id) => with_number(self.message(), *id),
            _ => self.message().to_owned(),
        }
    }
}

/// Name, symbol and decimal precision of the token.
pub struct TokenMetadata {
    pub name: String,
    pub symbol: String,
    pub decimal: u32,
}

/// The metadata as plain text.
pub ghost struct MetadataView {
    pub name: Seq<char>,
    pub symbol: Seq<char>,
    pub decimal: u32,
}

impl View for TokenMetadata {
    type V = MetadataView;

    open spec fn view(&self) -> MetadataView {
        MetadataView { name: self.name@, symbol: self.symbol@, decimal: self.decimal }
    }
}

/// What a spender may still take from an owner, and the last ledger on which it may.
#[derive(Debug, Clone, Copy, PartialEq, Eq, Structural)]
pub struct AllowanceValue {
    pub amount: i128,
    pub expiration_ledger: u32,
}

/// A payment held by the contract until it is released to the beneficiary or refunded.
#[derive(Debug, Clone, Copy, PartialEq, Eq, Structural)]
pub struct EscrowRecord {
    pub id: u32,
    pub depositor: AccountId,
    pub beneficiary: AccountId,
    pub amount: i128,
    pub expiry_ledger: u32,
    pub released: bool,
    pub refunded: bool,
}

/// Where a dispute stands.
#[derive(Debug, Clone, Copy, PartialEq, Eq, Structural)]
pub enum DisputeStatus {
    Open,
    ResolvedForBeneficiary,
    ResolvedForDepositor,
    Expired,
}

/// A dispute over an escrow, settled by a designated resolver.
pub struct DisputeRecord {
    pub id: u32,
    pub escrow_id: u32,
    pub claimant: AccountId,
    pub resolver: AccountId,
    pub status: DisputeStatus,
    pub evidence: Vec<u8>,
    pub opened_at_ledger: u32,
    pub expiry_ledger: u32,
    pub resolution_note: Vec<u8>,
}

/// A dispute with its byte fields as sequences.
pub ghost struct DisputeView {
    pub id: u32,
    pub escrow_id: u32,
    pub claimant: AccountId,
    pub resolver: AccountId,
    pub status: DisputeStatus,
    pub evidence: Seq<u8>,
    pub opened_at_ledger: u32,
    pub expiry_ledger: u32,
    pub resolution_note: Seq<u8>,
}

impl View for DisputeRecord {
    type V = DisputeView;

    open spec fn view(&self) -> DisputeView {
        DisputeView {
            id: self.id,
            escrow_id: self.escrow_id,
            claimant: self.claimant,
            resolver: self.resolver,
            status: self.status,
            evidence: self.evidence@,
            opened_at_ledger: self.opened_at_ledger,
            expiry_ledger: self.expiry_ledger,
            resolution_note: self.resolution_note@,
        }
    }
}

/// A recipient of a split and its share in basis points (10000 is the whole).
#[derive(Debug, Clone, Copy, PartialEq, Eq, Structural)]
pub struct SplitRecipient {
    pub address: AccountId,
    pub share_bps: u32,
}

/// An amount held by the contract to be split among recipients by their shares.
pub struct SplitRecord {
    pub id: u32,
    pub sender: AccountId,
    pub recipients: Vec<SplitRecipient>,
    pub total_amount: i128,
    pub distributed: bool,
    pub cancelled: bool,
    pub memo: Vec<u8>,
}

/// A split with its lists as sequences.
pub ghost struct SplitView {
    pub id: u32,
    pub sender: AccountId,
    pub recipients: Seq<SplitRecipient>,
    pub total_amount: i128,
    pub distributed: bool,
    pub cancelled: bool,
    pub memo: Seq<u8>,
}

impl View for SplitRecord {
    type V = SplitView;

    open spec fn view(&self) -> SplitView {
        SplitView {
            id: self.id,
            sender: self.sender,
            recipients: self.recipients@,
            total_amount: self.total_amount,
            distributed: self.distributed,
            cancelled: self.cancelled,
            memo: self.memo@,
        }
    }
}

/// A payment from payer to payee that may be executed once per interval of ledgers.
#[derive(Debug, Clone, Copy, PartialEq, Eq, Structural)]
pub struct RecurringRecord {
    pub id: u32,
    pub payer: AccountId,
    pub payee: AccountId,
    pub amount: i128,
    pub interval: u32,
    pub last_charged_ledger: u32,
    pub active: bool,
    pub max_executions: u32,
    pub execution_count: u32,
}

/// A transfer named in a transfer batch.
#[derive(Debug, Clone, Copy, PartialEq, Eq, Structural)]
pub struct BatchEntry {
    pub address: AccountId,
    pub amount: i128,
}

/// What the contract publishes when a call succeeds.
#[derive(Debug, Clone, PartialEq, Eq)]
pub enum TokenEvent {
    Mint { admin: AccountId, to: AccountId, amount: i128 },
    Burn { from: AccountId, amount: i128 },
    BurnFrom { spender: AccountId, from: AccountId, amount: i128 },
    Transfer { from: AccountId, to: AccountId, amount: i128 },
    Approve { from: AccountId, spender: AccountId, amount: i128 },
    Clawback { admin: AccountId, from: AccountId, amount: i128 },
    Frozen { target: AccountId, admin: AccountId },
    Unfrozen { target: AccountId, admin: AccountId },
    BatchFrozen { admin: AccountId, count: u32 },
    BatchUnfrozen { admin: AccountId, count: u32 },
    EscrowCreated { escrow_id: u32, depositor: AccountId, beneficiary: AccountId, amount: i128 },
    EscrowReleased { escrow_id: u32, to: AccountId, amount: i128 },
    EscrowRefunded { escrow_id: u32, to: AccountId, amount: i128 },
    DisputeOpened { escrow_id: u32, claimant: AccountId, evidence: Vec<u8> },
    DisputeResolved { dispute_id: u32, resolver: AccountId, release_to_beneficiary: bool },
    DisputeExpired { dispute_id: u32, escrow_id: u32 },
    SplitDistributed { split_id: u32, sender: AccountId, amount: i128 },
    SplitCancelled { split_id: u32, caller: AccountId, amount: i128 },
    RecurringSetup { payer: AccountId, payee: AccountId, amount: i128 },
    RecurringExecuted { recurring_id: u32, amount: i128 },
    RecurringCompleted { recurring_id: u32, execution_count: u32 },
    RecurringCancelled { recurring_id: u32, caller: AccountId },
}

impl TokenEvent {
    /// The symbol that the event is published under (its first topic).
    pub fn name(&self) -> (s: &'static str)
        ensures
            s == self.spec_name(),
    {
        match self {
            TokenEvent::Mint { .. } => "mint",
            TokenEvent::Burn { .. } => "burn",
            TokenEvent::BurnFrom { .. } => "burn",
            TokenEvent::Transfer { .. } => "transfer",
            TokenEvent::Approve { .. } => "approve",
            TokenEvent::Clawback { .. } => "clawback",
            TokenEvent::Frozen { .. } => "frozen",
            TokenEvent::Unfrozen { .. } => "unfrozen",
            TokenEvent::BatchFrozen { .. } => "batch_frz",
            TokenEvent::BatchUnfrozen { .. } => "batch_unf",
            TokenEvent::EscrowCreated { .. } => "escr_crtd",
            TokenEvent::EscrowReleased { .. } => "escrow_released",
            TokenEvent::EscrowRefunded { .. } => "escrow_refunded",
            TokenEvent::DisputeOpened { .. } => "disp_opened",
            TokenEvent::DisputeResolved { .. } => "disp_resolved",
            TokenEvent::DisputeExpired { .. } => "disp_expired",
            TokenEvent::SplitDistributed { .. } => "split_distributed",
            TokenEvent::SplitCancelled { .. } => "split_cancelled",
            TokenEvent::RecurringSetup { .. } => "recur_setup",
            TokenEvent::RecurringExecuted { .. } => "recur_executed",
            TokenEvent::RecurringCompleted { .. } => "recur_completed",
            TokenEvent::RecurringCancelled { .. } => "recur_cancelled",
        }
    }

    /// The symbol that the event is published under (its first topic).
    pub open spec fn spec_name(&self) -> &'static str {
        match self {
            TokenEvent::Mint { .. } => "mint",
            TokenEvent::Burn { .. } => "burn",
            TokenEvent::BurnFrom { .. } => "burn",
            TokenEvent::Transfer { .. } => "transfer",
            TokenEvent::Approve { .. } => "approve",
            TokenEvent::Clawback { .. } => "clawback",
            TokenEvent::Frozen { .. } => "frozen",
            TokenEvent::Unfrozen { .. } => "unfrozen",
            TokenEvent::BatchFrozen { .. } => "batch_frz",
            TokenEvent::BatchUnfrozen { .. } => "batch_unf",
            TokenEvent::EscrowCreated { .. } => "escr_crtd",
            TokenEvent::EscrowReleased { .. } => "escrow_released",
            TokenEvent::EscrowRefunded { .. } => "escrow_refunded",
            TokenEvent::DisputeOpened { .. } => "disp_opened",
            TokenEvent::DisputeResolved { .. } => "disp_resolved",
            TokenEvent::DisputeExpired { .. } => "disp_expired",
            TokenEvent::SplitDistributed { .. } => "split_distributed",
            TokenEvent::SplitCancelled { .. } => "split_cancelled",
            TokenEvent::RecurringSetup { .. } => "recur_setup",
            TokenEvent::RecurringExecuted { .. } => "recur_executed",
            TokenEvent::RecurringCompleted { .. } => "recur_completed",
            TokenEvent::RecurringCancelled { .. } => "recur_cancelled",
        }
    }

    /// How many topics the event is published with, its name included.
    pub fn topic_count(&self) -> (n: u32)
        ensures
            n == self.spec_topic_count(),
    {
        match self {
            TokenEvent::Burn { .. } => 2,
            TokenEvent::Frozen { .. } => 2,
            TokenEvent::Unfrozen { .. } => 2,
            TokenEvent::BatchFrozen { .. } => 2,
            TokenEvent::BatchUnfrozen { .. } => 2,
            TokenEvent::DisputeExpired { .. } => 2,
            TokenEvent::RecurringSetup { .. } => 2,
            TokenEvent::RecurringExecuted { .. } => 2,
            TokenEvent::RecurringCompleted { .. } => 2,
            _ => 3,
        }
    }

    /// How many topics the event is published with, its name included.
    pub open spec fn spec_topic_count(&self) -> u32 {
        match self {
            TokenEvent::Burn { .. } => 2,
            TokenEvent::Frozen { .. } => 2,
            TokenEvent::Unfrozen { .. } => 2,
            TokenEvent::BatchFrozen { .. } => 2,
            TokenEvent::BatchUnfrozen { .. } => 2,
            TokenEvent::DisputeExpired { .. } => 2,
            TokenEvent::RecurringSetup { .. } => 2,
            TokenEvent::RecurringExecuted { .. } => 2,
            TokenEvent::RecurringCompleted { .. } => 2,
            _ => 3,
        }
    }
}

} // verus!

//! Records, errors and token movements of the escrow contract.
use vstd::prelude::*;

verus! {

/// An account, contract or token, identified by a number that the host maps to its address.
pub type AccountId = u64;

/// The placeholder account: the number that the host gives no address, as
/// an unset or default address.
pub const PLACEHOLDER_ACCOUNT: AccountId = 0;

/// The most that a single standard escrow may lock: 1% of the range of `i128`,
/// so that an escrow that can never be settled cannot freeze the whole token.
pub const MAX_ESCROW_AMOUNT: i128 = 1701411834604692317316873037158841057i128;

/// Why the escrow contract rejects a call.
#[derive(Debug, Clone, Copy, PartialEq, Eq, Structural)]
pub enum PayError {
    NonPositiveAmount,
    AmountNotPositive,
    AmountTooLarge,
    ExpiryNotInFuture,
    EscrowNotFound,
    AlreadyReleased,
    AlreadyRefunded,
    NotAuthorisedToRelease,
    NotAuthorisedToRefund,
    EscrowExpired,
    ReleaseExceedsRemaining,
    AdminNotSet,
    NotAdmin,
    AlreadyInitialized,
    InvalidAdmin,
    AlreadyFrozen,
    NotFrozen,
    NoRecipients,
    ZeroShare,
    MultiEscrowNotFound,
    InvalidBasisPoints,
    TooManyHolders,
    NoHoldings,
    Overflow,
}

impl PayError {
    /// The message with which the contract aborts on this error.
    pub fn message(&self) -> (s: &'static str)
        ensures
            s == self.spec_message(),
    {
        match self {
            PayError::NonPositiveAmount => "Amount must be strictly positive",
            PayError::AmountNotPositive => "amount must be greater than zero",
            PayError::AmountTooLarge => "amount exceeds the maximum escrow amount",
            PayError::ExpiryNotInFuture => "expiry_ledger must be in the future",
            PayError::EscrowNotFound => "escrow not found",
            PayError::AlreadyReleased => "already released",
            PayError::AlreadyRefunded => "already refunded",
            PayError::NotAuthorisedToRelease => "not authorised to release",
            PayError::NotAuthorisedToRefund => "not authorised to refund",
            PayError::EscrowExpired => "escrow has expired",
            PayError::ReleaseExceedsRemaining => "release amount exceeds remaining escrow",
            PayError::AdminNotSet => "admin not set",
            PayError::NotAdmin => "not admin",
            PayError::AlreadyInitialized => "AlreadyInitialized: contract state is locked",
            PayError::InvalidAdmin => "InvalidAdmin: Cannot use sentinel address",
            PayError::AlreadyFrozen => "AlreadyFrozen: account is already frozen",
            PayError::NotFrozen => "NotFrozen: account is not frozen",
            PayError::NoRecipients => "must have at least one recipient",
            PayError::ZeroShare => "each recipient share must be greater than zero",
            PayError::MultiEscrowNotFound => "multi escrow not found",
            PayError::InvalidBasisPoints => "invalid basis points",
            PayError::TooManyHolders => "maximum 50 holders per airdrop call",
            PayError::NoHoldings => "no holdings to airdrop to",
            PayError::Overflow => "arithmetic overflow",
        }
    }

    /// The message with which the contract aborts on this error.
    pub open spec fn spec_message(&self) -> &'static str {
        match self {
            PayError::NonPositiveAmount => "Amount must be strictly positive",
            PayError::AmountNotPositive => "amount must be greater than zero",
            PayError::AmountTooLarge => "amount exceeds the maximum escrow amount",
            PayError::ExpiryNotInFuture => "expiry_ledger must be in the future",
            PayError::EscrowNotFound => "escrow not found",
            PayError::AlreadyReleased => "already released",
            PayError::AlreadyRefunded => "already refunded",
            PayError::NotAuthorisedToRelease => "not authorised to release",
            PayError::NotAuthorisedToRefund => "not authorised to refund",
            PayError::EscrowExpired => "escrow has expired",
            PayError::ReleaseExceedsRemaining => "release amount exceeds remaining escrow",
            PayError::AdminNotSet => "admin not set",
            PayError::NotAdmin => "not admin",
            PayError::AlreadyInitialized => "AlreadyInitialized: contract state is locked",
            PayError::InvalidAdmin => "InvalidAdmin: Cannot use sentinel address",
            PayError::AlreadyFrozen => "AlreadyFrozen: account is already frozen",
            PayError::NotFrozen => "NotFrozen: account is not frozen",
            PayError::NoRecipients => "must have at least one recipient",
            PayError::ZeroShare => "each recipient share must be greater than zero",
            PayError::MultiEscrowNotFound => "multi escrow not found",
            PayError::InvalidBasisPoints => "invalid basis points",
            PayError::TooManyHolders => "maximum 50 holders per airdrop call",
            PayError::NoHoldings => "no holdings to airdrop to",
            PayError::Overflow => "arithmetic overflow",
        }
    }
}

/// A movement of `amount` of `token` from `from` to `to` that the host carries
/// out through the token's contract.
#[derive(Debug, Clone, Copy, PartialEq, Eq, Structural)]
pub struct TokenTransfer {
    pub token: AccountId,
    pub from: AccountId,
    pub to: AccountId,
    pub amount: i128,
}

/// A payment of some token held by the contract for one beneficiary.
#[derive(Debug, Clone, Copy, PartialEq, Eq, Structural)]
pub struct EscrowRecord {
    pub id: u32,
    pub depositor: AccountId,
    pub beneficiary: AccountId,
    pub amount: i128,
    pub token: AccountId,
    pub expiry_ledger: u32,
    /// The ledger on which the escrow was created.
    pub created_ledger: u32,
    pub released: bool,
    pub refunded: bool,
}

/// A payment of some token held by the contract for several recipients.
pub struct MultiEscrowRecord {
    pub id: u32,
    pub depositor: AccountId,
    pub recipients: Vec<(AccountId, i128)>,
    pub token: AccountId,
    pub total_amount: i128,
    pub expiry_ledger: u32,
    pub released: bool,
    pub refunded: bool,
}

/// A multi-recipient escrow with its recipients as a sequence.
pub ghost struct MultiEscrowView {
    pub id: u32,
    pub depositor: AccountId,
    pub recipients: Seq<(AccountId, i128)>,
    pub token: AccountId,
    pub total_amount: i128,
    pub expiry_ledger: u32,
    pub released: bool,
    pub refunded: bool,
}

impl View for MultiEscrowRecord {
    type V = MultiEscrowView;

    open spec fn view(&self) -> MultiEscrowView {
        MultiEscrowView {
            id: self.id,
            depositor: self.depositor,
            recipients: self.recipients@,
            token: self.token,
            total_amount: self.total_amount,
            expiry_ledger: self.expiry_ledger,
            released: self.released,
            refunded: self.refunded,
        }
    }
}

/// One execution of a recurring payment.
#[derive(Debug, Clone, Copy, PartialEq, Eq, Structural)]
pub struct RecurringPayment {
    pub recurring_id: u32,
    pub execution_ledger: u32,
    pub amount: i128,
}

/// The storage keys under which the host keeps the contract's state.
#[derive(Debug, Clone, Copy, PartialEq, Eq, Structural)]
pub enum DataKey {
    Admin,
    EscrowCount,
    Escrow(u32),
    DepositorEscrows(AccountId),
    BeneficiaryEscrows(AccountId),
    MultiEscrowCount,
    MultiEscrow(u32),
    RecurringHistory(u32),
    ClaimantDisputes(AccountId),
    LastEscrowTime(AccountId),
    Allowance(AccountId, AccountId),
    HolderSet,
}

} // verus!

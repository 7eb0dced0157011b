//! Typed failures of the ledger's operations.
use vstd::prelude::*;

verus! {

/// The broad class a failure belongs to.
#[derive(Clone, Copy, Debug, PartialEq, Eq, Structural)]
pub enum ErrorKind {
    MissingAuthorization,
    RecordOwnershipMismatch,
    RecordTypeMismatch,
    CapacityExceeded,
    AmountMismatch,
    InvalidState,
    StorageLayoutError,
    VaultIdentityError,
    InvalidInstruction,
}

/// Every way an operation can be refused.
#[derive(Clone, Copy, Debug, PartialEq, Eq, Structural)]
pub enum Funds4GoodError {
    /// The operation bytes hold an unknown tag or are too short.
    InvalidInstruction,
    /// A required signature is missing.
    MissingAuthorization,
    /// A record carries another type tag than the operation expects.
    RecordTypeMismatch,
    /// The lender ledger's shard number is not the one in use.
    ShardMismatch,
    /// A lender id lies outside the ledger.
    InvalidLenderId,
    /// A bound lender slot was presented with another owner key.
    OwnerMismatch,
    /// The caller is not the loan's borrower.
    BorrowerMismatch,
    /// A contribution moved less than the minimum.
    AmountTooSmall,
    /// A transfer moved another amount than the one expected.
    AmountMismatch,
    /// An installment is smaller than the loan's minimum installment.
    BelowMinimumInstallment,
    /// The fundraising window closed before the target was met.
    FundraisingExpired,
    /// The loan already raised its target.
    AlreadyFunded,
    /// The loan was already repaid in full.
    LoanFullyRepaid,
    /// The raised funds were already taken by the borrower.
    AlreadyWithdrawn,
    /// The borrower already has an open loan.
    BorrowerAlreadyHasActiveLoan,
    /// The record was set up before.
    AlreadyInitialized,
    /// The identity has had all its test-fund airdrops.
    AirdropCapReached,
    /// The loan was set up with no installments.
    NoInstallments,
    /// The loan has no contribution to pay back.
    NoContributions,
    /// The loan's contribution log is full.
    ContributionLogFull,
    /// The loan's repayment log is full.
    RepaymentLogFull,
    /// A balance or a time would leave its integer range.
    ArithmeticOverflow,
    /// A record's bytes have another size than its layout.
    StorageSizeMismatch,
    /// A vault is not in the custody of the expected derived signer.
    VaultMismatch,
}

pub open spec fn kind_of(e: Funds4GoodError) -> ErrorKind {
    match e {
        Funds4GoodError::InvalidInstruction => ErrorKind::InvalidInstruction,
        Funds4GoodError::MissingAuthorization => ErrorKind::MissingAuthorization,
        Funds4GoodError::RecordTypeMismatch => ErrorKind::RecordTypeMismatch,
        Funds4GoodError::ShardMismatch => ErrorKind::CapacityExceeded,
        Funds4GoodError::InvalidLenderId => ErrorKind::CapacityExceeded,
        Funds4GoodError::OwnerMismatch => ErrorKind::RecordOwnershipMismatch,
        Funds4GoodError::BorrowerMismatch => ErrorKind::RecordOwnershipMismatch,
        Funds4GoodError::AmountTooSmall => ErrorKind::AmountMismatch,
        Funds4GoodError::AmountMismatch => ErrorKind::AmountMismatch,
        Funds4GoodError::BelowMinimumInstallment => ErrorKind::AmountMismatch,
        Funds4GoodError::ContributionLogFull => ErrorKind::CapacityExceeded,
        Funds4GoodError::RepaymentLogFull => ErrorKind::CapacityExceeded,
        Funds4GoodError::ArithmeticOverflow => ErrorKind::CapacityExceeded,
        Funds4GoodError::AlreadyInitialized => ErrorKind::StorageLayoutError,
        Funds4GoodError::StorageSizeMismatch => ErrorKind::StorageLayoutError,
        Funds4GoodError::VaultMismatch => ErrorKind::VaultIdentityError,
        _ => ErrorKind::InvalidState,
    }
}

impl Funds4GoodError {
    /// The broad class of the failure.
    pub fn kind(&self) -> (r: ErrorKind)
        ensures
            r == kind_of(*self),
    {
        match self {
            Funds4GoodError::InvalidInstruction => ErrorKind::InvalidInstruction,
            Funds4GoodError::MissingAuthorization => ErrorKind::MissingAuthorization,
            Funds4GoodError::RecordTypeMismatch => ErrorKind::RecordTypeMismatch,
            Funds4GoodError::ShardMismatch => ErrorKind::CapacityExceeded,
            Funds4GoodError::InvalidLenderId => ErrorKind::CapacityExceeded,
            Funds4GoodError::OwnerMismatch => ErrorKind::RecordOwnershipMismatch,
            Funds4GoodError::BorrowerMismatch => ErrorKind::RecordOwnershipMismatch,
            Funds4GoodError::AmountTooSmall => ErrorKind::AmountMismatch,
            Funds4GoodError::AmountMismatch => ErrorKind::AmountMismatch,
            Funds4GoodError::BelowMinimumInstallment => ErrorKind::AmountMismatch,
            Funds4GoodError::ContributionLogFull => ErrorKind::CapacityExceeded,
            Funds4GoodError::RepaymentLogFull => ErrorKind::CapacityExceeded,
            Funds4GoodError::ArithmeticOverflow => ErrorKind::CapacityExceeded,
            Funds4GoodError::AlreadyInitialized => ErrorKind::StorageLayoutError,
            Funds4GoodError::StorageSizeMismatch => ErrorKind::StorageLayoutError,
            Funds4GoodError::VaultMismatch => ErrorKind::VaultIdentityError,
            _ => ErrorKind::InvalidState,
        }
    }
}

} // verus!

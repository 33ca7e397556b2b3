//! What the ledger's answers look like to the provisioning logic.

use vstd::prelude::*;

verus! {

/// The error conditions that the ledger names.
#[derive(Clone, Copy, Debug, PartialEq, Eq, Structural)]
pub enum LedgerError {
    FailedToReceiveTransaction,
    ContractNotFound,
    BlockNotFound,
    InvalidTransactionIndex,
    ClassHashNotFound,
    TransactionHashNotFound,
    PageSizeTooBig,
    NoBlocks,
    InvalidContinuationToken,
    TooManyKeysInFilter,
    ContractError,
    ClassAlreadyDeclared,
    InvalidTransactionNonce,
    InsufficientMaxFee,
    InsufficientAccountBalance,
    ValidationFailure,
    CompilationFailed,
    ContractClassSizeIsTooLarge,
    NonAccount,
    DuplicateTx,
    CompiledClassHashMismatch,
    UnsupportedTxVersion,
    UnsupportedContractClassVersion,
    UnexpectedError,
}

/// The code of an error that the ledger reported.
#[derive(Clone, Copy, Debug, PartialEq, Eq, Structural)]
pub enum ErrorCode {
    /// A condition that the ledger names.
    Known(LedgerError),
    /// A number with no name.
    Unknown(i64),
}

/// Why a request to the ledger failed.
#[derive(Clone, Copy, Debug, PartialEq, Eq, Structural)]
pub enum ProviderFailure {
    /// The ledger answered with an error.
    Ledger(ErrorCode),
    /// The endpoint refused the request for its rate.
    RateLimited,
    /// The answer held another number of items than the request.
    ArrayLengthMismatch,
    /// The ledger did not answer within the time allowed.
    TimedOut,
    /// The request did not get through, or could not be signed.
    Other,
}

/// The answer to a query for a class.
#[derive(Clone, Copy, Debug, PartialEq, Eq, Structural)]
pub enum ClassLookup {
    /// The ledger holds the class.
    Found,
    /// The query failed.
    Failed(ProviderFailure),
}

/// The failure that says the ledger does not hold a class.
pub open spec fn class_not_found() -> ProviderFailure {
    ProviderFailure::Ledger(ErrorCode::Known(LedgerError::ClassHashNotFound))
}

impl ProviderFailure {
    /// Whether this failure says that the ledger does not hold the class.
    pub fn is_class_not_found(&self) -> (r: bool)
        ensures
            r <==> *self == class_not_found(),
    {
        match self {
            ProviderFailure::Ledger(ErrorCode::Known(LedgerError::ClassHashNotFound)) => true,
            _ => false,
        }
    }
}

} // verus!

use vstd::prelude::*;

verus! {

/// Every way an operation on the ledger can fail. A failed operation leaves
/// the ledger exactly as it was.
#[derive(Clone, Copy, Debug, PartialEq, Eq, Structural)]
pub enum Error {
    ContractInitialized,
    /// Reserved: no operation reports it.
    ContractNotInitialized,
    CarNotFound,
    AdminTokenConflict,
    /// Reserved: no operation reports it.
    ContributionBelowMinimum,
    AmountMustBePositive,
    RentalNotFound,
    InsufficientBalance,
    /// Custody holds less than the amount asked for.
    BalanceNotAvailableForAmountRequested,
    CarAlreadyExist,
    RentalDurationCannotBeZero,
    SelfRentalNotAllowed,
    CarAlreadyRented,
    AdminNotFound,
    TokenNotFound,
    OverflowError,
    /// The proven caller is not the account the operation belongs to.
    NotAuthorized,
}

} // verus!

use vstd::prelude::*;

verus! {

/// Every fault that an operation on a vault can report.
///
/// The variants from `ConstraintSeeds` on are raised while the accounts of an
/// operation are checked.
#[derive(Clone, Copy, PartialEq, Eq, Structural, Debug)]
pub enum KagemushaError {
    InvalidStrategyType,
    InvalidWeightSum,
    NameTooLong,
    Unauthorized,
    StrategyInactive,
    InsufficientFunds,
    SlippageExceeded,
    MintMismatch,
    MathOverflow,
    InvalidRouteData,
    InvalidFeeAccount,
    SwapExecutionFailed,
    /// An account's address is not the one its seeds derive.
    ConstraintSeeds,
    /// An account is not the fixed identity it is pinned to.
    ConstraintAddress,
    /// The record to be created exists already.
    AccountAlreadyInitialized,
    /// The record to be read does not exist.
    AccountNotInitialized,
    /// A token account is not held by the authority it must belong to.
    ConstraintTokenOwner,
}

} // verus!

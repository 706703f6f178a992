use vstd::prelude::*;

verus! {

/// Everything that can go wrong while handling a command or vetting a
/// transfer.
///
/// `AlreadyInitialized` and `StorageFailure` are environment-level: the
/// verified handlers never produce them themselves, but the taxonomy keeps
/// them so that the host adapter can surface a double initialization or a
/// failing persistence layer under the same error type.
#[derive(Clone, Copy, Debug, PartialEq, Eq, Structural)]
pub enum ContractError {
    /// The caller lacks the required ownership or role permission.
    Unauthorized,
    /// A mint or burn was attempted with an amount of zero.
    ZeroAmount,
    /// Decrementing an allowance would make it negative.
    InsufficientAllowance,
    /// A principal string is not well formed.
    InvalidAddress,
    /// A transfer was attempted while all transfers are frozen.
    Frozen,
    /// A transfer was attempted from a restricted principal.
    Blacklisted,
    /// The singleton configuration was initialized twice.
    AlreadyInitialized,
    /// The underlying persistence layer failed.
    StorageFailure,
}

} // verus!

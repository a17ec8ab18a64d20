use vstd::prelude::*;

verus! {

/// The ways in which an instruction of the staking program is refused.
#[derive(Clone, Copy, Debug, PartialEq, Eq, Structural)]
pub enum ErrorCode {
    /// The guardian already existed.
    ExistedGuardian,
    /// The number of guardians exceeds the maximum.
    MaximumGuardiansExceeds,
    /// The fee rate is too large.
    FeeRateIsTooLarge,
    /// A transfer hook cannot be called without its extra accounts.
    NoExtraAccountsForTransferHook,
    /// A timestamp must be convertible from `i64` to `u64`.
    InvalidTimestampConversion,
    /// The deposit amount is invalid.
    InvalidDepositAmount,
    /// The account is already initialized (also raised when it is not).
    AccountIsInitialized,
    /// The remaining accounts are described by an invalid slice.
    RemainingAccountsInvalidSlice,
    /// There are fewer remaining accounts than their description asks for.
    RemainingAccountsInsufficient,
    /// The same kind of accounts is described more than once.
    RemainingAccountsDuplicatedAccountsType,
}

/// An error of the program's own, or an error that the token program's state
/// parser reported, by its numeric code.
#[derive(Clone, Copy, Debug, PartialEq, Eq, Structural)]
pub enum DuneError {
    Dune(ErrorCode),
    Program(u64),
}

} // verus!

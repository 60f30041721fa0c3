use vstd::prelude::*;

verus! {

/// Errors that the vault's own rules raise.
#[derive(Clone, Copy, Debug, PartialEq, Eq, Structural)]
pub enum ErrorCode {
    /// failed to perform some math operation safely
    MathError,
    /// Failed to run the strategy
    StrategyError,
    /// Vault is not refreshed
    VaultIsNotRefreshed,
    /// Allocation is not updated
    AllocationIsNotUpdated,
    /// Failed to convert from Reserve
    TryFromReserveError,
    /// Failed to perform a math operation without an overflow
    OverflowError,
    /// Referral fee split cannot set to be over 50%
    InvalidReferralFeeConfig,
    /// Fees cannot be set to over 100%
    InvalidFeeConfig,
    /// Proposed weights do not meet the required constraints
    InvalidProposedWeights,
    /// Proposed weights failed proof check
    RebalanceProofCheckFailed,
    /// Vault size limit is reached
    DepositCapError,
    /// Account passed in is not valid
    InvalidAccount,
    /// Insufficient number of accounts for a given operation
    InsufficientAccounts,
    /// Allocation cap cannot set to under 1/(number of assets) or over 100%
    InvalidAllocationCap,
    /// Failed to set referral fee share which is greater than 50%
    ReferralFeeError,
    /// Failed to set fee BPS which is greater than 10000
    FeeBpsError,
}

/// Errors of fixed-point arithmetic on rates and decimals.
#[derive(Clone, Copy, Debug, PartialEq, Eq, Structural)]
pub enum MathError {
    AddOverflow,
    SubUnderflow,
    MulOverflow,
    DividedByZero,
    UnableToRoundU64,
}

/// Every error that an operation of the vault can end in.
#[derive(Clone, Copy, Debug, PartialEq, Eq, Structural)]
pub enum VaultError {
    /// An error raised by the vault's rules.
    Code(ErrorCode),
    /// An error of fixed-point arithmetic.
    Math(MathError),
    /// An error that a lending market's own reserve arithmetic returned.
    Reserve,
}

} // verus!

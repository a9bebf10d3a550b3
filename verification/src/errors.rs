//! The failures an operation of the ledger can report.

use vstd::prelude::*;

verus! {

/// Why an operation was rejected. A rejected operation changes nothing.
#[derive(Clone, Copy, Debug, PartialEq, Eq, Structural)]
pub enum ErrorCode {
    Unauthorized,
    InvalidAmount,
    InsufficientBalance,
    ProjectPaused,
    DepositsPaused,
    WithdrawalsPaused,
    ClaimsPaused,
    LockupNotExpired,
    NoStake,
    NoRewards,
    NoReflections,
    MathOverflow,
    AlreadyInitialized,
    NotInitialized,
    InvalidSplitPercentage,
    ReflectionVaultRequired,
    ReflectionTokenRequired,
    ReflectionsNotEnabled,
    InsufficientSolForFee,
    InvalidReferrer,
    InsufficientVaultBalance,
    InsufficientRewardVault,
    InsufficientReflectionVault,
    NoStakers,
    InvalidPoolDuration,
    DivisionByZero,
    InvalidFeeCollector,
    AprTooHigh,
    WrongTokenType,
    UnauthorizedVault,
    InvalidWithdrawalWallet,
    InvalidReflectionVault,
    InvalidProject,
    InvalidStakeAccount,
    InconsistentTotalStaked,
    InvalidTimestamp,
    PoolEnded,
    InvalidRateMode,
    MissingAssociatedTokenProgram,
    RefreshRequired,
    InvalidRateBps,
    InvalidReferrerSplit,
    NoReflectionsToClaim,
}

impl ErrorCode {
    /// What the failure is called in words.
    pub open spec fn message_text(self) -> Seq<char> {
        match self {
            ErrorCode::Unauthorized => "Unauthorized"@,
            ErrorCode::InvalidAmount => "Invalid amount"@,
            ErrorCode::InsufficientBalance => "Insufficient balance"@,
            ErrorCode::ProjectPaused => "Project is paused"@,
            ErrorCode::DepositsPaused => "Deposits are paused"@,
            ErrorCode::WithdrawalsPaused => "Withdrawals are paused"@,
            ErrorCode::ClaimsPaused => "Claims are paused"@,
            ErrorCode::LockupNotExpired => "Lockup period not expired"@,
            ErrorCode::NoStake => "No stake found"@,
            ErrorCode::NoRewards => "No rewards available"@,
            ErrorCode::NoReflections => "No reflections available"@,
            ErrorCode::MathOverflow => "Math overflow"@,
            ErrorCode::AlreadyInitialized => "Already initialized"@,
            ErrorCode::NotInitialized => "Not initialized"@,
            ErrorCode::InvalidSplitPercentage => "Invalid split percentage"@,
            ErrorCode::ReflectionVaultRequired => "Reflection vault required"@,
            ErrorCode::ReflectionTokenRequired => "Reflection token required"@,
            ErrorCode::ReflectionsNotEnabled => "Reflections not enabled"@,
            ErrorCode::InsufficientSolForFee => {
                "Insufficient SOL for fee - would leave account below rent-exempt minimum"@
            },
            ErrorCode::InvalidReferrer => "Referrer address does not match project referrer"@,
            ErrorCode::InsufficientVaultBalance => "Insufficient balance in vault"@,
            ErrorCode::InsufficientRewardVault => "Insufficient rewards in reward vault"@,
            ErrorCode::InsufficientReflectionVault => {
                "Insufficient reflections in reflection vault"@
            },
            ErrorCode::NoStakers => "No stakers in pool"@,
            ErrorCode::InvalidPoolDuration => "Invalid pool duration - must be greater than 0"@,
            ErrorCode::DivisionByZero => "Division by zero"@,
            ErrorCode::InvalidFeeCollector => "Invalid fee collector"@,
            ErrorCode::AprTooHigh => "Calculated APR exceeds maximum u64 value"@,
            ErrorCode::WrongTokenType => "Wrong token type - must match project token mint"@,
            ErrorCode::UnauthorizedVault => "Unauthorized vault - must belong to this project"@,
            ErrorCode::InvalidWithdrawalWallet => {
                "Invalid withdrawal wallet - does not match stake withdrawal_wallet"@
            },
            ErrorCode::InvalidReflectionVault => {
                "Invalid reflection vault - does not match project reflection vault"@
            },
            ErrorCode::InvalidProject => "Invalid project - stake does not belong to this project"@,
            ErrorCode::InvalidStakeAccount => "Invalid stake account for specified user"@,
            ErrorCode::InconsistentTotalStaked => {
                "Inconsistent total staked - total_staked is less than withdrawal amount"@
            },
            ErrorCode::InvalidTimestamp => "Invalid timestamp - clock moved backwards"@,
            ErrorCode::PoolEnded => "Pool has ended - cannot deposit after pool end time"@,
            ErrorCode::InvalidRateMode => {
                "Invalid rate mode - must be 0 (fixed APY) or 1 (variable APR)"@
            },
            ErrorCode::MissingAssociatedTokenProgram => {
                "Missing Associated Token Program - required when reflections are enabled"@
            },
            ErrorCode::RefreshRequired => {
                "Please refresh reflections before claiming - new tokens have arrived in the vault"@
            },
            ErrorCode::InvalidRateBps => {
                "Invalid rate BPS - must be less than or equal to 1,000,000"@
            },
            ErrorCode::InvalidReferrerSplit => {
                "Invalid referrer split - must be less than or equal to 10,000 BPS (100%)"@
            },
            ErrorCode::NoReflectionsToClaim => {
                "No reflections to claim - refresh reflections first"@
            },
        }
    }

    /// The failure in words.
    pub fn message(&self) -> (text: &'static str)
        ensures
            text@ == self.message_text(),
    {
        match self {
            ErrorCode::Unauthorized => "Unauthorized",
            ErrorCode::InvalidAmount => "Invalid amount",
            ErrorCode::InsufficientBalance => "Insufficient balance",
            ErrorCode::ProjectPaused => "Project is paused",
            ErrorCode::DepositsPaused => "Deposits are paused",
            ErrorCode::WithdrawalsPaused => "Withdrawals are paused",
            ErrorCode::ClaimsPaused => "Claims are paused",
            ErrorCode::LockupNotExpired => "Lockup period not expired",
            ErrorCode::NoStake => "No stake found",
            ErrorCode::NoRewards => "No rewards available",
            ErrorCode::NoReflections => "No reflections available",
            ErrorCode::MathOverflow => "Math overflow",
            ErrorCode::AlreadyInitialized => "Already initialized",
            ErrorCode::NotInitialized => "Not initialized",
            ErrorCode::InvalidSplitPercentage => "Invalid split percentage",
            ErrorCode::ReflectionVaultRequired => "Reflection vault required",
            ErrorCode::ReflectionTokenRequired => "Reflection token required",
            ErrorCode::ReflectionsNotEnabled => "Reflections not enabled",
            ErrorCode::InsufficientSolForFee => {
                "Insufficient SOL for fee - would leave account below rent-exempt minimum"
            },
            ErrorCode::InvalidReferrer => "Referrer address does not match project referrer",
            ErrorCode::InsufficientVaultBalance => "Insufficient balance in vault",
            ErrorCode::InsufficientRewardVault => "Insufficient rewards in reward vault",
            ErrorCode::InsufficientReflectionVault => {
                "Insufficient reflections in reflection vault"
            },
            ErrorCode::NoStakers => "No stakers in pool",
            ErrorCode::InvalidPoolDuration => "Invalid pool duration - must be greater than 0",
            ErrorCode::DivisionByZero => "Division by zero",
            ErrorCode::InvalidFeeCollector => "Invalid fee collector",
            ErrorCode::AprTooHigh => "Calculated APR exceeds maximum u64 value",
            ErrorCode::WrongTokenType => "Wrong token type - must match project token mint",
            ErrorCode::UnauthorizedVault => "Unauthorized vault - must belong to this project",
            ErrorCode::InvalidWithdrawalWallet => {
                "Invalid withdrawal wallet - does not match stake withdrawal_wallet"
            },
            ErrorCode::InvalidReflectionVault => {
                "Invalid reflection vault - does not match project reflection vault"
            },
            ErrorCode::InvalidProject => "Invalid project - stake does not belong to this project",
            ErrorCode::InvalidStakeAccount => "Invalid stake account for specified user",
            ErrorCode::InconsistentTotalStaked => {
                "Inconsistent total staked - total_staked is less than withdrawal amount"
            },
            ErrorCode::InvalidTimestamp => "Invalid timestamp - clock moved backwards",
            ErrorCode::PoolEnded => "Pool has ended - cannot deposit after pool end time",
            ErrorCode::InvalidRateMode => {
                "Invalid rate mode - must be 0 (fixed APY) or 1 (variable APR)"
            },
            ErrorCode::MissingAssociatedTokenProgram => {
                "Missing Associated Token Program - required when reflections are enabled"
            },
            ErrorCode::RefreshRequired => {
                "Please refresh reflections before claiming - new tokens have arrived in the vault"
            },
            ErrorCode::InvalidRateBps => {
                "Invalid rate BPS - must be less than or equal to 1,000,000"
            },
            ErrorCode::InvalidReferrerSplit => {
                "Invalid referrer split - must be less than or equal to 10,000 BPS (100%)"
            },
            ErrorCode::NoReflectionsToClaim => {
                "No reflections to claim - refresh reflections first"
            },
        }
    }
}

} // verus!

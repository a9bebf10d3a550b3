use staking::errors::ErrorCode;
use staking::lottery::LotteryError;
use staking::state::RateMode;

const ALL: [ErrorCode; 43] = [
    ErrorCode::Unauthorized,
    ErrorCode::InvalidAmount,
    ErrorCode::InsufficientBalance,
    ErrorCode::ProjectPaused,
    ErrorCode::DepositsPaused,
    ErrorCode::WithdrawalsPaused,
    ErrorCode::ClaimsPaused,
    ErrorCode::LockupNotExpired,
    ErrorCode::NoStake,
    ErrorCode::NoRewards,
    ErrorCode::NoReflections,
    ErrorCode::MathOverflow,
    ErrorCode::AlreadyInitialized,
    ErrorCode::NotInitialized,
    ErrorCode::InvalidSplitPercentage,
    ErrorCode::ReflectionVaultRequired,
    ErrorCode::ReflectionTokenRequired,
    ErrorCode::ReflectionsNotEnabled,
    ErrorCode::InsufficientSolForFee,
    ErrorCode::InvalidReferrer,
    ErrorCode::InsufficientVaultBalance,
    ErrorCode::InsufficientRewardVault,
    ErrorCode::InsufficientReflectionVault,
    ErrorCode::NoStakers,
    ErrorCode::InvalidPoolDuration,
    ErrorCode::DivisionByZero,
    ErrorCode::InvalidFeeCollector,
    ErrorCode::AprTooHigh,
    ErrorCode::WrongTokenType,
    ErrorCode::UnauthorizedVault,
    ErrorCode::InvalidWithdrawalWallet,
    ErrorCode::InvalidReflectionVault,
    ErrorCode::InvalidProject,
    ErrorCode::InvalidStakeAccount,
    ErrorCode::InconsistentTotalStaked,
    ErrorCode::InvalidTimestamp,
    ErrorCode::PoolEnded,
    ErrorCode::InvalidRateMode,
    ErrorCode::MissingAssociatedTokenProgram,
    ErrorCode::RefreshRequired,
    ErrorCode::InvalidRateBps,
    ErrorCode::InvalidReferrerSplit,
    ErrorCode::NoReflectionsToClaim,
];

#[test]
fn every_failure_has_its_own_words() {
    for (i, a) in ALL.iter().enumerate() {
        assert!(!a.message().is_empty());
        for b in ALL.iter().skip(i + 1) {
            assert_ne!(a, b);
            assert_ne!(a.message(), b.message());
        }
    }
}

#[test]
fn failures_are_put_in_words() {
    assert_eq!(ErrorCode::Unauthorized.message(), "Unauthorized");
    assert_eq!(ErrorCode::MathOverflow.message(), "Math overflow");
    assert_eq!(ErrorCode::LockupNotExpired.message(), "Lockup period not expired");
    assert_eq!(
        ErrorCode::PoolEnded.message(),
        "Pool has ended - cannot deposit after pool end time"
    );
    assert_eq!(
        ErrorCode::InvalidReferrerSplit.message(),
        "Invalid referrer split - must be less than or equal to 10,000 BPS (100%)"
    );
    assert_eq!(
        ErrorCode::InsufficientSolForFee.message(),
        "Insufficient SOL for fee - would leave account below rent-exempt minimum"
    );
    assert_eq!(ErrorCode::NoReflectionsToClaim.message().len(), 51);
}

#[test]
fn lottery_failures_are_put_in_words() {
    let all = [
        (LotteryError::WeekAlreadyStarted, "Week already started"),
        (LotteryError::SalesClosed, "Ticket sales are closed"),
        (LotteryError::NoTickets, "No tickets provided"),
        (LotteryError::TooManyTickets, "Too many tickets (max 100)"),
        (LotteryError::InvalidNumbers, "Invalid ticket numbers"),
        (LotteryError::AlreadyClosed, "Sales already closed"),
        (LotteryError::SalesStillOpen, "Sales still open"),
        (LotteryError::AlreadyDrawn, "Already drawn"),
        (LotteryError::NotDrawnYet, "Not drawn yet"),
        (LotteryError::InvalidMatchCount, "Invalid match count"),
        (LotteryError::InvalidTicketIndex, "Invalid ticket index"),
        (LotteryError::AlreadyClaimed, "Already claimed"),
        (LotteryError::ClaimExpired, "Claim period expired"),
        (LotteryError::ClaimNotExpired, "Claim period not expired yet"),
    ];
    for (error, words) in all {
        assert_eq!(error.message(), words);
    }
}

#[test]
fn rate_modes_are_stored_as_0_and_1() {
    assert_eq!(RateMode::from_u8(0), Ok(RateMode::Fixed));
    assert_eq!(RateMode::from_u8(1), Ok(RateMode::Variable));
    for code in [2u8, 3, 127, 255] {
        assert_eq!(RateMode::from_u8(code), Err(ErrorCode::InvalidRateMode));
    }
    assert_eq!(RateMode::Fixed.to_u8(), 0);
    assert_eq!(RateMode::Variable.to_u8(), 1);
    for mode in [RateMode::Fixed, RateMode::Variable] {
        assert_eq!(RateMode::from_u8(mode.to_u8()), Ok(mode));
    }
}

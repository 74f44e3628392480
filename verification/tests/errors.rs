use funds_program::errors::ErrorCode;
use funds_program::errors::ErrorKind;
use funds_program::errors::Failure;
use funds_program::errors::VenueError;

#[test]
fn kinds_of_codes() {
    let authorization = [
        ErrorCode::InvalidInitPayer,
        ErrorCode::InvalidVaultAddress,
        ErrorCode::Unauthorized,
        ErrorCode::InvalidAccountAddress,
    ];
    for code in authorization {
        assert_eq!(code.kind(), ErrorKind::Authorization);
        assert_eq!(Failure::Local(code).kind(), ErrorKind::Authorization);
    }
    let validation = [
        ErrorCode::InvalidQuartzAccount,
        ErrorCode::InvalidMintAddress,
        ErrorCode::InvalidStakeProgram,
        ErrorCode::InvalidStakeAccountData,
        ErrorCode::StakeAccountNotInitialized,
        ErrorCode::InvalidStakeAccountAuthority,
        ErrorCode::InvalidDriftProgram,
        ErrorCode::AccountInUse,
        ErrorCode::BalanceOverflow,
        ErrorCode::AccountNotEmpty,
        ErrorCode::InvalidAmount,
    ];
    for code in validation {
        assert_eq!(code.kind(), ErrorKind::Validation);
        assert_eq!(Failure::Local(code).kind(), ErrorKind::Validation);
    }
    assert_eq!(ErrorCode::InsufficientFunds.kind(), ErrorKind::InsufficientFunds);
    assert_eq!(Failure::Local(ErrorCode::InsufficientFunds).kind(), ErrorKind::InsufficientFunds);
}

#[test]
fn venue_failures_are_external() {
    let all = [
        VenueError::Refused(0),
        VenueError::Refused(6_000),
        VenueError::UserNotFound,
        VenueError::UserStatsNotFound,
        VenueError::AlreadyRegistered,
        VenueError::UnknownMarket,
        VenueError::InsufficientCollateral,
        VenueError::CollateralOutstanding,
        VenueError::SwapInProgress,
        VenueError::MathError,
    ];
    for e in all {
        assert_eq!(Failure::Venue(e).kind(), ErrorKind::ExternalVenue);
    }
}

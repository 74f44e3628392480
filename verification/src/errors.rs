//! What an operation reports when it fails.

use vstd::prelude::*;

verus! {

/// The checks an operation makes itself, each with the code it fails with.
#[derive(Clone, Copy, Debug, PartialEq, Eq, Structural)]
pub enum ErrorCode {
    /// The account given as the vault, or as one of its custody accounts, is
    /// not one.
    InvalidQuartzAccount,
    /// The payer of an initialization is not the one it must be.
    InvalidInitPayer,
    /// A balance is smaller than the amount to be moved out of it.
    InsufficientFunds,
    /// A token account or mint is of another currency than the fixed one.
    InvalidMintAddress,
    /// The account given as the stake program is another program.
    InvalidStakeProgram,
    /// The linked stake account is not of the stake-account format.
    InvalidStakeAccountData,
    /// The linked stake account is not initialized.
    StakeAccountNotInitialized,
    /// The linked stake account is not under the vault's authority.
    InvalidStakeAccountAuthority,
    /// The account given as the venue's program is another program.
    InvalidDriftProgram,
    /// The vault's address does not follow from its owner and nonce.
    InvalidVaultAddress,
    /// The signer is not the identity that the vault records for this
    /// operation.
    Unauthorized,
    /// The address at which an account is to be opened already holds one.
    AccountInUse,
    /// A balance would exceed what the ledger can record.
    BalanceOverflow,
    /// A token account that must be empty to be closed still holds tokens.
    AccountNotEmpty,
    /// The amount of a deposit is zero.
    InvalidAmount,
    /// An account does not stand at the address that its seeds derive.
    InvalidAccountAddress,
}

/// The four kinds of failure.
#[derive(Clone, Copy, Debug, PartialEq, Eq, Structural)]
pub enum ErrorKind {
    /// Wrong owner or signer, or an address that its seeds do not derive.
    Authorization,
    /// Wrong mint, wrong program identity, malformed account.
    Validation,
    /// A local balance is too small.
    InsufficientFunds,
    /// The venue refused; its error is passed on as it came.
    ExternalVenue,
}

/// Why the venue refuses a call.
#[derive(Clone, Copy, Debug, PartialEq, Eq, Structural)]
pub enum VenueError {
    /// The venue refused for reasons of its own; its code is passed on as
    /// it came.
    Refused(u32),
    /// No account handle stands at the address given, or it belongs to
    /// another authority.
    UserNotFound,
    /// No account-stats handle stands at the address given, or it belongs to
    /// another authority.
    UserStatsNotFound,
    /// The handle to be created exists already.
    AlreadyRegistered,
    /// The market index names none of the venue's markets.
    UnknownMarket,
    /// The withdrawal would leave the account short of its margin.
    InsufficientCollateral,
    /// The account still holds collateral or an open swap.
    CollateralOutstanding,
    /// A swap was begun and not yet settled.
    SwapInProgress,
    /// The venue's book cannot record the amount.
    MathError,
}

/// The one error an operation fails with.
#[derive(Clone, Copy, Debug, PartialEq, Eq, Structural)]
pub enum Failure {
    /// One of the operation's own checks failed.
    Local(ErrorCode),
    /// The venue refused a delegated call.
    Venue(VenueError),
}

impl ErrorCode {
    /// The kind of failure a code stands for.
    pub open spec fn spec_kind(self) -> ErrorKind {
        match self {
            ErrorCode::InvalidInitPayer => ErrorKind::Authorization,
            ErrorCode::InvalidVaultAddress => ErrorKind::Authorization,
            ErrorCode::Unauthorized => ErrorKind::Authorization,
            ErrorCode::InvalidAccountAddress => ErrorKind::Authorization,
            ErrorCode::InsufficientFunds => ErrorKind::InsufficientFunds,
            _ => ErrorKind::Validation,
        }
    }

    /// The kind of failure a code stands for.
    #[verifier::when_used_as_spec(spec_kind)]
    pub fn kind(self) -> (r: ErrorKind)
        ensures
            r == self.spec_kind(),
    {
        match self {
            ErrorCode::InvalidInitPayer => ErrorKind::Authorization,
            ErrorCode::InvalidVaultAddress => ErrorKind::Authorization,
            ErrorCode::Unauthorized => ErrorKind::Authorization,
            ErrorCode::InvalidAccountAddress => ErrorKind::Authorization,
            ErrorCode::InsufficientFunds => ErrorKind::InsufficientFunds,
            _ => ErrorKind::Validation,
        }
    }
}

impl Failure {
    /// The kind of a failure: that of its code, or `ExternalVenue`.
    pub open spec fn spec_kind(self) -> ErrorKind {
        match self {
            Failure::Local(code) => code.spec_kind(),
            Failure::Venue(_) => ErrorKind::ExternalVenue,
        }
    }

    /// The kind of a failure: that of its code, or `ExternalVenue`.
    #[verifier::when_used_as_spec(spec_kind)]
    pub fn kind(self) -> (r: ErrorKind)
        ensures
            r == self.spec_kind(),
    {
        match self {
            Failure::Local(code) => code.kind(),
            Failure::Venue(_) => ErrorKind::ExternalVenue,
        }
    }
}

} // verus!

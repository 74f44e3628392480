//! What each step does to the accounts, and what a whole plan does.
//!
//! A step either fails and changes nothing, or succeeds with the accounts as
//! they are afterwards.
//!
//! The venue decides for itself whether it goes on with a call made to it:
//! its answer is given, not computed, and a refusal is passed on with the
//! venue's own code. What the venue accepts is kept as a book of handles,
//! which records collateral per account and market; what its book cannot
//! carry it refuses whatever it answered.

use vstd::prelude::*;
use crate::account::Account;
use crate::account::AccountData;
use crate::account::OpenSwap;
use crate::account::TokenAccount;
use crate::account::VenueUser;
use crate::address::Address;
use crate::call::Answer;
use crate::call::Call;
use crate::call::DeleteUser;
use crate::call::Deposit;
use crate::call::InitializeUser;
use crate::call::InitializeUserStats;
use crate::call::Principal;
use crate::call::SignedCall;
use crate::call::Swap;
use crate::call::Withdraw;
use crate::constants::Config;
use crate::constants::DRIFT_MARKET_INDEX_SOL;
use crate::constants::DRIFT_MARKET_INDEX_USDC;
use crate::errors::ErrorCode;
use crate::errors::Failure;
use crate::errors::VenueError;
use crate::state::Vault;

verus! {

/// The native balance at an address: zero where no account stands.
pub open spec fn lamports_at(s: Map<Address, Account>, a: Address) -> u64 {
    if s.contains_key(a) {
        s[a].lamports
    } else {
        0
    }
}

/// The token account at an address, if one stands there.
pub open spec fn token_at(s: Map<Address, Account>, a: Address) -> Option<TokenAccount> {
    if s.contains_key(a) {
        match s[a].data {
            AccountData::Token(t) => Some(t),
            _ => None,
        }
    } else {
        None
    }
}

/// The vault record at an address, if a vault stands there.
pub open spec fn vault_at(s: Map<Address, Account>, a: Address) -> Option<Vault> {
    if s.contains_key(a) {
        match s[a].data {
            AccountData::Vault { record, backup } => Some(record),
            _ => None,
        }
    } else {
        None
    }
}

/// The recovery identity of the vault at an address, if one is designated.
pub open spec fn backup_at(s: Map<Address, Account>, a: Address) -> Option<Address> {
    if s.contains_key(a) {
        match s[a].data {
            AccountData::Vault { record, backup } => backup,
            _ => None,
        }
    } else {
        None
    }
}

/// The venue's account handle at an address, if one stands there.
pub open spec fn venue_user_at(s: Map<Address, Account>, a: Address) -> Option<VenueUser> {
    if s.contains_key(a) {
        match s[a].data {
            AccountData::VenueUser(u) => Some(u),
            _ => None,
        }
    } else {
        None
    }
}

/// The authority of the venue's account-stats handle at an address, if one
/// stands there.
pub open spec fn venue_stats_at(s: Map<Address, Account>, a: Address) -> Option<Address> {
    if s.contains_key(a) {
        match s[a].data {
            AccountData::VenueStats { authority } => Some(authority),
            _ => None,
        }
    } else {
        None
    }
}

/// The address holds a token account.
pub open spec fn is_token_account(s: Map<Address, Account>, a: Address) -> bool {
    token_at(s, a) is Some
}

/// The currency of a venue market, for the markets this program uses.
pub open spec fn market_mint(cfg: Config, market_index: u16) -> Option<Address> {
    if market_index == DRIFT_MARKET_INDEX_USDC {
        Some(cfg.usdc_mint)
    } else if market_index == DRIFT_MARKET_INDEX_SOL {
        Some(cfg.wsol_mint)
    } else {
        None
    }
}

/// The collateral a handle records in a market.
pub open spec fn collateral_of(u: VenueUser, market_index: u16) -> u64 {
    if market_index == DRIFT_MARKET_INDEX_USDC {
        u.usdc_collateral
    } else {
        u.sol_collateral
    }
}

/// The handle with another amount of collateral in a market.
pub open spec fn with_collateral(u: VenueUser, market_index: u16, value: u64) -> VenueUser {
    if market_index == DRIFT_MARKET_INDEX_USDC {
        VenueUser { usdc_collateral: value, ..u }
    } else {
        VenueUser { sol_collateral: value, ..u }
    }
}

/// The step is signed by `authority`, a vault of this program.
pub open spec fn signed_by(principal: Option<Principal>, cfg: Config, authority: Address) -> bool {
    principal is Some && principal->Some_0.vault == authority && principal->Some_0.program_id
        == cfg.program_id
}

/// Adds to the native balance at an address; an address without an account
/// becomes a wallet.
pub open spec fn credit(s: Map<Address, Account>, a: Address, amount: u64) -> Result<
    Map<Address, Account>,
    Failure,
> {
    if lamports_at(s, a) + amount > u64::MAX {
        Err(Failure::Local(ErrorCode::BalanceOverflow))
    } else if s.contains_key(a) {
        Ok(s.insert(a, Account { lamports: (s[a].lamports + amount) as u64, data: s[a].data }))
    } else {
        Ok(s.insert(a, Account { lamports: amount, data: AccountData::Wallet }))
    }
}

/// Takes from the native balance at an address.
pub open spec fn debit(s: Map<Address, Account>, a: Address, amount: u64) -> Result<
    Map<Address, Account>,
    Failure,
> {
    if lamports_at(s, a) < amount {
        Err(Failure::Local(ErrorCode::InsufficientFunds))
    } else if s.contains_key(a) {
        Ok(s.insert(a, Account { lamports: (s[a].lamports - amount) as u64, data: s[a].data }))
    } else {
        Ok(s)
    }
}

/// Takes tokens out of a token account. Tokens of wrapped native currency
/// take the native currency they stand for with them.
pub open spec fn token_debit(
    s: Map<Address, Account>,
    cfg: Config,
    a: Address,
    amount: u64,
) -> Result<Map<Address, Account>, Failure> {
    match token_at(s, a) {
        None => Err(Failure::Local(ErrorCode::InvalidQuartzAccount)),
        Some(t) => {
            if t.amount < amount {
                Err(Failure::Local(ErrorCode::InsufficientFunds))
            } else if t.mint == cfg.wsol_mint && s[a].lamports < amount {
                Err(Failure::Local(ErrorCode::InsufficientFunds))
            } else {
                Ok(
                    s.insert(
                        a,
                        Account {
                            lamports: if t.mint == cfg.wsol_mint {
                                (s[a].lamports - amount) as u64
                            } else {
                                s[a].lamports
                            },
                            data: AccountData::Token(
                                TokenAccount { amount: (t.amount - amount) as u64, ..t },
                            ),
                        },
                    ),
                )
            }
        },
    }
}

/// Puts tokens into a token account. Tokens of wrapped native currency bring
/// the native currency they stand for with them.
pub open spec fn token_credit(
    s: Map<Address, Account>,
    cfg: Config,
    a: Address,
    amount: u64,
) -> Result<Map<Address, Account>, Failure> {
    match token_at(s, a) {
        None => Err(Failure::Local(ErrorCode::InvalidQuartzAccount)),
        Some(t) => {
            if t.amount + amount > u64::MAX {
                Err(Failure::Local(ErrorCode::BalanceOverflow))
            } else if t.mint == cfg.wsol_mint && s[a].lamports + amount > u64::MAX {
                Err(Failure::Local(ErrorCode::BalanceOverflow))
            } else {
                Ok(
                    s.insert(
                        a,
                        Account {
                            lamports: if t.mint == cfg.wsol_mint {
                                (s[a].lamports + amount) as u64
                            } else {
                                s[a].lamports
                            },
                            data: AccountData::Token(
                                TokenAccount { amount: (t.amount + amount) as u64, ..t },
                            ),
                        },
                    ),
                )
            }
        },
    }
}

/// Why the venue knows no such pair of handles for the authority, if it does
/// not.
pub open spec fn venue_handles_missing(
    s: Map<Address, Account>,
    user: Address,
    user_stats: Address,
    authority: Address,
) -> Option<VenueError> {
    if !(venue_user_at(s, user) is Some && venue_user_at(s, user)->Some_0.authority == authority) {
        Some(VenueError::UserNotFound)
    } else if venue_stats_at(s, user_stats) != Some(authority) {
        Some(VenueError::UserStatsNotFound)
    } else {
        None
    }
}

/// Storing a new vault record.
pub open spec fn step_create_vault(
    s: Map<Address, Account>,
    signer: Address,
    vault: Address,
    record: Vault,
    payer: Address,
) -> Result<Map<Address, Account>, Failure> {
    if payer != signer {
        Err(Failure::Local(ErrorCode::Unauthorized))
    } else if s.contains_key(vault) {
        Err(Failure::Local(ErrorCode::AccountInUse))
    } else {
        Ok(
            s.insert(
                vault,
                Account { lamports: 0, data: AccountData::Vault { record, backup: None } },
            ),
        )
    }
}

/// Opening an empty token account.
pub open spec fn step_open_token_account(
    s: Map<Address, Account>,
    signer: Address,
    account: Address,
    mint: Address,
    authority: Address,
    payer: Address,
) -> Result<Map<Address, Account>, Failure> {
    if payer != signer {
        Err(Failure::Local(ErrorCode::Unauthorized))
    } else if s.contains_key(account) {
        Err(Failure::Local(ErrorCode::AccountInUse))
    } else {
        Ok(
            s.insert(
                account,
                Account {
                    lamports: 0,
                    data: AccountData::Token(TokenAccount { mint, authority, amount: 0 }),
                },
            ),
        )
    }
}

/// Moving native currency out of the signer's account.
pub open spec fn step_transfer(
    s: Map<Address, Account>,
    signer: Address,
    from: Address,
    to: Address,
    amount: u64,
) -> Result<Map<Address, Account>, Failure> {
    if from != signer {
        Err(Failure::Local(ErrorCode::Unauthorized))
    } else {
        match debit(s, from, amount) {
            Err(e) => Err(e),
            Ok(debited) => credit(debited, to, amount),
        }
    }
}

/// Making a wrapped-native account's token balance equal the native currency
/// it holds.
pub open spec fn step_sync_native(s: Map<Address, Account>, cfg: Config, account: Address) -> Result<
    Map<Address, Account>,
    Failure,
> {
    match token_at(s, account) {
        None => Err(Failure::Local(ErrorCode::InvalidMintAddress)),
        Some(t) => {
            if t.mint != cfg.wsol_mint {
                Err(Failure::Local(ErrorCode::InvalidMintAddress))
            } else {
                Ok(
                    s.insert(
                        account,
                        Account {
                            lamports: s[account].lamports,
                            data: AccountData::Token(
                                TokenAccount { amount: s[account].lamports, ..t },
                            ),
                        },
                    ),
                )
            }
        },
    }
}

/// Moving tokens between two accounts of one mint. The authority of the
/// source signs, either as the signer of the operation or as a vault of
/// this program.
pub open spec fn step_token_transfer(
    s: Map<Address, Account>,
    cfg: Config,
    signer: Address,
    principal: Option<Principal>,
    from: Address,
    to: Address,
    authority: Address,
    amount: u64,
) -> Result<Map<Address, Account>, Failure> {
    if !signed_by(principal, cfg, authority) && authority != signer {
        Err(Failure::Local(ErrorCode::Unauthorized))
    } else if token_at(s, from) is None || token_at(s, to) is None {
        Err(Failure::Local(ErrorCode::InvalidQuartzAccount))
    } else if token_at(s, from)->Some_0.authority != authority {
        Err(Failure::Local(ErrorCode::Unauthorized))
    } else if token_at(s, from)->Some_0.mint != token_at(s, to)->Some_0.mint {
        Err(Failure::Local(ErrorCode::InvalidMintAddress))
    } else {
        match token_debit(s, cfg, from, amount) {
            Err(e) => Err(e),
            Ok(debited) => token_credit(debited, cfg, to, amount),
        }
    }
}

/// Closing a token account in favour of another account. One of wrapped
/// native currency may hold a balance, which goes to the destination as
/// native currency; any other must be empty.
pub open spec fn step_close_account(
    s: Map<Address, Account>,
    cfg: Config,
    principal: Option<Principal>,
    account: Address,
    destination: Address,
    authority: Address,
) -> Result<Map<Address, Account>, Failure> {
    if !signed_by(principal, cfg, authority) {
        Err(Failure::Local(ErrorCode::Unauthorized))
    } else if token_at(s, account) is None || destination == account {
        Err(Failure::Local(ErrorCode::InvalidQuartzAccount))
    } else if token_at(s, account)->Some_0.authority != authority {
        Err(Failure::Local(ErrorCode::Unauthorized))
    } else if token_at(s, account)->Some_0.mint != cfg.wsol_mint && token_at(
        s,
        account,
    )->Some_0.amount != 0 {
        Err(Failure::Local(ErrorCode::AccountNotEmpty))
    } else {
        credit(s.remove(account), destination, s[account].lamports)
    }
}

/// The venue taking a deposit: the tokens leave the source account and the
/// handle's collateral in the market grows by the amount.
pub open spec fn step_venue_deposit(
    s: Map<Address, Account>,
    cfg: Config,
    principal: Option<Principal>,
    accounts: Deposit,
    market_index: u16,
    amount: u64,
) -> Result<Map<Address, Account>, Failure> {
    if !signed_by(principal, cfg, accounts.authority) {
        Err(Failure::Local(ErrorCode::Unauthorized))
    } else if market_mint(cfg, market_index) is None {
        Err(Failure::Venue(VenueError::UnknownMarket))
    } else if venue_handles_missing(s, accounts.user, accounts.user_stats, accounts.authority)
        is Some {
        Err(
            Failure::Venue(
                venue_handles_missing(
                    s,
                    accounts.user,
                    accounts.user_stats,
                    accounts.authority,
                )->Some_0,
            ),
        )
    } else if token_at(s, accounts.user_token_account) is None {
        Err(Failure::Local(ErrorCode::InvalidQuartzAccount))
    } else if token_at(s, accounts.user_token_account)->Some_0.mint != market_mint(
        cfg,
        market_index,
    )->Some_0 {
        Err(Failure::Local(ErrorCode::InvalidMintAddress))
    } else if token_at(s, accounts.user_token_account)->Some_0.authority != accounts.authority {
        Err(Failure::Local(ErrorCode::Unauthorized))
    } else if collateral_of(venue_user_at(s, accounts.user)->Some_0, market_index) + amount
        > u64::MAX {
        Err(Failure::Venue(VenueError::MathError))
    } else {
        match token_debit(s, cfg, accounts.user_token_account, amount) {
            Err(e) => Err(e),
            Ok(debited) => {
                let u = venue_user_at(s, accounts.user)->Some_0;
                Ok(
                    debited.insert(
                        accounts.user,
                        Account {
                            lamports: s[accounts.user].lamports,
                            data: AccountData::VenueUser(
                                with_collateral(
                                    u,
                                    market_index,
                                    (collateral_of(u, market_index) + amount) as u64,
                                ),
                            ),
                        },
                    ),
                )
            },
        }
    }
}

/// The venue paying out a withdrawal: the handle's collateral in the market
/// shrinks by the amount and the tokens arrive in the destination account.
/// It refuses to pay out more than the collateral it records.
pub open spec fn step_venue_withdraw(
    s: Map<Address, Account>,
    cfg: Config,
    principal: Option<Principal>,
    accounts: Withdraw,
    market_index: u16,
    amount: u64,
) -> Result<Map<Address, Account>, Failure> {
    if !signed_by(principal, cfg, accounts.authority) {
        Err(Failure::Local(ErrorCode::Unauthorized))
    } else if market_mint(cfg, market_index) is None {
        Err(Failure::Venue(VenueError::UnknownMarket))
    } else if venue_handles_missing(s, accounts.user, accounts.user_stats, accounts.authority)
        is Some {
        Err(
            Failure::Venue(
                venue_handles_missing(
                    s,
                    accounts.user,
                    accounts.user_stats,
                    accounts.authority,
                )->Some_0,
            ),
        )
    } else if token_at(s, accounts.user_token_account) is None {
        Err(Failure::Local(ErrorCode::InvalidQuartzAccount))
    } else if token_at(s, accounts.user_token_account)->Some_0.mint != market_mint(
        cfg,
        market_index,
    )->Some_0 {
        Err(Failure::Local(ErrorCode::InvalidMintAddress))
    } else if collateral_of(venue_user_at(s, accounts.user)->Some_0, market_index) < amount {
        Err(Failure::Venue(VenueError::InsufficientCollateral))
    } else {
        match token_credit(s, cfg, accounts.user_token_account, amount) {
            Err(e) => Err(e),
            Ok(credited) => {
                let u = venue_user_at(s, accounts.user)->Some_0;
                Ok(
                    credited.insert(
                        accounts.user,
                        Account {
                            lamports: s[accounts.user].lamports,
                            data: AccountData::VenueUser(
                                with_collateral(
                                    u,
                                    market_index,
                                    (collateral_of(u, market_index) - amount) as u64,
                                ),
                            ),
                        },
                    ),
                )
            },
        }
    }
}

/// The venue beginning a swap: it notes the swap on the handle and moves
/// nothing. It begins none while another is open.
pub open spec fn step_venue_begin_swap(
    s: Map<Address, Account>,
    cfg: Config,
    principal: Option<Principal>,
    accounts: Swap,
    in_market_index: u16,
    out_market_index: u16,
    amount_in: u64,
) -> Result<Map<Address, Account>, Failure> {
    if !signed_by(principal, cfg, accounts.authority) {
        Err(Failure::Local(ErrorCode::Unauthorized))
    } else if market_mint(cfg, in_market_index) is None || market_mint(cfg, out_market_index)
        is None || in_market_index == out_market_index {
        Err(Failure::Venue(VenueError::UnknownMarket))
    } else if venue_handles_missing(s, accounts.user, accounts.user_stats, accounts.authority)
        is Some {
        Err(
            Failure::Venue(
                venue_handles_missing(
                    s,
                    accounts.user,
                    accounts.user_stats,
                    accounts.authority,
                )->Some_0,
            ),
        )
    } else if token_at(s, accounts.in_token_account) is None || token_at(
        s,
        accounts.out_token_account,
    ) is None {
        Err(Failure::Local(ErrorCode::InvalidQuartzAccount))
    } else if token_at(s, accounts.in_token_account)->Some_0.mint != market_mint(
        cfg,
        in_market_index,
    )->Some_0 || token_at(s, accounts.out_token_account)->Some_0.mint != market_mint(
        cfg,
        out_market_index,
    )->Some_0 {
        Err(Failure::Local(ErrorCode::InvalidMintAddress))
    } else if venue_user_at(s, accounts.user)->Some_0.open_swap is Some {
        Err(Failure::Venue(VenueError::SwapInProgress))
    } else {
        let u = venue_user_at(s, accounts.user)->Some_0;
        Ok(
            s.insert(
                accounts.user,
                Account {
                    lamports: s[accounts.user].lamports,
                    data: AccountData::VenueUser(
                        VenueUser {
                            open_swap: Some(
                                OpenSwap { in_market_index, out_market_index, amount_in },
                            ),
                            ..u
                        },
                    ),
                },
            ),
        )
    }
}

/// The venue creating an account-stats handle for an authority.
pub open spec fn step_venue_initialize_user_stats(
    s: Map<Address, Account>,
    cfg: Config,
    signer: Address,
    principal: Option<Principal>,
    accounts: InitializeUserStats,
) -> Result<Map<Address, Account>, Failure> {
    if !signed_by(principal, cfg, accounts.authority) || accounts.payer != signer {
        Err(Failure::Local(ErrorCode::Unauthorized))
    } else if s.contains_key(accounts.user_stats) {
        Err(Failure::Venue(VenueError::AlreadyRegistered))
    } else {
        Ok(
            s.insert(
                accounts.user_stats,
                Account {
                    lamports: 0,
                    data: AccountData::VenueStats { authority: accounts.authority },
                },
            ),
        )
    }
}

/// The venue creating an account handle for an authority whose account-stats
/// handle exists.
pub open spec fn step_venue_initialize_user(
    s: Map<Address, Account>,
    cfg: Config,
    signer: Address,
    principal: Option<Principal>,
    accounts: InitializeUser,
) -> Result<Map<Address, Account>, Failure> {
    if !signed_by(principal, cfg, accounts.authority) || accounts.payer != signer {
        Err(Failure::Local(ErrorCode::Unauthorized))
    } else if venue_stats_at(s, accounts.user_stats) != Some(accounts.authority) {
        Err(Failure::Venue(VenueError::UserStatsNotFound))
    } else if s.contains_key(accounts.user) {
        Err(Failure::Venue(VenueError::AlreadyRegistered))
    } else {
        Ok(
            s.insert(
                accounts.user,
                Account {
                    lamports: 0,
                    data: AccountData::VenueUser(
                        VenueUser {
                            authority: accounts.authority,
                            usdc_collateral: 0,
                            sol_collateral: 0,
                            open_swap: None,
                        },
                    ),
                },
            ),
        )
    }
}

/// The venue destroying both handles of an authority. It refuses while the
/// account handle records collateral or an open swap.
pub open spec fn step_venue_delete_user(
    s: Map<Address, Account>,
    cfg: Config,
    principal: Option<Principal>,
    accounts: DeleteUser,
) -> Result<Map<Address, Account>, Failure> {
    if !signed_by(principal, cfg, accounts.authority) {
        Err(Failure::Local(ErrorCode::Unauthorized))
    } else if venue_handles_missing(s, accounts.user, accounts.user_stats, accounts.authority)
        is Some {
        Err(
            Failure::Venue(
                venue_handles_missing(
                    s,
                    accounts.user,
                    accounts.user_stats,
                    accounts.authority,
                )->Some_0,
            ),
        )
    } else if venue_user_at(s, accounts.user)->Some_0.usdc_collateral != 0 || venue_user_at(
        s,
        accounts.user,
    )->Some_0.sol_collateral != 0 || venue_user_at(s, accounts.user)->Some_0.open_swap is Some {
        Err(Failure::Venue(VenueError::CollateralOutstanding))
    } else {
        Ok(s.remove(accounts.user).remove(accounts.user_stats))
    }
}

/// Moving native currency out of a vault's own balance.
pub open spec fn step_debit_vault(
    s: Map<Address, Account>,
    vault: Address,
    receiver: Address,
    amount: u64,
) -> Result<Map<Address, Account>, Failure> {
    if vault_at(s, vault) is None {
        Err(Failure::Local(ErrorCode::InvalidQuartzAccount))
    } else {
        match debit(s, vault, amount) {
            Err(e) => Err(e),
            Ok(debited) => credit(debited, receiver, amount),
        }
    }
}

/// What a call into the venue comes to, given the venue's answer: a call
/// that is not authorized never reaches the venue; one that reaches it and
/// is refused fails with the venue's code; one that is accepted comes to
/// what the venue's book makes of it.
pub open spec fn answered(
    authorized: bool,
    answer: Answer,
    booked: Result<Map<Address, Account>, Failure>,
) -> Result<Map<Address, Account>, Failure> {
    if !authorized {
        Err(Failure::Local(ErrorCode::Unauthorized))
    } else {
        match answer {
            Answer::Refuse(code) => Err(Failure::Venue(VenueError::Refused(code))),
            Answer::Accept => booked,
        }
    }
}

/// What one step does to the accounts when `signer` has signed the
/// operation and the venue, where the step calls it, gives `answer`.
pub open spec fn step(
    s: Map<Address, Account>,
    cfg: Config,
    signer: Address,
    signed: SignedCall,
    answer: Answer,
) -> Result<Map<Address, Account>, Failure> {
    match signed.call {
        Call::CreateVault { vault, record, payer } => step_create_vault(
            s,
            signer,
            vault,
            record,
            payer,
        ),
        Call::OpenTokenAccount { account, mint, authority, payer } => step_open_token_account(
            s,
            signer,
            account,
            mint,
            authority,
            payer,
        ),
        Call::Transfer { from, to, amount } => step_transfer(s, signer, from, to, amount),
        Call::SyncNative { account } => step_sync_native(s, cfg, account),
        Call::TokenTransfer { from, to, authority, amount } => step_token_transfer(
            s,
            cfg,
            signer,
            signed.principal,
            from,
            to,
            authority,
            amount,
        ),
        Call::CloseAccount { account, destination, authority } => step_close_account(
            s,
            cfg,
            signed.principal,
            account,
            destination,
            authority,
        ),
        Call::VenueDeposit {
            accounts,
            remaining_accounts,
            market_index,
            amount,
            reduce_only,
        } => answered(
            signed_by(signed.principal, cfg, accounts.authority),
            answer,
            step_venue_deposit(s, cfg, signed.principal, accounts, market_index, amount),
        ),
        Call::VenueWithdraw {
            accounts,
            remaining_accounts,
            market_index,
            amount,
            reduce_only,
        } => answered(
            signed_by(signed.principal, cfg, accounts.authority),
            answer,
            step_venue_withdraw(s, cfg, signed.principal, accounts, market_index, amount),
        ),
        Call::VenueBeginSwap {
            accounts,
            remaining_accounts,
            in_market_index,
            out_market_index,
            amount_in,
        } => answered(
            signed_by(signed.principal, cfg, accounts.authority),
            answer,
            step_venue_begin_swap(
            s,
            cfg,
            signed.principal,
            accounts,
            in_market_index,
            out_market_index,
            amount_in,
        ),
        ),
        Call::VenueInitializeUserStats { accounts } => answered(
            signed_by(signed.principal, cfg, accounts.authority) && accounts.payer == signer,
            answer,
            step_venue_initialize_user_stats(
            s,
            cfg,
            signer,
            signed.principal,
            accounts,
        ),
        ),
        Call::VenueInitializeUser {
            accounts,
            sub_account_id,
            name,
        } => answered(
            signed_by(signed.principal, cfg, accounts.authority) && accounts.payer == signer,
            answer,
            step_venue_initialize_user(s, cfg, signer, signed.principal, accounts),
        ),
        Call::VenueDeleteUser { accounts } => answered(
            signed_by(signed.principal, cfg, accounts.authority),
            answer,
            step_venue_delete_user(
            s,
            cfg,
            signed.principal,
            accounts,
        ),
        ),
        Call::DebitVault { vault, receiver, amount } => step_debit_vault(
            s,
            vault,
            receiver,
            amount,
        ),
    }
}

/// The venue's answer to a step: the first of the answers left where the
/// step calls the venue and an answer is left; otherwise it accepts.
pub open spec fn answer_to(call: Call, answers: Seq<Answer>) -> Answer {
    if call.spec_is_venue_call() && answers.len() > 0 {
        answers[0]
    } else {
        Answer::Accept
    }
}

/// The answers left after a step: all but the first where the step calls
/// the venue and an answer is left; otherwise all.
pub open spec fn answers_after(call: Call, answers: Seq<Answer>) -> Seq<Answer> {
    if call.spec_is_venue_call() && answers.len() > 0 {
        answers.drop_first()
    } else {
        answers
    }
}

/// What a plan does: its steps in order, each on the accounts the one before
/// left, up to the first that fails. The venue's answers go to the calls
/// made to it, in order; where they run out, the venue accepts.
pub open spec fn run(
    s: Map<Address, Account>,
    cfg: Config,
    signer: Address,
    plan: Seq<SignedCall>,
    answers: Seq<Answer>,
) -> Result<Map<Address, Account>, Failure>
    decreases plan.len(),
{
    if plan.len() == 0 {
        Ok(s)
    } else {
        match step(s, cfg, signer, plan[0], answer_to(plan[0].call, answers)) {
            Err(e) => Err(e),
            Ok(next) => run(
                next,
                cfg,
                signer,
                plan.drop_first(),
                answers_after(plan[0].call, answers),
            ),
        }
    }
}

/// Running a plan from its `i`-th step on is running that step and then the
/// plan from the next step on.
pub proof fn lemma_run_from(
    s: Map<Address, Account>,
    cfg: Config,
    signer: Address,
    plan: Seq<SignedCall>,
    answers: Seq<Answer>,
    i: int,
)
    requires
        0 <= i <= plan.len(),
    ensures
        run(s, cfg, signer, plan.skip(i), answers) == (if i == plan.len() {
            Ok::<Map<Address, Account>, Failure>(s)
        } else {
            match step(s, cfg, signer, plan[i], answer_to(plan[i].call, answers)) {
                Err(e) => Err(e),
                Ok(next) => run(
                    next,
                    cfg,
                    signer,
                    plan.skip(i + 1),
                    answers_after(plan[i].call, answers),
                ),
            }
        }),
{
    if i < plan.len() {
        assert(plan.skip(i)[0] == plan[i]);
        assert(plan.skip(i).drop_first() =~= plan.skip(i + 1));
    }
}

/// The vault at an address and its recovery identity are the same in both
/// maps.
pub open spec fn same_vault(
    before: Map<Address, Account>,
    after: Map<Address, Account>,
    vault: Address,
) -> bool {
    vault_at(after, vault) == vault_at(before, vault) && backup_at(after, vault) == backup_at(
        before,
        vault,
    )
}

proof fn lemma_balances_keep_vaults(
    s: Map<Address, Account>,
    cfg: Config,
    a: Address,
    amount: u64,
    vault: Address,
)
    requires
        vault_at(s, vault) is Some,
    ensures
        credit(s, a, amount) is Ok ==> same_vault(s, credit(s, a, amount)->Ok_0, vault),
        debit(s, a, amount) is Ok ==> same_vault(s, debit(s, a, amount)->Ok_0, vault),
        token_credit(s, cfg, a, amount) is Ok ==> same_vault(
            s,
            token_credit(s, cfg, a, amount)->Ok_0,
            vault,
        ),
        token_debit(s, cfg, a, amount) is Ok ==> same_vault(
            s,
            token_debit(s, cfg, a, amount)->Ok_0,
            vault,
        ),
{
}

/// No step removes a vault or changes what it records.
pub proof fn lemma_step_keeps_vaults(
    s: Map<Address, Account>,
    cfg: Config,
    signer: Address,
    signed: SignedCall,
    answer: Answer,
    vault: Address,
)
    requires
        step(s, cfg, signer, signed, answer) is Ok,
        vault_at(s, vault) is Some,
    ensures
        same_vault(s, step(s, cfg, signer, signed, answer)->Ok_0, vault),
{
    match signed.call {
        Call::Transfer { from, to, amount } => {
            lemma_balances_keep_vaults(s, cfg, from, amount, vault);
            lemma_balances_keep_vaults(debit(s, from, amount)->Ok_0, cfg, to, amount, vault);
        },
        Call::DebitVault { vault: from, receiver, amount } => {
            lemma_balances_keep_vaults(s, cfg, from, amount, vault);
            lemma_balances_keep_vaults(debit(s, from, amount)->Ok_0, cfg, receiver, amount, vault);
        },
        Call::TokenTransfer { from, to, authority, amount } => {
            lemma_balances_keep_vaults(s, cfg, from, amount, vault);
            lemma_balances_keep_vaults(
                token_debit(s, cfg, from, amount)->Ok_0,
                cfg,
                to,
                amount,
                vault,
            );
        },
        Call::CloseAccount { account, destination, authority } => {
            assert(account != vault);
            assert(vault_at(s.remove(account), vault) is Some);
            lemma_balances_keep_vaults(
                s.remove(account),
                cfg,
                destination,
                s[account].lamports,
                vault,
            );
        },
        Call::VenueDeposit { accounts, remaining_accounts, market_index, amount, reduce_only } => {
            lemma_balances_keep_vaults(s, cfg, accounts.user_token_account, amount, vault);
        },
        Call::VenueWithdraw { accounts, remaining_accounts, market_index, amount, reduce_only } => {
            lemma_balances_keep_vaults(s, cfg, accounts.user_token_account, amount, vault);
        },
        _ => {},
    }
}

/// No plan removes a vault or changes what it records.
pub proof fn lemma_run_keeps_vaults(
    s: Map<Address, Account>,
    cfg: Config,
    signer: Address,
    plan: Seq<SignedCall>,
    answers: Seq<Answer>,
    vault: Address,
)
    requires
        run(s, cfg, signer, plan, answers) is Ok,
        vault_at(s, vault) is Some,
    ensures
        same_vault(s, run(s, cfg, signer, plan, answers)->Ok_0, vault),
    decreases plan.len(),
{
    if plan.len() > 0 {
        let answer = answer_to(plan[0].call, answers);
        let next = step(s, cfg, signer, plan[0], answer)->Ok_0;
        lemma_step_keeps_vaults(s, cfg, signer, plan[0], answer, vault);
        lemma_run_keeps_vaults(
            next,
            cfg,
            signer,
            plan.drop_first(),
            answers_after(plan[0].call, answers),
            vault,
        );
    }
}

} // verus!

//! Running steps and plans on a ledger.

use vstd::prelude::*;
use crate::account::Account;
use crate::account::AccountData;
use crate::account::OpenSwap;
use crate::account::TokenAccount;
use crate::account::VenueUser;
use crate::address::Address;
use crate::call::Answer;
use crate::call::Call;
use crate::call::DelegatedCall;
use crate::call::DeleteUser;
use crate::call::Deposit;
use crate::call::InitializeUser;
use crate::call::InitializeUserStats;
use crate::call::Principal;
use crate::call::Swap;
use crate::call::Withdraw;
use crate::call::plan_view;
use crate::constants::Config;
use crate::constants::DRIFT_MARKET_INDEX_SOL;
use crate::constants::DRIFT_MARKET_INDEX_USDC;
use crate::errors::ErrorCode;
use crate::errors::Failure;
use crate::errors::VenueError;
use crate::ledger::Ledger;
use crate::semantics::answer_to;
use crate::semantics::backup_at;
use crate::semantics::collateral_of;
use crate::semantics::credit;
use crate::semantics::debit;
use crate::semantics::lamports_at;
use crate::semantics::market_mint;
use crate::semantics::run;
use crate::semantics::signed_by;
use crate::semantics::step;
use crate::semantics::step_close_account;
use crate::semantics::step_create_vault;
use crate::semantics::step_debit_vault;
use crate::semantics::step_open_token_account;
use crate::semantics::step_sync_native;
use crate::semantics::step_token_transfer;
use crate::semantics::step_transfer;
use crate::semantics::step_venue_begin_swap;
use crate::semantics::step_venue_delete_user;
use crate::semantics::step_venue_deposit;
use crate::semantics::step_venue_initialize_user;
use crate::semantics::step_venue_initialize_user_stats;
use crate::semantics::step_venue_withdraw;
use crate::semantics::token_at;
use crate::semantics::token_credit;
use crate::semantics::token_debit;
use crate::semantics::vault_at;
use crate::semantics::venue_handles_missing;
use crate::semantics::venue_stats_at;
use crate::semantics::venue_user_at;
use crate::semantics::with_collateral;
use crate::state::Vault;

verus! {

/// The result and the accounts afterwards are those of `outcome`: on
/// success the accounts it gives, on failure its error and the accounts as
/// they were.
pub open spec fn realizes(
    before: Map<Address, Account>,
    after: Map<Address, Account>,
    r: Result<(), Failure>,
    outcome: Result<Map<Address, Account>, Failure>,
) -> bool {
    match outcome {
        Ok(s) => r is Ok && after == s,
        Err(e) => r is Err && r->Err_0 == e && after == before,
    }
}

fn is_signed_by(principal: &Option<Principal>, cfg: &Config, authority: &Address) -> (r: bool)
    ensures
        r == signed_by(*principal, *cfg, *authority),
{
    match principal {
        Some(p) => p.vault == *authority && p.program_id == cfg.program_id,
        None => false,
    }
}

fn mint_of_market(cfg: &Config, market_index: u16) -> (r: Option<Address>)
    ensures
        r == market_mint(*cfg, market_index),
{
    if market_index == DRIFT_MARKET_INDEX_USDC {
        Some(cfg.usdc_mint)
    } else if market_index == DRIFT_MARKET_INDEX_SOL {
        Some(cfg.wsol_mint)
    } else {
        None
    }
}

fn collateral_in(u: &VenueUser, market_index: u16) -> (r: u64)
    ensures
        r == collateral_of(*u, market_index),
{
    if market_index == DRIFT_MARKET_INDEX_USDC {
        u.usdc_collateral
    } else {
        u.sol_collateral
    }
}

fn set_collateral(u: &VenueUser, market_index: u16, value: u64) -> (r: VenueUser)
    ensures
        r == with_collateral(*u, market_index, value),
{
    if market_index == DRIFT_MARKET_INDEX_USDC {
        VenueUser {
            authority: u.authority,
            usdc_collateral: value,
            sol_collateral: u.sol_collateral,
            open_swap: u.open_swap,
        }
    } else {
        VenueUser {
            authority: u.authority,
            usdc_collateral: u.usdc_collateral,
            sol_collateral: value,
            open_swap: u.open_swap,
        }
    }
}

impl Ledger {
    /// The native balance at an address: zero where no account stands.
    pub fn lamports(&self, a: &Address) -> (r: u64)
        ensures
            r == lamports_at(self@, *a),
    {
        match self.get(a) {
            Some(account) => account.lamports,
            None => 0,
        }
    }

    /// The token account at an address, if one stands there.
    pub fn token_account(&self, a: &Address) -> (r: Option<TokenAccount>)
        ensures
            r == token_at(self@, *a),
    {
        match self.get(a) {
            Some(account) => match account.data {
                AccountData::Token(t) => Some(t),
                _ => None,
            },
            None => None,
        }
    }

    /// The vault record at an address, if a vault stands there.
    pub fn vault(&self, a: &Address) -> (r: Option<Vault>)
        ensures
            r == vault_at(self@, *a),
    {
        match self.get(a) {
            Some(account) => match account.data {
                AccountData::Vault { record, backup } => Some(record),
                _ => None,
            },
            None => None,
        }
    }

    /// The recovery identity of the vault at an address, if one is
    /// designated.
    pub fn backup(&self, a: &Address) -> (r: Option<Address>)
        ensures
            r == backup_at(self@, *a),
    {
        match self.get(a) {
            Some(account) => match account.data {
                AccountData::Vault { record, backup } => backup,
                _ => None,
            },
            None => None,
        }
    }

    /// The venue's account handle at an address, if one stands there.
    pub fn venue_user(&self, a: &Address) -> (r: Option<VenueUser>)
        ensures
            r == venue_user_at(self@, *a),
    {
        match self.get(a) {
            Some(account) => match account.data {
                AccountData::VenueUser(u) => Some(u),
                _ => None,
            },
            None => None,
        }
    }

    /// The authority of the venue's account-stats handle at an address, if
    /// one stands there.
    pub fn venue_stats(&self, a: &Address) -> (r: Option<Address>)
        ensures
            r == venue_stats_at(self@, *a),
    {
        match self.get(a) {
            Some(account) => match account.data {
                AccountData::VenueStats { authority } => Some(authority),
                _ => None,
            },
            None => None,
        }
    }

    fn credit(&mut self, a: &Address, amount: u64) -> (r: Result<(), Failure>)
        ensures
            realizes(old(self)@, final(self)@, r, credit(old(self)@, *a, amount)),
    {
        match self.get(a) {
            Some(account) => {
                if account.lamports > u64::MAX - amount {
                    return Err(Failure::Local(ErrorCode::BalanceOverflow));
                }
                self.put(*a, Account { lamports: account.lamports + amount, data: account.data });
            },
            None => {
                self.put(*a, Account { lamports: amount, data: AccountData::Wallet });
            },
        }
        Ok(())
    }

    fn debit(&mut self, a: &Address, amount: u64) -> (r: Result<(), Failure>)
        ensures
            realizes(old(self)@, final(self)@, r, debit(old(self)@, *a, amount)),
    {
        match self.get(a) {
            Some(account) => {
                if account.lamports < amount {
                    return Err(Failure::Local(ErrorCode::InsufficientFunds));
                }
                self.put(*a, Account { lamports: account.lamports - amount, data: account.data });
            },
            None => {
                if amount > 0 {
                    return Err(Failure::Local(ErrorCode::InsufficientFunds));
                }
            },
        }
        Ok(())
    }

    fn token_debit(&mut self, cfg: &Config, a: &Address, amount: u64) -> (r: Result<(), Failure>)
        ensures
            realizes(old(self)@, final(self)@, r, token_debit(old(self)@, *cfg, *a, amount)),
    {
        let account = match self.get(a) {
            Some(account) => account,
            None => {
                return Err(Failure::Local(ErrorCode::InvalidQuartzAccount));
            },
        };
        let t = match account.data {
            AccountData::Token(t) => t,
            _ => {
                return Err(Failure::Local(ErrorCode::InvalidQuartzAccount));
            },
        };
        if t.amount < amount {
            return Err(Failure::Local(ErrorCode::InsufficientFunds));
        }
        let native = t.mint == cfg.wsol_mint;
        if native && account.lamports < amount {
            return Err(Failure::Local(ErrorCode::InsufficientFunds));
        }
        let lamports = if native {
            account.lamports - amount
        } else {
            account.lamports
        };
        self.put(
            *a,
            Account {
                lamports,
                data: AccountData::Token(
                    TokenAccount { mint: t.mint, authority: t.authority, amount: t.amount - amount },
                ),
            },
        );
        Ok(())
    }

    fn token_credit(&mut self, cfg: &Config, a: &Address, amount: u64) -> (r: Result<(), Failure>)
        ensures
            realizes(old(self)@, final(self)@, r, token_credit(old(self)@, *cfg, *a, amount)),
    {
        let account = match self.get(a) {
            Some(account) => account,
            None => {
                return Err(Failure::Local(ErrorCode::InvalidQuartzAccount));
            },
        };
        let t = match account.data {
            AccountData::Token(t) => t,
            _ => {
                return Err(Failure::Local(ErrorCode::InvalidQuartzAccount));
            },
        };
        if t.amount > u64::MAX - amount {
            return Err(Failure::Local(ErrorCode::BalanceOverflow));
        }
        let native = t.mint == cfg.wsol_mint;
        if native && account.lamports > u64::MAX - amount {
            return Err(Failure::Local(ErrorCode::BalanceOverflow));
        }
        let lamports = if native {
            account.lamports + amount
        } else {
            account.lamports
        };
        self.put(
            *a,
            Account {
                lamports,
                data: AccountData::Token(
                    TokenAccount { mint: t.mint, authority: t.authority, amount: t.amount + amount },
                ),
            },
        );
        Ok(())
    }

    fn check_venue_handles(&self, user: &Address, user_stats: &Address, authority: &Address) -> (r:
        Option<VenueError>)
        ensures
            r == venue_handles_missing(self@, *user, *user_stats, *authority),
    {
        match self.venue_user(user) {
            Some(u) => {
                if !(u.authority == *authority) {
                    return Some(VenueError::UserNotFound);
                }
            },
            None => {
                return Some(VenueError::UserNotFound);
            },
        }
        match self.venue_stats(user_stats) {
            Some(a) => {
                if !(a == *authority) {
                    return Some(VenueError::UserStatsNotFound);
                }
            },
            None => {
                return Some(VenueError::UserStatsNotFound);
            },
        }
        None
    }

    fn create_vault(&mut self, signer: &Address, vault: &Address, record: &Vault, payer: &Address) -> (r:
        Result<(), Failure>)
        ensures
            realizes(
                old(self)@,
                final(self)@,
                r,
                step_create_vault(old(self)@, *signer, *vault, *record, *payer),
            ),
    {
        if !(*payer == *signer) {
            return Err(Failure::Local(ErrorCode::Unauthorized));
        }
        if self.get(vault).is_some() {
            return Err(Failure::Local(ErrorCode::AccountInUse));
        }
        self.put(
            *vault,
            Account { lamports: 0, data: AccountData::Vault { record: *record, backup: None } },
        );
        Ok(())
    }

    fn open_token_account(
        &mut self,
        signer: &Address,
        account: &Address,
        mint: &Address,
        authority: &Address,
        payer: &Address,
    ) -> (r: Result<(), Failure>)
        ensures
            realizes(
                old(self)@,
                final(self)@,
                r,
                step_open_token_account(old(self)@, *signer, *account, *mint, *authority, *payer),
            ),
    {
        if !(*payer == *signer) {
            return Err(Failure::Local(ErrorCode::Unauthorized));
        }
        if self.get(account).is_some() {
            return Err(Failure::Local(ErrorCode::AccountInUse));
        }
        self.put(
            *account,
            Account {
                lamports: 0,
                data: AccountData::Token(
                    TokenAccount { mint: *mint, authority: *authority, amount: 0 },
                ),
            },
        );
        Ok(())
    }

    fn transfer(&mut self, signer: &Address, from: &Address, to: &Address, amount: u64) -> (r:
        Result<(), Failure>)
        ensures
            realizes(
                old(self)@,
                final(self)@,
                r,
                step_transfer(old(self)@, *signer, *from, *to, amount),
            ),
    {
        if !(*from == *signer) {
            return Err(Failure::Local(ErrorCode::Unauthorized));
        }
        let before = self.snapshot();
        self.debit(from, amount)?;
        match self.credit(to, amount) {
            Ok(()) => Ok(()),
            Err(e) => {
                *self = before;
                Err(e)
            },
        }
    }

    fn sync_native(&mut self, cfg: &Config, account: &Address) -> (r: Result<(), Failure>)
        ensures
            realizes(old(self)@, final(self)@, r, step_sync_native(old(self)@, *cfg, *account)),
    {
        let held = match self.get(account) {
            Some(held) => held,
            None => {
                return Err(Failure::Local(ErrorCode::InvalidMintAddress));
            },
        };
        let t = match held.data {
            AccountData::Token(t) => t,
            _ => {
                return Err(Failure::Local(ErrorCode::InvalidMintAddress));
            },
        };
        if !(t.mint == cfg.wsol_mint) {
            return Err(Failure::Local(ErrorCode::InvalidMintAddress));
        }
        self.put(
            *account,
            Account {
                lamports: held.lamports,
                data: AccountData::Token(
                    TokenAccount { mint: t.mint, authority: t.authority, amount: held.lamports },
                ),
            },
        );
        Ok(())
    }

    fn token_transfer(
        &mut self,
        cfg: &Config,
        signer: &Address,
        principal: &Option<Principal>,
        from: &Address,
        to: &Address,
        authority: &Address,
        amount: u64,
    ) -> (r: Result<(), Failure>)
        ensures
            realizes(
                old(self)@,
                final(self)@,
                r,
                step_token_transfer(
                    old(self)@,
                    *cfg,
                    *signer,
                    *principal,
                    *from,
                    *to,
                    *authority,
                    amount,
                ),
            ),
    {
        if !is_signed_by(principal, cfg, authority) && !(*authority == *signer) {
            return Err(Failure::Local(ErrorCode::Unauthorized));
        }
        let source = self.token_account(from);
        let target = self.token_account(to);
        let (source, target) = match (source, target) {
            (Some(source), Some(target)) => (source, target),
            _ => {
                return Err(Failure::Local(ErrorCode::InvalidQuartzAccount));
            },
        };
        if !(source.authority == *authority) {
            return Err(Failure::Local(ErrorCode::Unauthorized));
        }
        if !(source.mint == target.mint) {
            return Err(Failure::Local(ErrorCode::InvalidMintAddress));
        }
        let before = self.snapshot();
        self.token_debit(cfg, from, amount)?;
        match self.token_credit(cfg, to, amount) {
            Ok(()) => Ok(()),
            Err(e) => {
                *self = before;
                Err(e)
            },
        }
    }

    fn close_account(
        &mut self,
        cfg: &Config,
        principal: &Option<Principal>,
        account: &Address,
        destination: &Address,
        authority: &Address,
    ) -> (r: Result<(), Failure>)
        ensures
            realizes(
                old(self)@,
                final(self)@,
                r,
                step_close_account(old(self)@, *cfg, *principal, *account, *destination, *authority),
            ),
    {
        if !is_signed_by(principal, cfg, authority) {
            return Err(Failure::Local(ErrorCode::Unauthorized));
        }
        let t = match self.token_account(account) {
            Some(t) => t,
            None => {
                return Err(Failure::Local(ErrorCode::InvalidQuartzAccount));
            },
        };
        if *destination == *account {
            return Err(Failure::Local(ErrorCode::InvalidQuartzAccount));
        }
        if !(t.authority == *authority) {
            return Err(Failure::Local(ErrorCode::Unauthorized));
        }
        if !(t.mint == cfg.wsol_mint) && t.amount != 0 {
            return Err(Failure::Local(ErrorCode::AccountNotEmpty));
        }
        let residue = self.lamports(account);
        let before = self.snapshot();
        self.remove(account);
        match self.credit(destination, residue) {
            Ok(()) => Ok(()),
            Err(e) => {
                *self = before;
                Err(e)
            },
        }
    }

    fn venue_deposit(
        &mut self,
        cfg: &Config,
        principal: &Option<Principal>,
        accounts: &Deposit,
        market_index: u16,
        amount: u64,
    ) -> (r: Result<(), Failure>)
        ensures
            realizes(
                old(self)@,
                final(self)@,
                r,
                step_venue_deposit(old(self)@, *cfg, *principal, *accounts, market_index, amount),
            ),
    {
        if !is_signed_by(principal, cfg, &accounts.authority) {
            return Err(Failure::Local(ErrorCode::Unauthorized));
        }
        let mint = match mint_of_market(cfg, market_index) {
            Some(mint) => mint,
            None => {
                return Err(Failure::Venue(VenueError::UnknownMarket));
            },
        };
        match self.check_venue_handles(&accounts.user, &accounts.user_stats, &accounts.authority) {
            Some(e) => {
                return Err(Failure::Venue(e));
            },
            None => {},
        }
        let t = match self.token_account(&accounts.user_token_account) {
            Some(t) => t,
            None => {
                return Err(Failure::Local(ErrorCode::InvalidQuartzAccount));
            },
        };
        if !(t.mint == mint) {
            return Err(Failure::Local(ErrorCode::InvalidMintAddress));
        }
        if !(t.authority == accounts.authority) {
            return Err(Failure::Local(ErrorCode::Unauthorized));
        }
        let handle = match self.get(&accounts.user) {
            Some(handle) => handle,
            None => {
                return Err(Failure::Venue(VenueError::UserNotFound));
            },
        };
        let u = match handle.data {
            AccountData::VenueUser(u) => u,
            _ => {
                return Err(Failure::Venue(VenueError::UserNotFound));
            },
        };
        let recorded = collateral_in(&u, market_index);
        if recorded > u64::MAX - amount {
            return Err(Failure::Venue(VenueError::MathError));
        }
        self.token_debit(cfg, &accounts.user_token_account, amount)?;
        self.put(
            accounts.user,
            Account {
                lamports: handle.lamports,
                data: AccountData::VenueUser(set_collateral(&u, market_index, recorded + amount)),
            },
        );
        Ok(())
    }

    fn venue_withdraw(
        &mut self,
        cfg: &Config,
        principal: &Option<Principal>,
        accounts: &Withdraw,
        market_index: u16,
        amount: u64,
    ) -> (r: Result<(), Failure>)
        ensures
            realizes(
                old(self)@,
                final(self)@,
                r,
                step_venue_withdraw(old(self)@, *cfg, *principal, *accounts, market_index, amount),
            ),
    {
        if !is_signed_by(principal, cfg, &accounts.authority) {
            return Err(Failure::Local(ErrorCode::Unauthorized));
        }
        let mint = match mint_of_market(cfg, market_index) {
            Some(mint) => mint,
            None => {
                return Err(Failure::Venue(VenueError::UnknownMarket));
            },
        };
        match self.check_venue_handles(&accounts.user, &accounts.user_stats, &accounts.authority) {
            Some(e) => {
                return Err(Failure::Venue(e));
            },
            None => {},
        }
        let t = match self.token_account(&accounts.user_token_account) {
            Some(t) => t,
            None => {
                return Err(Failure::Local(ErrorCode::InvalidQuartzAccount));
            },
        };
        if !(t.mint == mint) {
            return Err(Failure::Local(ErrorCode::InvalidMintAddress));
        }
        let handle = match self.get(&accounts.user) {
            Some(handle) => handle,
            None => {
                return Err(Failure::Venue(VenueError::UserNotFound));
            },
        };
        let u = match handle.data {
            AccountData::VenueUser(u) => u,
            _ => {
                return Err(Failure::Venue(VenueError::UserNotFound));
            },
        };
        let recorded = collateral_in(&u, market_index);
        if recorded < amount {
            return Err(Failure::Venue(VenueError::InsufficientCollateral));
        }
        self.token_credit(cfg, &accounts.user_token_account, amount)?;
        self.put(
            accounts.user,
            Account {
                lamports: handle.lamports,
                data: AccountData::VenueUser(set_collateral(&u, market_index, recorded - amount)),
            },
        );
        Ok(())
    }

    fn venue_begin_swap(
        &mut self,
        cfg: &Config,
        principal: &Option<Principal>,
        accounts: &Swap,
        in_market_index: u16,
        out_market_index: u16,
        amount_in: u64,
    ) -> (r: Result<(), Failure>)
        ensures
            realizes(
                old(self)@,
                final(self)@,
                r,
                step_venue_begin_swap(
                    old(self)@,
                    *cfg,
                    *principal,
                    *accounts,
                    in_market_index,
                    out_market_index,
                    amount_in,
                ),
            ),
    {
        if !is_signed_by(principal, cfg, &accounts.authority) {
            return Err(Failure::Local(ErrorCode::Unauthorized));
        }
        let in_mint = mint_of_market(cfg, in_market_index);
        let out_mint = mint_of_market(cfg, out_market_index);
        let (in_mint, out_mint) = match (in_mint, out_mint) {
            (Some(in_mint), Some(out_mint)) => (in_mint, out_mint),
            _ => {
                return Err(Failure::Venue(VenueError::UnknownMarket));
            },
        };
        if in_market_index == out_market_index {
            return Err(Failure::Venue(VenueError::UnknownMarket));
        }
        match self.check_venue_handles(&accounts.user, &accounts.user_stats, &accounts.authority) {
            Some(e) => {
                return Err(Failure::Venue(e));
            },
            None => {},
        }
        let in_account = self.token_account(&accounts.in_token_account);
        let out_account = self.token_account(&accounts.out_token_account);
        let (in_account, out_account) = match (in_account, out_account) {
            (Some(in_account), Some(out_account)) => (in_account, out_account),
            _ => {
                return Err(Failure::Local(ErrorCode::InvalidQuartzAccount));
            },
        };
        if !(in_account.mint == in_mint) || !(out_account.mint == out_mint) {
            return Err(Failure::Local(ErrorCode::InvalidMintAddress));
        }
        let handle = match self.get(&accounts.user) {
            Some(handle) => handle,
            None => {
                return Err(Failure::Venue(VenueError::UserNotFound));
            },
        };
        let u = match handle.data {
            AccountData::VenueUser(u) => u,
            _ => {
                return Err(Failure::Venue(VenueError::UserNotFound));
            },
        };
        if u.open_swap.is_some() {
            return Err(Failure::Venue(VenueError::SwapInProgress));
        }
        self.put(
            accounts.user,
            Account {
                lamports: handle.lamports,
                data: AccountData::VenueUser(
                    VenueUser {
                        authority: u.authority,
                        usdc_collateral: u.usdc_collateral,
                        sol_collateral: u.sol_collateral,
                        open_swap: Some(OpenSwap { in_market_index, out_market_index, amount_in }),
                    },
                ),
            },
        );
        Ok(())
    }

    fn venue_initialize_user_stats(
        &mut self,
        cfg: &Config,
        signer: &Address,
        principal: &Option<Principal>,
        accounts: &InitializeUserStats,
    ) -> (r: Result<(), Failure>)
        ensures
            realizes(
                old(self)@,
                final(self)@,
                r,
                step_venue_initialize_user_stats(old(self)@, *cfg, *signer, *principal, *accounts),
            ),
    {
        if !is_signed_by(principal, cfg, &accounts.authority) || !(accounts.payer == *signer) {
            return Err(Failure::Local(ErrorCode::Unauthorized));
        }
        if self.get(&accounts.user_stats).is_some() {
            return Err(Failure::Venue(VenueError::AlreadyRegistered));
        }
        self.put(
            accounts.user_stats,
            Account { lamports: 0, data: AccountData::VenueStats { authority: accounts.authority } },
        );
        Ok(())
    }

    fn venue_initialize_user(
        &mut self,
        cfg: &Config,
        signer: &Address,
        principal: &Option<Principal>,
        accounts: &InitializeUser,
    ) -> (r: Result<(), Failure>)
        ensures
            realizes(
                old(self)@,
                final(self)@,
                r,
                step_venue_initialize_user(old(self)@, *cfg, *signer, *principal, *accounts),
            ),
    {
        if !is_signed_by(principal, cfg, &accounts.authority) || !(accounts.payer == *signer) {
            return Err(Failure::Local(ErrorCode::Unauthorized));
        }
        match self.venue_stats(&accounts.user_stats) {
            Some(a) => {
                if !(a == accounts.authority) {
                    return Err(Failure::Venue(VenueError::UserStatsNotFound));
                }
            },
            None => {
                return Err(Failure::Venue(VenueError::UserStatsNotFound));
            },
        }
        if self.get(&accounts.user).is_some() {
            return Err(Failure::Venue(VenueError::AlreadyRegistered));
        }
        self.put(
            accounts.user,
            Account {
                lamports: 0,
                data: AccountData::VenueUser(
                    VenueUser {
                        authority: accounts.authority,
                        usdc_collateral: 0,
                        sol_collateral: 0,
                        open_swap: None,
                    },
                ),
            },
        );
        Ok(())
    }

    fn venue_delete_user(
        &mut self,
        cfg: &Config,
        principal: &Option<Principal>,
        accounts: &DeleteUser,
    ) -> (r: Result<(), Failure>)
        ensures
            realizes(
                old(self)@,
                final(self)@,
                r,
                step_venue_delete_user(old(self)@, *cfg, *principal, *accounts),
            ),
    {
        if !is_signed_by(principal, cfg, &accounts.authority) {
            return Err(Failure::Local(ErrorCode::Unauthorized));
        }
        match self.check_venue_handles(&accounts.user, &accounts.user_stats, &accounts.authority) {
            Some(e) => {
                return Err(Failure::Venue(e));
            },
            None => {},
        }
        let u = match self.venue_user(&accounts.user) {
            Some(u) => u,
            None => {
                return Err(Failure::Venue(VenueError::UserNotFound));
            },
        };
        if u.usdc_collateral != 0 || u.sol_collateral != 0 || u.open_swap.is_some() {
            return Err(Failure::Venue(VenueError::CollateralOutstanding));
        }
        self.remove(&accounts.user);
        self.remove(&accounts.user_stats);
        Ok(())
    }

    fn debit_vault(&mut self, vault: &Address, receiver: &Address, amount: u64) -> (r: Result<
        (),
        Failure,
    >)
        ensures
            realizes(
                old(self)@,
                final(self)@,
                r,
                step_debit_vault(old(self)@, *vault, *receiver, amount),
            ),
    {
        if self.vault(vault).is_none() {
            return Err(Failure::Local(ErrorCode::InvalidQuartzAccount));
        }
        let before = self.snapshot();
        self.debit(vault, amount)?;
        match self.credit(receiver, amount) {
            Ok(()) => Ok(()),
            Err(e) => {
                *self = before;
                Err(e)
            },
        }
    }

    /// Runs one step for an operation that `signer` has signed, with the
    /// venue's answer where the step calls the venue. A step that fails
    /// leaves the ledger as it was.
    pub fn invoke(
        &mut self,
        cfg: &Config,
        signer: &Address,
        call: &DelegatedCall,
        answer: Answer,
    ) -> (r: Result<(), Failure>)
        ensures
            realizes(old(self)@, final(self)@, r, step(old(self)@, *cfg, *signer, call@, answer)),
    {
        let principal = call.principal();
        match &call.call {
            Call::CreateVault { vault, record, payer } => self.create_vault(
                signer,
                vault,
                record,
                payer,
            ),
            Call::OpenTokenAccount { account, mint, authority, payer } => self.open_token_account(
                signer,
                account,
                mint,
                authority,
                payer,
            ),
            Call::Transfer { from, to, amount } => self.transfer(signer, from, to, *amount),
            Call::SyncNative { account } => self.sync_native(cfg, account),
            Call::TokenTransfer { from, to, authority, amount } => self.token_transfer(
                cfg,
                signer,
                &principal,
                from,
                to,
                authority,
                *amount,
            ),
            Call::CloseAccount { account, destination, authority } => self.close_account(
                cfg,
                &principal,
                account,
                destination,
                authority,
            ),
            Call::VenueDeposit {
                accounts,
                remaining_accounts,
                market_index,
                amount,
                reduce_only,
            } => {
                refusal(is_signed_by(&principal, cfg, &accounts.authority), answer)?;
                self.venue_deposit(cfg, &principal, accounts, *market_index, *amount)
            },
            Call::VenueWithdraw {
                accounts,
                remaining_accounts,
                market_index,
                amount,
                reduce_only,
            } => {
                refusal(is_signed_by(&principal, cfg, &accounts.authority), answer)?;
                self.venue_withdraw(cfg, &principal, accounts, *market_index, *amount)
            },
            Call::VenueBeginSwap {
                accounts,
                remaining_accounts,
                in_market_index,
                out_market_index,
                amount_in,
            } => {
                refusal(is_signed_by(&principal, cfg, &accounts.authority), answer)?;
                self.venue_begin_swap(
                    cfg,
                    &principal,
                    accounts,
                    *in_market_index,
                    *out_market_index,
                    *amount_in,
                )
            },
            Call::VenueInitializeUserStats { accounts } => {
                refusal(
                    is_signed_by(&principal, cfg, &accounts.authority) && accounts.payer
                        == *signer,
                    answer,
                )?;
                self.venue_initialize_user_stats(cfg, signer, &principal, accounts)
            },
            Call::VenueInitializeUser { accounts, sub_account_id, name } => {
                refusal(
                    is_signed_by(&principal, cfg, &accounts.authority) && accounts.payer
                        == *signer,
                    answer,
                )?;
                self.venue_initialize_user(cfg, signer, &principal, accounts)
            },
            Call::VenueDeleteUser { accounts } => {
                refusal(is_signed_by(&principal, cfg, &accounts.authority), answer)?;
                self.venue_delete_user(cfg, &principal, accounts)
            },
            Call::DebitVault { vault, receiver, amount } => self.debit_vault(
                vault,
                receiver,
                *amount,
            ),
        }
    }

    /// Runs a plan as one unit: all of its steps in order, or, where one of
    /// them fails, none of them. The venue's answers go to the calls made
    /// to it, in order; where they run out, the venue accepts.
    pub fn execute(
        &mut self,
        cfg: &Config,
        signer: &Address,
        plan: &Vec<DelegatedCall>,
        answers: &Vec<Answer>,
    ) -> (r: Result<(), Failure>)
        ensures
            realizes(
                old(self)@,
                final(self)@,
                r,
                run(old(self)@, *cfg, *signer, plan_view(plan@), answers@),
            ),
    {
        let mut work = self.snapshot();
        let mut i: usize = 0;
        let mut k: usize = 0;
        assert(plan_view(plan@).skip(0) =~= plan_view(plan@));
        assert(answers@.skip(0) =~= answers@);
        while i < plan.len()
            invariant
                i <= plan.len(),
                k <= answers.len(),
                run(self@, *cfg, *signer, plan_view(plan@), answers@) == run(
                    work@,
                    *cfg,
                    *signer,
                    plan_view(plan@).skip(i as int),
                    answers@.skip(k as int),
                ),
            decreases plan.len() - i,
        {
            let ghost rest = plan_view(plan@).skip(i as int);
            let ghost left = answers@.skip(k as int);
            assert(rest[0] == plan@[i as int]@);
            assert(rest.drop_first() =~= plan_view(plan@).skip(i + 1));
            let asked = plan[i].call.is_venue_call() && k < answers.len();
            let answer = if asked {
                answers[k]
            } else {
                Answer::Accept
            };
            proof {
                if asked {
                    assert(left[0] == answers@[k as int]);
                    assert(left.drop_first() =~= answers@.skip(k + 1));
                }
                assert(answer == answer_to(rest[0].call, left));
            }
            match work.invoke(cfg, signer, &plan[i], answer) {
                Ok(()) => {},
                Err(e) => {
                    return Err(e);
                },
            }
            if asked {
                k += 1;
            }
            i += 1;
        }
        assert(plan_view(plan@).skip(i as int).len() == 0);
        *self = work;
        Ok(())
    }
}

/// The failure of a call into the venue before the venue's book is
/// consulted, if there is one: `Unauthorized` for a call that is not
/// authorized, the venue's code for one that it refuses.
fn refusal(authorized: bool, answer: Answer) -> (r: Result<(), Failure>)
    ensures
        r is Ok <==> authorized && answer == Answer::Accept,
        !authorized ==> r is Err && r->Err_0 == Failure::Local(ErrorCode::Unauthorized),
        authorized && answer is Refuse ==> r is Err && r->Err_0 == Failure::Venue(
            VenueError::Refused(answer->Refuse_0),
        ),
{
    if !authorized {
        return Err(Failure::Local(ErrorCode::Unauthorized));
    }
    match answer {
        Answer::Refuse(code) => Err(Failure::Venue(VenueError::Refused(code))),
        Answer::Accept => Ok(()),
    }
}

} // verus!

use funds_program::account::Account;
use funds_program::account::AccountData;
use funds_program::account::OpenSwap;
use funds_program::account::TokenAccount;
use funds_program::account::VenueUser;
use funds_program::address::Address;
use funds_program::call::Answer;
use funds_program::constants::Config;
use funds_program::constants::DRIFT_MARKET_INDEX_SOL;
use funds_program::constants::DRIFT_MARKET_INDEX_USDC;
use funds_program::errors::ErrorCode;
use funds_program::errors::ErrorKind;
use funds_program::errors::Failure;
use funds_program::errors::VenueError;
use funds_program::instructions::begin_swap::begin_swap;
use funds_program::instructions::begin_swap::BeginSwap;
use funds_program::instructions::checks::associated_token_address;
use funds_program::instructions::checks::check_vault;
use funds_program::instructions::checks::check_venue_accounts;
use funds_program::instructions::checks::custody_address;
use funds_program::instructions::checks::initial_custody_address;
use funds_program::instructions::checks::spot_market_vault_address;
use funds_program::instructions::checks::venue_state_address;
use funds_program::instructions::checks::venue_user_address;
use funds_program::instructions::checks::venue_user_stats_address;
use funds_program::instructions::close_drift_account::close_drift_account;
use funds_program::instructions::close_drift_account::CloseDriftAccount;
use funds_program::instructions::deposit_lamports::deposit_lamports;
use funds_program::instructions::deposit_lamports::DepositLamports;
use funds_program::instructions::deposit_usdc::deposit_usdc;
use funds_program::instructions::deposit_usdc::DepositUsdc;
use funds_program::instructions::init_account::initialize_drift_user;
use funds_program::instructions::init_account::initialize_drift_user_handler;
use funds_program::instructions::init_account::DriftUserInit;
use funds_program::instructions::init_drift_account::init_drift_account;
use funds_program::instructions::init_drift_account::InitDriftAccount;
use funds_program::instructions::init_user::init_user;
use funds_program::instructions::init_user::InitializeUser;
use funds_program::instructions::stake_lamports::stake_lamports_handler;
use funds_program::instructions::stake_lamports::StakeLamports;
use funds_program::instructions::transfer_lamports::transfer_lamports;
use funds_program::instructions::transfer_lamports::TransferLamports;
use funds_program::instructions::withdraw_lamports::withdraw_lamports;
use funds_program::instructions::withdraw_lamports::WithdrawLamports;
use funds_program::instructions::withdraw_usdc::withdraw_usdc;
use funds_program::instructions::withdraw_usdc::WithdrawUsdc;
use funds_program::ledger::Ledger;
use funds_program::state::Vault;

fn addr(n: u8) -> Address {
    Address::new([n; 32])
}

fn wallet(lamports: u64) -> Account {
    Account { lamports, data: AccountData::Wallet }
}

fn token(mint: Address, authority: Address, amount: u64) -> Account {
    Account { lamports: 0, data: AccountData::Token(TokenAccount { mint, authority, amount }) }
}

fn local(code: ErrorCode) -> Result<(), Failure> {
    Err(Failure::Local(code))
}

struct World {
    cfg: Config,
    ledger: Ledger,
    owner: Address,
    vault: Address,
    nonce: u8,
    owner_usdc: Address,
    drift_state: Address,
    drift_user: Address,
    drift_user_stats: Address,
}

fn world(owner: Address, balance: u64) -> World {
    let cfg = Config::devnet();
    let mut ledger = Ledger::new();
    ledger.put(owner, wallet(balance));
    let (vault, nonce) = funds_program::authority::derive(&owner, &cfg.program_id).unwrap();
    let owner_usdc = associated_token_address(&owner, &cfg.usdc_mint, &cfg).unwrap();
    ledger.put(owner_usdc, token(cfg.usdc_mint, owner, 1_000));
    World {
        cfg,
        ledger,
        owner,
        vault,
        nonce,
        owner_usdc,
        drift_state: venue_state_address(&cfg.drift_program).unwrap(),
        drift_user: venue_user_address(&vault, &cfg.drift_program).unwrap(),
        drift_user_stats: venue_user_stats_address(&vault, &cfg.drift_program).unwrap(),
    }
}

fn init_ctx(w: &World) -> InitializeUser {
    InitializeUser {
        vault: w.vault,
        vault_usdc: initial_custody_address(&w.owner, &w.cfg.usdc_mint, &w.cfg).unwrap(),
        stake_account: addr(200),
        owner: w.owner,
        usdc_mint: w.cfg.usdc_mint,
        stake_program: w.cfg.stake_program,
    }
}

fn register_ctx(w: &World) -> InitDriftAccount {
    InitDriftAccount {
        vault: w.vault,
        owner: w.owner,
        drift_user: w.drift_user,
        drift_user_stats: w.drift_user_stats,
        drift_state: w.drift_state,
        drift_program: w.cfg.drift_program,
    }
}

fn deregister_ctx(w: &World) -> CloseDriftAccount {
    CloseDriftAccount {
        vault: w.vault,
        owner: w.owner,
        drift_user: w.drift_user,
        drift_user_stats: w.drift_user_stats,
        drift_state: w.drift_state,
        drift_program: w.cfg.drift_program,
    }
}

fn deposit_ctx(w: &World) -> DepositLamports {
    DepositLamports {
        vault: w.vault,
        vault_wsol: custody_address(&w.vault, &w.cfg.wsol_mint, &w.cfg).unwrap(),
        owner: w.owner,
        drift_state: w.drift_state,
        drift_user: w.drift_user,
        drift_user_stats: w.drift_user_stats,
        spot_market_vault: spot_market_vault_address(DRIFT_MARKET_INDEX_SOL, &w.cfg.drift_program)
            .unwrap(),
        wsol_mint: w.cfg.wsol_mint,
        drift_program: w.cfg.drift_program,
        const_account: addr(210),
        spot_market: addr(211),
    }
}

fn withdraw_native_ctx(w: &World) -> WithdrawLamports {
    WithdrawLamports {
        vault: w.vault,
        vault_wsol: custody_address(&w.vault, &w.cfg.wsol_mint, &w.cfg).unwrap(),
        owner: w.owner,
        drift_state: w.drift_state,
        drift_user: w.drift_user,
        drift_user_stats: w.drift_user_stats,
        spot_market_vault: spot_market_vault_address(DRIFT_MARKET_INDEX_SOL, &w.cfg.drift_program)
            .unwrap(),
        drift_signer: addr(212),
        wsol_mint: w.cfg.wsol_mint,
        drift_program: w.cfg.drift_program,
        const_account: addr(210),
        additional_account: addr(213),
        spot_market_sol: addr(211),
        spot_market_usdc: addr(214),
    }
}

fn deposit_stable_ctx(w: &World) -> DepositUsdc {
    DepositUsdc {
        vault: w.vault,
        vault_usdc: custody_address(&w.vault, &w.cfg.usdc_mint, &w.cfg).unwrap(),
        owner: w.owner,
        owner_usdc: w.owner_usdc,
        drift_state: w.drift_state,
        drift_user: w.drift_user,
        drift_user_stats: w.drift_user_stats,
        spot_market_vault: spot_market_vault_address(DRIFT_MARKET_INDEX_USDC, &w.cfg.drift_program)
            .unwrap(),
        usdc_mint: w.cfg.usdc_mint,
        drift_program: w.cfg.drift_program,
        const_account: addr(210),
        spot_market: addr(214),
    }
}

fn withdraw_ctx(w: &World) -> WithdrawUsdc {
    WithdrawUsdc {
        vault: w.vault,
        vault_usdc: custody_address(&w.vault, &w.cfg.usdc_mint, &w.cfg).unwrap(),
        owner: w.owner,
        owner_usdc: w.owner_usdc,
        drift_state: w.drift_state,
        drift_user: w.drift_user,
        drift_user_stats: w.drift_user_stats,
        spot_market_vault: spot_market_vault_address(DRIFT_MARKET_INDEX_USDC, &w.cfg.drift_program)
            .unwrap(),
        drift_signer: addr(212),
        usdc_mint: w.cfg.usdc_mint,
        drift_program: w.cfg.drift_program,
        const_account: addr(210),
        additional_account: addr(213),
        spot_market_sol: addr(211),
        spot_market_usdc: addr(214),
    }
}

fn swap_ctx(w: &World) -> BeginSwap {
    BeginSwap {
        vault: w.vault,
        vault_wsol: custody_address(&w.vault, &w.cfg.wsol_mint, &w.cfg).unwrap(),
        vault_usdc: custody_address(&w.vault, &w.cfg.usdc_mint, &w.cfg).unwrap(),
        owner: w.owner,
        drift_state: w.drift_state,
        drift_user: w.drift_user,
        drift_user_stats: w.drift_user_stats,
        in_spot_market_vault: spot_market_vault_address(
            DRIFT_MARKET_INDEX_SOL,
            &w.cfg.drift_program,
        )
        .unwrap(),
        out_spot_market_vault: spot_market_vault_address(
            DRIFT_MARKET_INDEX_USDC,
            &w.cfg.drift_program,
        )
        .unwrap(),
        drift_signer: addr(212),
        wsol_mint: w.cfg.wsol_mint,
        usdc_mint: w.cfg.usdc_mint,
        instructions: addr(215),
        const_account: addr(210),
        additional_account: addr(213),
        spot_market_sol: addr(211),
        spot_market_usdc: addr(214),
        drift_program: w.cfg.drift_program,
    }
}

fn with_vault(owner: Address, balance: u64) -> World {
    let mut w = world(owner, balance);
    let ctx = init_ctx(&w);
    assert_eq!(init_user(&mut w.ledger, &w.cfg, &owner, &ctx), Ok(()));
    w
}

fn registered(owner: Address, balance: u64) -> World {
    let mut w = with_vault(owner, balance);
    let ctx = register_ctx(&w);
    assert_eq!(init_drift_account(&mut w.ledger, &w.cfg, &owner, &ctx, &Vec::new()), Ok(()));
    w
}

fn collateral(w: &World) -> (u64, u64) {
    let u = w.ledger.venue_user(&w.drift_user).unwrap();
    (u.usdc_collateral, u.sol_collateral)
}

#[test]
fn second_vault_for_an_owner_is_refused() {
    let owner = addr(1);
    let mut w = with_vault(owner, 10);
    let ctx = init_ctx(&w);
    assert_eq!(init_user(&mut w.ledger, &w.cfg, &owner, &ctx), local(ErrorCode::AccountInUse));
    let mut elsewhere = ctx;
    elsewhere.vault = addr(77);
    assert_eq!(
        init_user(&mut w.ledger, &w.cfg, &owner, &elsewhere),
        local(ErrorCode::InvalidVaultAddress)
    );
    assert_eq!(w.ledger.get(&addr(77)), None);
    let mut other_ref = ctx;
    other_ref.stake_account = addr(201);
    assert_eq!(init_user(&mut w.ledger, &w.cfg, &owner, &other_ref), local(ErrorCode::AccountInUse));
    assert_eq!(w.ledger.vault(&w.vault).unwrap().external_account_ref, addr(200));
}

#[test]
fn vault_creation_checks() {
    let owner = addr(1);
    let mut w = world(owner, 10);
    let ctx = init_ctx(&w);

    let mut wrong_mint = ctx;
    wrong_mint.usdc_mint = w.cfg.wsol_mint;
    assert_eq!(
        init_user(&mut w.ledger, &w.cfg, &owner, &wrong_mint),
        local(ErrorCode::InvalidMintAddress)
    );
    let mut wrong_program = ctx;
    wrong_program.stake_program = w.cfg.token_program;
    assert_eq!(
        init_user(&mut w.ledger, &w.cfg, &owner, &wrong_program),
        local(ErrorCode::InvalidStakeProgram)
    );
    assert_eq!(init_user(&mut w.ledger, &w.cfg, &addr(2), &ctx), local(ErrorCode::Unauthorized));
    let mut wrong_slot = ctx;
    wrong_slot.vault_usdc = addr(78);
    assert_eq!(
        init_user(&mut w.ledger, &w.cfg, &owner, &wrong_slot),
        local(ErrorCode::InvalidAccountAddress)
    );
    assert_eq!(w.ledger.get(&w.vault), None);
    assert_eq!(w.ledger.get(&ctx.vault_usdc), None);

    w.ledger.put(ctx.vault_usdc, wallet(0));
    assert_eq!(init_user(&mut w.ledger, &w.cfg, &owner, &ctx), local(ErrorCode::AccountInUse));
    assert_eq!(w.ledger.get(&w.vault), None);
    assert_eq!(ctx.validate(&w.cfg, &owner), Ok(w.nonce));
}

#[test]
fn two_owners_have_two_vaults() {
    let mut w = with_vault(addr(1), 10);
    let other = world(addr(2), 10);
    let ctx = init_ctx(&other);
    w.ledger.put(addr(2), wallet(10));
    assert_eq!(init_user(&mut w.ledger, &w.cfg, &addr(2), &ctx), Ok(()));
    assert!(w.vault != other.vault);
    assert_eq!(w.ledger.vault(&w.vault).unwrap().owner, addr(1));
    assert_eq!(w.ledger.vault(&other.vault).unwrap().owner, addr(2));
}

#[test]
fn registration_creates_both_handles_once() {
    let owner = addr(1);
    let mut w = with_vault(owner, 10);
    let ctx = register_ctx(&w);
    assert_eq!(init_drift_account(&mut w.ledger, &w.cfg, &addr(2), &ctx, &Vec::new()), local(ErrorCode::Unauthorized));
    assert_eq!(w.ledger.get(&w.drift_user), None);
    assert_eq!(init_drift_account(&mut w.ledger, &w.cfg, &owner, &ctx, &Vec::new()), Ok(()));
    assert_eq!(w.ledger.venue_stats(&w.drift_user_stats), Some(w.vault));
    assert_eq!(
        w.ledger.venue_user(&w.drift_user),
        Some(VenueUser { authority: w.vault, usdc_collateral: 0, sol_collateral: 0, open_swap: None })
    );
    assert_eq!(
        init_drift_account(&mut w.ledger, &w.cfg, &owner, &ctx, &Vec::new()),
        Err(Failure::Venue(VenueError::AlreadyRegistered))
    );
}

#[test]
fn registration_is_undone_when_the_second_call_fails() {
    let owner = addr(1);
    let mut w = with_vault(owner, 10);
    let ctx = register_ctx(&w);
    w.ledger.put(w.drift_user, wallet(0));
    assert_eq!(
        init_drift_account(&mut w.ledger, &w.cfg, &owner, &ctx, &Vec::new()),
        Err(Failure::Venue(VenueError::AlreadyRegistered))
    );
    assert_eq!(w.ledger.get(&w.drift_user_stats), None);
    assert_eq!(w.ledger.get(&w.drift_user), Some(wallet(0)));
}

#[test]
fn registration_checks() {
    let owner = addr(1);
    let mut w = with_vault(owner, 10);
    let ctx = register_ctx(&w);
    let mut wrong_program = ctx;
    wrong_program.drift_program = w.cfg.token_program;
    assert_eq!(
        init_drift_account(&mut w.ledger, &w.cfg, &owner, &wrong_program, &Vec::new()),
        local(ErrorCode::InvalidDriftProgram)
    );
    let mut wrong_state = ctx;
    wrong_state.drift_state = addr(80);
    assert_eq!(
        init_drift_account(&mut w.ledger, &w.cfg, &owner, &wrong_state, &Vec::new()),
        local(ErrorCode::InvalidAccountAddress)
    );
    let mut wrong_user = ctx;
    wrong_user.drift_user = w.drift_user_stats;
    assert_eq!(
        init_drift_account(&mut w.ledger, &w.cfg, &owner, &wrong_user, &Vec::new()),
        local(ErrorCode::InvalidAccountAddress)
    );
    let mut wrong_stats = ctx;
    wrong_stats.drift_user_stats = w.drift_user;
    assert_eq!(
        init_drift_account(&mut w.ledger, &w.cfg, &owner, &wrong_stats, &Vec::new()),
        local(ErrorCode::InvalidAccountAddress)
    );
    let mut no_vault = ctx;
    no_vault.vault = addr(81);
    assert_eq!(
        init_drift_account(&mut w.ledger, &w.cfg, &owner, &no_vault, &Vec::new()),
        local(ErrorCode::InvalidQuartzAccount)
    );
    assert_eq!(
        check_venue_accounts(
            &w.cfg,
            &w.cfg.drift_program,
            &w.vault,
            &w.drift_state,
            &w.drift_user,
            &w.drift_user_stats
        ),
        None
    );
}

#[test]
fn a_vault_away_from_its_derived_address_is_refused() {
    let owner = addr(1);
    let mut w = with_vault(owner, 10);
    let record = w.ledger.vault(&w.vault).unwrap();
    let forged = addr(90);
    w.ledger.put(forged, Account { lamports: 0, data: AccountData::Vault { record, backup: None } });
    assert_eq!(
        check_vault(&w.ledger, &w.cfg, &owner, &forged, &owner),
        Err(ErrorCode::InvalidVaultAddress)
    );
    assert_eq!(check_vault(&w.ledger, &w.cfg, &owner, &w.vault, &owner), Ok(record));
    assert_eq!(
        check_vault(&w.ledger, &w.cfg, &addr(2), &w.vault, &owner),
        Err(ErrorCode::Unauthorized)
    );
    assert_eq!(
        check_vault(&w.ledger, &w.cfg, &addr(2), &w.vault, &addr(2)),
        Err(ErrorCode::Unauthorized)
    );
    assert_eq!(
        check_vault(&w.ledger, &w.cfg, &owner, &owner, &owner),
        Err(ErrorCode::InvalidQuartzAccount)
    );
    let wrong_nonce = Vault { derivation_nonce: w.nonce.wrapping_add(1), ..record };
    w.ledger.put(
        w.vault,
        Account { lamports: 0, data: AccountData::Vault { record: wrong_nonce, backup: None } },
    );
    assert_eq!(
        check_vault(&w.ledger, &w.cfg, &owner, &w.vault, &owner),
        Err(ErrorCode::InvalidVaultAddress)
    );
    let mut ctx = deposit_ctx(&w);
    ctx.vault = forged;
    assert_eq!(
        deposit_lamports(&mut w.ledger, &w.cfg, &owner, &ctx, 1, false, &Vec::new()),
        local(ErrorCode::InvalidVaultAddress)
    );
}

#[test]
fn deposit_native_checks() {
    let owner = addr(1);
    let mut w = registered(owner, 1_000);
    let ctx = deposit_ctx(&w);

    let mut wrong_mint = ctx;
    wrong_mint.wsol_mint = w.cfg.usdc_mint;
    assert_eq!(
        deposit_lamports(&mut w.ledger, &w.cfg, &addr(2), &wrong_mint, 10, false, &Vec::new()),
        local(ErrorCode::InvalidMintAddress)
    );
    assert_eq!(
        deposit_lamports(&mut w.ledger, &w.cfg, &addr(2), &ctx, 10, false, &Vec::new()),
        local(ErrorCode::Unauthorized)
    );
    let mut other_owner = ctx;
    other_owner.owner = addr(2);
    assert_eq!(
        deposit_lamports(&mut w.ledger, &w.cfg, &addr(2), &other_owner, 10, false, &Vec::new()),
        local(ErrorCode::Unauthorized)
    );
    let mut wrong_holding = ctx;
    wrong_holding.vault_wsol = addr(91);
    assert_eq!(
        deposit_lamports(&mut w.ledger, &w.cfg, &owner, &wrong_holding, 10, false, &Vec::new()),
        local(ErrorCode::InvalidAccountAddress)
    );
    let mut wrong_market = ctx;
    wrong_market.spot_market_vault =
        spot_market_vault_address(DRIFT_MARKET_INDEX_USDC, &w.cfg.drift_program).unwrap();
    assert_eq!(
        deposit_lamports(&mut w.ledger, &w.cfg, &owner, &wrong_market, 10, false, &Vec::new()),
        local(ErrorCode::InvalidAccountAddress)
    );
    let mut wrong_program = ctx;
    wrong_program.drift_program = addr(92);
    assert_eq!(
        deposit_lamports(&mut w.ledger, &w.cfg, &owner, &wrong_program, 10, false, &Vec::new()),
        local(ErrorCode::InvalidDriftProgram)
    );
    assert_eq!(
        deposit_lamports(&mut w.ledger, &w.cfg, &owner, &ctx, 0, false, &Vec::new()),
        local(ErrorCode::InvalidAmount)
    );
    let r = deposit_lamports(&mut w.ledger, &w.cfg, &owner, &ctx, 1_001, false, &Vec::new());
    assert_eq!(r, local(ErrorCode::InsufficientFunds));
    assert_eq!(r.unwrap_err().kind(), ErrorKind::InsufficientFunds);
    assert_eq!(w.ledger.lamports(&owner), 1_000);
    assert_eq!(collateral(&w), (0, 0));
    assert_eq!(w.ledger.get(&ctx.vault_wsol), None);

    assert_eq!(deposit_lamports(&mut w.ledger, &w.cfg, &owner, &ctx, 1_000, true, &Vec::new()), Ok(()));
    assert_eq!(w.ledger.lamports(&owner), 0);
    assert_eq!(collateral(&w), (0, 1_000));
}

#[test]
fn deposit_native_rejected_by_venue_leaves_no_trace() {
    let owner = addr(1);
    let mut w = with_vault(owner, 1_000);
    let ctx = deposit_ctx(&w);
    let r = deposit_lamports(&mut w.ledger, &w.cfg, &owner, &ctx, 400, false, &Vec::new());
    assert_eq!(r, Err(Failure::Venue(VenueError::UserNotFound)));
    assert_eq!(w.ledger.lamports(&owner), 1_000);
    assert_eq!(w.ledger.get(&ctx.vault_wsol), None);
    assert_eq!(w.ledger.get(&w.drift_user), None);

    w.ledger.put(ctx.vault_wsol, wallet(0));
    assert_eq!(
        deposit_lamports(&mut w.ledger, &w.cfg, &owner, &ctx, 400, false, &Vec::new()),
        local(ErrorCode::AccountInUse)
    );
    assert_eq!(w.ledger.get(&ctx.vault_wsol), Some(wallet(0)));
}

#[test]
fn withdraw_native_returns_the_deposit() {
    let owner = addr(1);
    let mut w = registered(owner, 1_000);
    let ctx = deposit_ctx(&w);
    assert_eq!(deposit_lamports(&mut w.ledger, &w.cfg, &owner, &ctx, 700, false, &Vec::new()), Ok(()));
    let ctx = withdraw_native_ctx(&w);
    assert_eq!(
        withdraw_lamports(&mut w.ledger, &w.cfg, &owner, &ctx, 701, true, &Vec::new()),
        Err(Failure::Venue(VenueError::InsufficientCollateral))
    );
    assert_eq!(w.ledger.get(&ctx.vault_wsol), None);
    assert_eq!(withdraw_lamports(&mut w.ledger, &w.cfg, &addr(2), &ctx, 1, true, &Vec::new()), local(ErrorCode::Unauthorized));
    let mut wrong_mint = ctx;
    wrong_mint.wsol_mint = addr(3);
    assert_eq!(
        withdraw_lamports(&mut w.ledger, &w.cfg, &owner, &wrong_mint, 1, true, &Vec::new()),
        local(ErrorCode::InvalidMintAddress)
    );
    assert_eq!(withdraw_lamports(&mut w.ledger, &w.cfg, &owner, &ctx, 300, true, &Vec::new()), Ok(()));
    assert_eq!(w.ledger.lamports(&owner), 600);
    assert_eq!(collateral(&w), (0, 400));
    assert_eq!(w.ledger.get(&ctx.vault_wsol), None);
}

#[test]
fn stable_deposit_then_withdrawal() {
    let owner = addr(1);
    let mut w = registered(owner, 10);
    let ctx = deposit_stable_ctx(&w);
    assert_eq!(deposit_usdc(&mut w.ledger, &w.cfg, &owner, &ctx, 600, false, &Vec::new()), Ok(()));
    assert_eq!(w.ledger.token_account(&w.owner_usdc).unwrap().amount, 400);
    assert_eq!(collateral(&w), (600, 0));
    assert_eq!(w.ledger.get(&ctx.vault_usdc), None);
    assert_eq!(w.ledger.lamports(&owner), 10);

    let ctx = withdraw_ctx(&w);
    assert_eq!(withdraw_usdc(&mut w.ledger, &w.cfg, &owner, &ctx, 500, true, &Vec::new()), Ok(()));
    assert_eq!(w.ledger.token_account(&w.owner_usdc).unwrap().amount, 900);
    assert_eq!(collateral(&w), (100, 0));
    assert_eq!(w.ledger.get(&ctx.vault_usdc), None);
    assert_eq!(
        withdraw_usdc(&mut w.ledger, &w.cfg, &owner, &ctx, 101, true, &Vec::new()),
        Err(Failure::Venue(VenueError::InsufficientCollateral))
    );
    assert_eq!(withdraw_usdc(&mut w.ledger, &w.cfg, &owner, &ctx, 100, false, &Vec::new()), Ok(()));
    assert_eq!(w.ledger.token_account(&w.owner_usdc).unwrap().amount, 1_000);
    assert_eq!(collateral(&w), (0, 0));
}

#[test]
fn stable_deposit_checks() {
    let owner = addr(1);
    let mut w = registered(owner, 10);
    let ctx = deposit_stable_ctx(&w);
    assert_eq!(
        deposit_usdc(&mut w.ledger, &w.cfg, &owner, &ctx, 0, false, &Vec::new()),
        local(ErrorCode::InvalidAmount)
    );
    assert_eq!(
        deposit_usdc(&mut w.ledger, &w.cfg, &owner, &ctx, 1_001, false, &Vec::new()),
        local(ErrorCode::InsufficientFunds)
    );
    assert_eq!(
        deposit_usdc(&mut w.ledger, &w.cfg, &addr(2), &ctx, 1, false, &Vec::new()),
        local(ErrorCode::Unauthorized)
    );
    let mut wrong_mint = ctx;
    wrong_mint.usdc_mint = w.cfg.wsol_mint;
    assert_eq!(
        deposit_usdc(&mut w.ledger, &w.cfg, &owner, &wrong_mint, 1, false, &Vec::new()),
        local(ErrorCode::InvalidMintAddress)
    );
    let mut wrong_holding = ctx;
    wrong_holding.vault_usdc = addr(93);
    assert_eq!(
        deposit_usdc(&mut w.ledger, &w.cfg, &owner, &wrong_holding, 1, false, &Vec::new()),
        local(ErrorCode::InvalidAccountAddress)
    );
    w.ledger.put(w.owner_usdc, token(w.cfg.wsol_mint, owner, 1_000));
    assert_eq!(
        deposit_usdc(&mut w.ledger, &w.cfg, &owner, &ctx, 1, false, &Vec::new()),
        local(ErrorCode::InvalidMintAddress)
    );
    assert_eq!(collateral(&w), (0, 0));
}

#[test]
fn stable_withdrawal_checks() {
    let owner = addr(1);
    let mut w = registered(owner, 10);
    let ctx = withdraw_ctx(&w);

    let mut wrong_mint = ctx;
    wrong_mint.usdc_mint = w.cfg.wsol_mint;
    assert_eq!(
        withdraw_usdc(&mut w.ledger, &w.cfg, &addr(2), &wrong_mint, 1, true, &Vec::new()),
        local(ErrorCode::InvalidMintAddress)
    );
    assert_eq!(
        withdraw_usdc(&mut w.ledger, &w.cfg, &addr(2), &ctx, 1, true, &Vec::new()),
        local(ErrorCode::Unauthorized)
    );
    let mut elsewhere = ctx;
    elsewhere.owner_usdc = addr(94);
    assert_eq!(
        withdraw_usdc(&mut w.ledger, &w.cfg, &owner, &elsewhere, 1, true, &Vec::new()),
        local(ErrorCode::InvalidMintAddress)
    );
    w.ledger.put(addr(94), token(w.cfg.usdc_mint, owner, 0));
    assert_eq!(
        withdraw_usdc(&mut w.ledger, &w.cfg, &owner, &elsewhere, 1, true, &Vec::new()),
        local(ErrorCode::InvalidAccountAddress)
    );
    w.ledger.put(addr(94), token(w.cfg.usdc_mint, addr(2), 0));
    assert_eq!(
        withdraw_usdc(&mut w.ledger, &w.cfg, &owner, &elsewhere, 1, true, &Vec::new()),
        local(ErrorCode::Unauthorized)
    );
    w.ledger.put(w.owner_usdc, token(w.cfg.wsol_mint, owner, 0));
    assert_eq!(
        withdraw_usdc(&mut w.ledger, &w.cfg, &owner, &ctx, 1, true, &Vec::new()),
        local(ErrorCode::InvalidMintAddress)
    );
    w.ledger.put(w.owner_usdc, wallet(5));
    assert_eq!(
        withdraw_usdc(&mut w.ledger, &w.cfg, &owner, &ctx, 1, true, &Vec::new()),
        local(ErrorCode::InvalidMintAddress)
    );
    assert_eq!(w.ledger.get(&ctx.vault_usdc), None);
}

#[test]
fn stable_withdrawal_that_cannot_be_credited_is_undone() {
    let owner = addr(1);
    let mut w = registered(owner, 10);
    let ctx = deposit_stable_ctx(&w);
    assert_eq!(deposit_usdc(&mut w.ledger, &w.cfg, &owner, &ctx, 600, false, &Vec::new()), Ok(()));
    w.ledger.put(w.owner_usdc, token(w.cfg.usdc_mint, owner, u64::MAX));
    let ctx = withdraw_ctx(&w);
    assert_eq!(
        withdraw_usdc(&mut w.ledger, &w.cfg, &owner, &ctx, 1, true, &Vec::new()),
        local(ErrorCode::BalanceOverflow)
    );
    assert_eq!(collateral(&w), (600, 0));
    assert_eq!(w.ledger.get(&ctx.vault_usdc), None);
    assert_eq!(w.ledger.token_account(&w.owner_usdc).unwrap().amount, u64::MAX);
}

#[test]
fn swap_begins_once() {
    let owner = addr(1);
    let mut w = registered(owner, 10);
    let ctx = swap_ctx(&w);
    let mut wrong_mint = ctx;
    wrong_mint.usdc_mint = w.cfg.wsol_mint;
    assert_eq!(
        begin_swap(&mut w.ledger, &w.cfg, &owner, &wrong_mint, 25, &Vec::new()),
        local(ErrorCode::InvalidMintAddress)
    );
    let mut wrong_mint = ctx;
    wrong_mint.wsol_mint = w.cfg.usdc_mint;
    assert_eq!(
        begin_swap(&mut w.ledger, &w.cfg, &owner, &wrong_mint, 25, &Vec::new()),
        local(ErrorCode::InvalidMintAddress)
    );
    assert_eq!(begin_swap(&mut w.ledger, &w.cfg, &addr(2), &ctx, 25, &Vec::new()), local(ErrorCode::Unauthorized));
    assert_eq!(begin_swap(&mut w.ledger, &w.cfg, &owner, &ctx, 25, &Vec::new()), Ok(()));
    assert_eq!(
        w.ledger.venue_user(&w.drift_user).unwrap().open_swap,
        Some(OpenSwap {
            in_market_index: DRIFT_MARKET_INDEX_SOL,
            out_market_index: DRIFT_MARKET_INDEX_USDC,
            amount_in: 25
        })
    );
    assert_eq!(w.ledger.get(&ctx.vault_wsol), Some(token(w.cfg.wsol_mint, w.vault, 0)));
    assert_eq!(w.ledger.get(&ctx.vault_usdc), Some(token(w.cfg.usdc_mint, w.vault, 0)));
    assert_eq!(begin_swap(&mut w.ledger, &w.cfg, &owner, &ctx, 25, &Vec::new()), local(ErrorCode::AccountInUse));
    let close = deregister_ctx(&w);
    assert_eq!(
        close_drift_account(&mut w.ledger, &w.cfg, &owner, &close, &Vec::new()),
        Err(Failure::Venue(VenueError::CollateralOutstanding))
    );
}

#[test]
fn deregistration_needs_an_empty_account() {
    let owner = addr(1);
    let mut w = registered(owner, 1_000);
    let ctx = deposit_ctx(&w);
    assert_eq!(deposit_lamports(&mut w.ledger, &w.cfg, &owner, &ctx, 5, false, &Vec::new()), Ok(()));
    let close = deregister_ctx(&w);
    assert_eq!(
        close_drift_account(&mut w.ledger, &w.cfg, &owner, &close, &Vec::new()),
        Err(Failure::Venue(VenueError::CollateralOutstanding))
    );
    assert_eq!(collateral(&w), (0, 5));
    let back = withdraw_native_ctx(&w);
    assert_eq!(withdraw_lamports(&mut w.ledger, &w.cfg, &owner, &back, 5, true, &Vec::new()), Ok(()));
    assert_eq!(
        close_drift_account(&mut w.ledger, &w.cfg, &addr(2), &close, &Vec::new()),
        local(ErrorCode::Unauthorized)
    );
    assert_eq!(close_drift_account(&mut w.ledger, &w.cfg, &owner, &close, &Vec::new()), Ok(()));
    assert_eq!(w.ledger.get(&w.drift_user), None);
    assert_eq!(w.ledger.get(&w.drift_user_stats), None);
    assert_eq!(
        close_drift_account(&mut w.ledger, &w.cfg, &owner, &close, &Vec::new()),
        Err(Failure::Venue(VenueError::UserNotFound))
    );
    assert!(w.ledger.vault(&w.vault).is_some());
}

#[test]
fn internal_transfer_by_the_recovery_identity() {
    let owner = addr(1);
    let backup = addr(2);
    let receiver = addr(4);
    let mut w = with_vault(owner, 10);
    let record = w.ledger.vault(&w.vault).unwrap();
    let ctx = TransferLamports { vault: w.vault, receiver, backup };

    w.ledger.put(w.vault, Account { lamports: 1_000, data: AccountData::Vault { record, backup: None } });
    assert_eq!(
        transfer_lamports(&mut w.ledger, &w.cfg, &backup, &ctx, 100),
        local(ErrorCode::Unauthorized)
    );
    w.ledger.put(
        w.vault,
        Account { lamports: 1_000, data: AccountData::Vault { record, backup: Some(backup) } },
    );
    let by_owner = TransferLamports { vault: w.vault, receiver, backup: owner };
    assert_eq!(
        transfer_lamports(&mut w.ledger, &w.cfg, &owner, &by_owner, 100),
        local(ErrorCode::Unauthorized)
    );
    assert_eq!(
        transfer_lamports(&mut w.ledger, &w.cfg, &owner, &ctx, 100),
        local(ErrorCode::Unauthorized)
    );
    let r = transfer_lamports(&mut w.ledger, &w.cfg, &backup, &ctx, 1_001);
    assert_eq!(r, local(ErrorCode::InsufficientFunds));
    assert_eq!(r.unwrap_err().kind(), ErrorKind::InsufficientFunds);
    let nowhere = TransferLamports { vault: addr(95), receiver, backup };
    assert_eq!(
        transfer_lamports(&mut w.ledger, &w.cfg, &backup, &nowhere, 1),
        local(ErrorCode::InvalidQuartzAccount)
    );
    assert_eq!(w.ledger.lamports(&w.vault), 1_000);
    assert_eq!(w.ledger.get(&receiver), None);

    assert_eq!(transfer_lamports(&mut w.ledger, &w.cfg, &backup, &ctx, 100), Ok(()));
    assert_eq!(w.ledger.lamports(&w.vault), 900);
    assert_eq!(w.ledger.lamports(&receiver), 100);
    assert_eq!(w.ledger.vault(&w.vault), Some(record));
    assert_eq!(w.ledger.backup(&w.vault), Some(backup));
    assert_eq!(transfer_lamports(&mut w.ledger, &w.cfg, &backup, &ctx, 900), Ok(()));
    assert_eq!(w.ledger.lamports(&w.vault), 0);
    assert_eq!(w.ledger.lamports(&receiver), 1_000);
}

#[test]
fn internal_transfer_from_a_forged_vault_is_refused() {
    let owner = addr(1);
    let backup = addr(2);
    let mut w = with_vault(owner, 10);
    let record = w.ledger.vault(&w.vault).unwrap();
    let forged = addr(96);
    w.ledger.put(
        forged,
        Account { lamports: 50, data: AccountData::Vault { record, backup: Some(backup) } },
    );
    let ctx = TransferLamports { vault: forged, receiver: addr(4), backup };
    let r = transfer_lamports(&mut w.ledger, &w.cfg, &backup, &ctx, 10);
    assert_eq!(r, local(ErrorCode::InvalidVaultAddress));
    assert_eq!(r.unwrap_err().kind(), ErrorKind::Authorization);
    assert_eq!(w.ledger.lamports(&forged), 50);
}

#[test]
fn searched_registration_needs_the_owners_signature() {
    let owner = addr(1);
    let stranger = addr(2);
    let mut w = with_vault(owner, 10);
    let ctx = DriftUserInit {
        pda_account: w.vault,
        user: w.drift_user,
        user_stats: w.drift_user_stats,
        state: w.drift_state,
        authority: w.vault,
        payer: owner,
        owner,
        drift_program: w.cfg.drift_program,
    };
    let mut paid_by_stranger = ctx;
    paid_by_stranger.payer = stranger;
    assert_eq!(
        initialize_drift_user(&mut w.ledger, &w.cfg, &stranger, &paid_by_stranger, &Vec::new()),
        local(ErrorCode::Unauthorized)
    );
    assert_eq!(
        initialize_drift_user(&mut w.ledger, &w.cfg, &owner, &paid_by_stranger, &Vec::new()),
        local(ErrorCode::Unauthorized)
    );
    assert_eq!(
        initialize_drift_user(&mut w.ledger, &w.cfg, &stranger, &ctx, &Vec::new()),
        local(ErrorCode::Unauthorized)
    );
    let mut wrong_program = ctx;
    wrong_program.drift_program = addr(97);
    assert_eq!(
        initialize_drift_user(&mut w.ledger, &w.cfg, &stranger, &wrong_program, &Vec::new()),
        local(ErrorCode::Unauthorized)
    );
    assert_eq!(
        initialize_drift_user(&mut w.ledger, &w.cfg, &owner, &wrong_program, &Vec::new()),
        local(ErrorCode::InvalidDriftProgram)
    );
    let mut wrong_authority = ctx;
    wrong_authority.authority = owner;
    assert_eq!(
        initialize_drift_user(&mut w.ledger, &w.cfg, &owner, &wrong_authority, &Vec::new()),
        local(ErrorCode::Unauthorized)
    );
    let mut wrong_address = ctx;
    wrong_address.pda_account = addr(98);
    wrong_address.authority = addr(98);
    assert_eq!(
        initialize_drift_user(&mut w.ledger, &w.cfg, &owner, &wrong_address, &Vec::new()),
        local(ErrorCode::InvalidVaultAddress)
    );
    assert_eq!(
        initialize_drift_user_handler(&w.ledger, &w.cfg, &owner, &wrong_address).unwrap_err(),
        ErrorCode::InvalidVaultAddress
    );
    assert_eq!(
        initialize_drift_user_handler(&w.ledger, &w.cfg, &stranger, &ctx).unwrap_err(),
        ErrorCode::Unauthorized
    );
    assert_eq!(w.ledger.get(&w.drift_user_stats), None);
    assert_eq!(w.ledger.get(&w.drift_user), None);

    assert_eq!(initialize_drift_user(&mut w.ledger, &w.cfg, &owner, &ctx, &Vec::new()), Ok(()));
    assert_eq!(w.ledger.venue_stats(&w.drift_user_stats), Some(w.vault));
    assert_eq!(w.ledger.venue_user(&w.drift_user).unwrap().authority, w.vault);
    assert_eq!(
        initialize_drift_user(&mut w.ledger, &w.cfg, &owner, &ctx, &Vec::new()),
        Err(Failure::Venue(VenueError::AlreadyRegistered))
    );
}

#[test]
fn searched_registration_needs_the_owners_vault() {
    let owner = addr(1);
    let mut w = world(owner, 10);
    let ctx = DriftUserInit {
        pda_account: w.vault,
        user: w.drift_user,
        user_stats: w.drift_user_stats,
        state: w.drift_state,
        authority: w.vault,
        payer: owner,
        owner,
        drift_program: w.cfg.drift_program,
    };
    assert_eq!(
        initialize_drift_user(&mut w.ledger, &w.cfg, &owner, &ctx, &Vec::new()),
        local(ErrorCode::InvalidQuartzAccount)
    );
    let forged = Vault { owner: addr(2), external_account_ref: addr(3), derivation_nonce: w.nonce };
    w.ledger.put(
        w.vault,
        Account { lamports: 0, data: AccountData::Vault { record: forged, backup: None } },
    );
    assert_eq!(
        initialize_drift_user(&mut w.ledger, &w.cfg, &owner, &ctx, &Vec::new()),
        local(ErrorCode::Unauthorized)
    );
    let stale = Vault { owner, external_account_ref: addr(3), derivation_nonce: w.nonce.wrapping_sub(1) };
    w.ledger.put(
        w.vault,
        Account { lamports: 0, data: AccountData::Vault { record: stale, backup: None } },
    );
    assert_eq!(
        initialize_drift_user(&mut w.ledger, &w.cfg, &owner, &ctx, &Vec::new()),
        local(ErrorCode::InvalidVaultAddress)
    );
    assert_eq!(w.ledger.get(&w.drift_user_stats), None);
    assert_eq!(w.ledger.get(&w.drift_user), None);
}

#[test]
fn staking_issues_no_call() {
    let owner = addr(1);
    let w = with_vault(owner, 10);
    let ctx = StakeLamports { vault: w.vault, owner };
    assert!(stake_lamports_handler(&ctx, 5).is_empty());
    assert!(stake_lamports_handler(&ctx, u64::MAX).is_empty());
    assert_eq!(ctx.validate(&w.ledger, &w.cfg, &owner), Ok(w.ledger.vault(&w.vault).unwrap()));
    assert_eq!(ctx.validate(&w.ledger, &w.cfg, &addr(2)), Err(ErrorCode::Unauthorized));
}

#[test]
fn derived_addresses_are_what_the_checks_are_held_against() {
    let owner = addr(1);
    let w = registered(owner, 10);
    let derived = funds_program::instructions::checks::derive_addresses(&w.ledger, &w.cfg, &w.vault, &owner);
    assert_eq!(derived.vault, Some(w.vault));
    assert_eq!(derived.vault_wsol, custody_address(&w.vault, &w.cfg.wsol_mint, &w.cfg));
    assert_eq!(derived.vault_usdc, custody_address(&w.vault, &w.cfg.usdc_mint, &w.cfg));
    assert_eq!(derived.owner_usdc, Some(w.owner_usdc));
    assert_eq!(derived.drift_state, Some(w.drift_state));
    assert_eq!(derived.drift_user, Some(w.drift_user));
    assert_eq!(derived.drift_user_stats, Some(w.drift_user_stats));
    assert_eq!(
        derived.sol_market_vault,
        spot_market_vault_address(DRIFT_MARKET_INDEX_SOL, &w.cfg.drift_program)
    );
    assert_eq!(
        derived.usdc_market_vault,
        spot_market_vault_address(DRIFT_MARKET_INDEX_USDC, &w.cfg.drift_program)
    );
    let nowhere =
        funds_program::instructions::checks::derive_addresses(&w.ledger, &w.cfg, &owner, &owner);
    assert_eq!(nowhere.vault, None);
    assert!(nowhere.vault_wsol != derived.vault_wsol);

    let ctx = deposit_ctx(&w);
    assert_eq!(ctx.decide(&w.ledger, &w.cfg, &owner, 5, &derived), ctx.validate(&w.ledger, &w.cfg, &owner, 5));
    assert_eq!(ctx.decide(&w.ledger, &w.cfg, &owner, 5, &derived), Ok(w.ledger.vault(&w.vault).unwrap()));
}

#[test]
fn decisions_follow_the_addresses_given() {
    let owner = addr(1);
    let w = registered(owner, 10);
    let good = funds_program::instructions::checks::derive_addresses(&w.ledger, &w.cfg, &w.vault, &owner);
    let ctx = deposit_ctx(&w);

    let mut d = good;
    d.vault = None;
    assert_eq!(ctx.decide(&w.ledger, &w.cfg, &owner, 5, &d), Err(ErrorCode::InvalidVaultAddress));
    let mut d = good;
    d.vault = Some(addr(9));
    assert_eq!(ctx.decide(&w.ledger, &w.cfg, &owner, 5, &d), Err(ErrorCode::InvalidVaultAddress));
    let mut d = good;
    d.vault_wsol = Some(addr(9));
    assert_eq!(ctx.decide(&w.ledger, &w.cfg, &owner, 5, &d), Err(ErrorCode::InvalidAccountAddress));
    let mut d = good;
    d.drift_user = None;
    assert_eq!(ctx.decide(&w.ledger, &w.cfg, &owner, 5, &d), Err(ErrorCode::InvalidAccountAddress));
    let mut d = good;
    d.sol_market_vault = d.usdc_market_vault;
    assert_eq!(ctx.decide(&w.ledger, &w.cfg, &owner, 5, &d), Err(ErrorCode::InvalidAccountAddress));
    let mut d = good;
    d.vault_usdc = None;
    d.owner_usdc = None;
    d.usdc_market_vault = None;
    assert_eq!(ctx.decide(&w.ledger, &w.cfg, &owner, 5, &d), Ok(w.ledger.vault(&w.vault).unwrap()));
    assert_eq!(ctx.decide(&w.ledger, &w.cfg, &owner, 0, &d), Err(ErrorCode::InvalidAmount));
    assert_eq!(ctx.decide(&w.ledger, &w.cfg, &owner, 11, &d), Err(ErrorCode::InsufficientFunds));

    let ctx = withdraw_ctx(&w);
    assert_eq!(ctx.decide(&w.ledger, &w.cfg, &owner, &good), Ok(w.ledger.vault(&w.vault).unwrap()));
    let mut d = good;
    d.owner_usdc = Some(addr(9));
    assert_eq!(ctx.decide(&w.ledger, &w.cfg, &owner, &d), Err(ErrorCode::InvalidAccountAddress));
    let mut d = good;
    d.vault_usdc = None;
    assert_eq!(ctx.decide(&w.ledger, &w.cfg, &owner, &d), Err(ErrorCode::InvalidAccountAddress));

    let ctx = init_ctx(&w);
    let custody = Some(ctx.vault_usdc);
    assert_eq!(ctx.decide(&w.cfg, &owner, &Some((w.vault, 200)), &custody), Ok(200));
    assert_eq!(ctx.decide(&w.cfg, &owner, &None, &custody), Err(ErrorCode::InvalidVaultAddress));
    assert_eq!(
        ctx.decide(&w.cfg, &owner, &Some((addr(9), 200)), &custody),
        Err(ErrorCode::InvalidVaultAddress)
    );
    assert_eq!(
        ctx.decide(&w.cfg, &owner, &Some((w.vault, 200)), &None),
        Err(ErrorCode::InvalidAccountAddress)
    );
    assert_eq!(
        ctx.decide(&w.cfg, &addr(2), &Some((w.vault, 200)), &custody),
        Err(ErrorCode::Unauthorized)
    );
}

#[test]
fn a_refused_deposit_leaves_no_trace() {
    let owner = addr(1);
    let mut w = registered(owner, 1_000);
    let ctx = deposit_ctx(&w);
    let r = deposit_lamports(&mut w.ledger, &w.cfg, &owner, &ctx, 400, false, &vec![Answer::Refuse(6_077)]);
    assert_eq!(r, Err(Failure::Venue(VenueError::Refused(6_077))));
    assert_eq!(r.unwrap_err().kind(), ErrorKind::ExternalVenue);
    assert_eq!(w.ledger.lamports(&owner), 1_000);
    assert_eq!(w.ledger.get(&ctx.vault_wsol), None);
    assert_eq!(collateral(&w), (0, 0));
    assert_eq!(
        deposit_lamports(&mut w.ledger, &w.cfg, &addr(2), &ctx, 400, false, &vec![Answer::Refuse(6_077)]),
        local(ErrorCode::Unauthorized)
    );
}

#[test]
fn a_registration_refused_at_its_second_call_is_undone() {
    let owner = addr(1);
    let mut w = with_vault(owner, 10);
    let ctx = register_ctx(&w);
    assert_eq!(
        init_drift_account(&mut w.ledger, &w.cfg, &owner, &ctx, &vec![Answer::Accept, Answer::Refuse(9)]),
        Err(Failure::Venue(VenueError::Refused(9)))
    );
    assert_eq!(w.ledger.get(&w.drift_user_stats), None);
    assert_eq!(w.ledger.get(&w.drift_user), None);
    assert_eq!(
        init_drift_account(&mut w.ledger, &w.cfg, &owner, &ctx, &vec![Answer::Refuse(8), Answer::Refuse(9)]),
        Err(Failure::Venue(VenueError::Refused(8)))
    );
    assert_eq!(init_drift_account(&mut w.ledger, &w.cfg, &owner, &ctx, &vec![Answer::Accept]), Ok(()));
    let close = deregister_ctx(&w);
    assert_eq!(
        close_drift_account(&mut w.ledger, &w.cfg, &owner, &close, &vec![Answer::Refuse(7)]),
        Err(Failure::Venue(VenueError::Refused(7)))
    );
    assert!(w.ledger.venue_user(&w.drift_user).is_some());
}

use funds_program::account::Account;
use funds_program::account::AccountData;
use funds_program::account::TokenAccount;
use funds_program::account::VenueUser;
use funds_program::address::Address;
use funds_program::call::Answer;
use funds_program::constants::Config;
use funds_program::constants::DRIFT_MARKET_INDEX_SOL;
use funds_program::constants::DRIFT_MARKET_INDEX_USDC;
use funds_program::errors::ErrorCode;
use funds_program::errors::ErrorKind;
use funds_program::errors::Failure;
use funds_program::errors::VenueError;
use funds_program::instructions::checks::associated_token_address;
use funds_program::instructions::checks::custody_address;
use funds_program::instructions::checks::initial_custody_address;
use funds_program::instructions::checks::spot_market_vault_address;
use funds_program::instructions::checks::venue_state_address;
use funds_program::instructions::checks::venue_user_address;
use funds_program::instructions::checks::venue_user_stats_address;
use funds_program::instructions::deposit_lamports::deposit_lamports;
use funds_program::instructions::deposit_lamports::DepositLamports;
use funds_program::instructions::init_drift_account::init_drift_account;
use funds_program::instructions::init_drift_account::InitDriftAccount;
use funds_program::instructions::init_user::init_user;
use funds_program::instructions::init_user::InitializeUser;
use funds_program::instructions::transfer_lamports::transfer_lamports;
use funds_program::instructions::transfer_lamports::TransferLamports;
use funds_program::instructions::withdraw_usdc::withdraw_usdc;
use funds_program::instructions::withdraw_usdc::WithdrawUsdc;
use funds_program::ledger::Ledger;
use funds_program::state::Vault;

fn addr(n: u8) -> Address {
    Address::new([n; 32])
}

fn wallet(lamports: u64) -> Account {
    Account { lamports, data: AccountData::Wallet }
}

struct World {
    cfg: Config,
    ledger: Ledger,
    owner: Address,
    stake_account: Address,
    vault: Address,
    nonce: u8,
    vault_usdc_slot: Address,
    drift_state: Address,
    drift_user: Address,
    drift_user_stats: Address,
}

fn world(owner: Address, balance: u64) -> World {
    let cfg = Config::devnet();
    let mut ledger = Ledger::new();
    ledger.put(owner, wallet(balance));
    let (vault, nonce) = funds_program::authority::derive(&owner, &cfg.program_id).unwrap();
    World {
        cfg,
        ledger,
        owner,
        stake_account: addr(200),
        vault,
        nonce,
        vault_usdc_slot: initial_custody_address(&owner, &cfg.usdc_mint, &cfg).unwrap(),
        drift_state: venue_state_address(&cfg.drift_program).unwrap(),
        drift_user: venue_user_address(&vault, &cfg.drift_program).unwrap(),
        drift_user_stats: venue_user_stats_address(&vault, &cfg.drift_program).unwrap(),
    }
}

fn init_ctx(w: &World) -> InitializeUser {
    InitializeUser {
        vault: w.vault,
        vault_usdc: w.vault_usdc_slot,
        stake_account: w.stake_account,
        owner: w.owner,
        usdc_mint: w.cfg.usdc_mint,
        stake_program: w.cfg.stake_program,
    }
}

fn register_ctx(w: &World) -> InitDriftAccount {
    InitDriftAccount {
        vault: w.vault,
        owner: w.owner,
        drift_user: w.drift_user,
        drift_user_stats: w.drift_user_stats,
        drift_state: w.drift_state,
        drift_program: w.cfg.drift_program,
    }
}

fn deposit_ctx(w: &World) -> DepositLamports {
    DepositLamports {
        vault: w.vault,
        vault_wsol: custody_address(&w.vault, &w.cfg.wsol_mint, &w.cfg).unwrap(),
        owner: w.owner,
        drift_state: w.drift_state,
        drift_user: w.drift_user,
        drift_user_stats: w.drift_user_stats,
        spot_market_vault: spot_market_vault_address(DRIFT_MARKET_INDEX_SOL, &w.cfg.drift_program)
            .unwrap(),
        wsol_mint: w.cfg.wsol_mint,
        drift_program: w.cfg.drift_program,
        const_account: addr(210),
        spot_market: addr(211),
    }
}

fn withdraw_ctx(w: &World) -> WithdrawUsdc {
    WithdrawUsdc {
        vault: w.vault,
        vault_usdc: custody_address(&w.vault, &w.cfg.usdc_mint, &w.cfg).unwrap(),
        owner: w.owner,
        owner_usdc: associated_token_address(&w.owner, &w.cfg.usdc_mint, &w.cfg).unwrap(),
        drift_state: w.drift_state,
        drift_user: w.drift_user,
        drift_user_stats: w.drift_user_stats,
        spot_market_vault: spot_market_vault_address(DRIFT_MARKET_INDEX_USDC, &w.cfg.drift_program)
            .unwrap(),
        drift_signer: addr(212),
        usdc_mint: w.cfg.usdc_mint,
        drift_program: w.cfg.drift_program,
        const_account: addr(210),
        additional_account: addr(213),
        spot_market_sol: addr(211),
        spot_market_usdc: addr(214),
    }
}

fn registered_world(owner: Address, balance: u64) -> World {
    let mut w = world(owner, balance);
    let ctx = init_ctx(&w);
    assert_eq!(init_user(&mut w.ledger, &w.cfg, &owner, &ctx), Ok(()));
    let ctx = register_ctx(&w);
    assert_eq!(init_drift_account(&mut w.ledger, &w.cfg, &owner, &ctx, &Vec::new()), Ok(()));
    w
}

#[test]
fn initialize_vault_creates_record_and_custody_slot() {
    let owner = addr(1);
    let mut w = world(owner, 10);
    let ctx = init_ctx(&w);
    assert_eq!(w.ledger.get(&w.vault), None);
    assert_eq!(init_user(&mut w.ledger, &w.cfg, &owner, &ctx), Ok(()));
    assert_eq!(
        w.ledger.vault(&w.vault),
        Some(Vault { owner, external_account_ref: w.stake_account, derivation_nonce: w.nonce })
    );
    assert_eq!(w.ledger.backup(&w.vault), None);
    assert_eq!(
        w.ledger.token_account(&w.vault_usdc_slot),
        Some(TokenAccount { mint: w.cfg.usdc_mint, authority: w.vault, amount: 0 })
    );
    assert_eq!(w.ledger.lamports(&owner), 10);
}

#[test]
fn deposit_native_moves_amount_into_collateral() {
    let owner = addr(1);
    let mut w = registered_world(owner, 5_000_000);
    let ctx = deposit_ctx(&w);
    assert_eq!(deposit_lamports(&mut w.ledger, &w.cfg, &owner, &ctx, 1_000_000, false, &Vec::new()), Ok(()));
    assert_eq!(w.ledger.lamports(&owner), 4_000_000);
    assert_eq!(
        w.ledger.venue_user(&w.drift_user),
        Some(VenueUser {
            authority: w.vault,
            usdc_collateral: 0,
            sol_collateral: 1_000_000,
            open_swap: None,
        })
    );
    assert_eq!(w.ledger.get(&ctx.vault_wsol), None);
    assert_eq!(
        w.ledger.token_account(&w.vault_usdc_slot),
        Some(TokenAccount { mint: w.cfg.usdc_mint, authority: w.vault, amount: 0 })
    );
}

#[test]
fn withdraw_stable_rejected_by_venue_changes_nothing() {
    let owner = addr(1);
    let mut w = registered_world(owner, 5_000_000);
    let ctx = withdraw_ctx(&w);
    let standing = Account {
        lamports: 0,
        data: AccountData::Token(TokenAccount {
            mint: w.cfg.usdc_mint,
            authority: owner,
            amount: 42,
        }),
    };
    w.ledger.put(ctx.owner_usdc, standing);
    let handle = VenueUser {
        authority: w.vault,
        usdc_collateral: 10_000,
        sol_collateral: 0,
        open_swap: None,
    };
    w.ledger.put(w.drift_user, Account { lamports: 0, data: AccountData::VenueUser(handle) });

    let r = withdraw_usdc(&mut w.ledger, &w.cfg, &owner, &ctx, 500, true, &vec![Answer::Refuse(6_010)]);
    assert_eq!(r, Err(Failure::Venue(VenueError::Refused(6_010))));
    assert_eq!(r.unwrap_err().kind(), ErrorKind::ExternalVenue);
    assert_eq!(w.ledger.get(&ctx.owner_usdc), Some(standing));
    assert_eq!(w.ledger.get(&ctx.vault_usdc), None);
    assert_eq!(w.ledger.venue_user(&w.drift_user), Some(handle));
    assert_eq!(w.ledger.lamports(&owner), 5_000_000);

    let r = withdraw_usdc(&mut w.ledger, &w.cfg, &owner, &ctx, 10_001, true, &Vec::new());
    assert_eq!(r, Err(Failure::Venue(VenueError::InsufficientCollateral)));
    assert_eq!(r.unwrap_err().kind(), ErrorKind::ExternalVenue);
    assert_eq!(w.ledger.get(&ctx.owner_usdc), Some(standing));
    assert_eq!(w.ledger.get(&ctx.vault_usdc), None);
    assert_eq!(w.ledger.venue_user(&w.drift_user), Some(handle));

    let r = withdraw_usdc(&mut w.ledger, &w.cfg, &owner, &ctx, 500, true, &vec![Answer::Accept]);
    assert_eq!(r, Ok(()));
    assert_eq!(w.ledger.token_account(&ctx.owner_usdc).unwrap().amount, 542);
    assert_eq!(w.ledger.venue_user(&w.drift_user).unwrap().usdc_collateral, 9_500);
    assert_eq!(w.ledger.get(&ctx.vault_usdc), None);
}

#[test]
fn internal_transfer_by_stranger_is_unauthorized() {
    let owner = addr(1);
    let backup = addr(2);
    let stranger = addr(3);
    let receiver = addr(4);
    let mut w = registered_world(owner, 10);
    let record = w.ledger.vault(&w.vault).unwrap();
    w.ledger.put(
        w.vault,
        Account { lamports: 1_000, data: AccountData::Vault { record, backup: Some(backup) } },
    );
    let ctx = TransferLamports { vault: w.vault, receiver, backup: stranger };
    let r = transfer_lamports(&mut w.ledger, &w.cfg, &stranger, &ctx, 100);
    assert_eq!(r, Err(Failure::Local(ErrorCode::Unauthorized)));
    assert_eq!(r.unwrap_err().kind(), ErrorKind::Authorization);
    assert_eq!(w.ledger.lamports(&w.vault), 1_000);
    assert_eq!(w.ledger.lamports(&receiver), 0);
    assert_eq!(w.ledger.get(&receiver), None);
}

#[test]
fn two_deposits_in_turn_add_up() {
    let owner = addr(1);
    let mut w = registered_world(owner, 5_000_000);
    let ctx = deposit_ctx(&w);
    assert_eq!(deposit_lamports(&mut w.ledger, &w.cfg, &owner, &ctx, 1_000_000, false, &Vec::new()), Ok(()));
    assert_eq!(deposit_lamports(&mut w.ledger, &w.cfg, &owner, &ctx, 250_000, false, &Vec::new()), Ok(()));
    assert_eq!(w.ledger.venue_user(&w.drift_user).unwrap().sol_collateral, 1_250_000);
    assert_eq!(w.ledger.lamports(&owner), 3_750_000);
    assert_eq!(w.ledger.get(&ctx.vault_wsol), None);
}

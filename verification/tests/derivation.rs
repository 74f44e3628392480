use std::str::FromStr;

use funds_program::address::Address;
use funds_program::authority::authorize;
use funds_program::authority::authorize_seeds;
use funds_program::authority::is_derived_address;
use funds_program::authority::VAULT_SEED;
use funds_program::constants::Config;
use funds_program::constants::ANCHOR_DISCRIMINATOR;
use funds_program::constants::DRIFT_MARKET_INDEX_SOL;
use funds_program::constants::DRIFT_MARKET_INDEX_USDC;
use funds_program::constants::PUBKEY_SIZE;
use funds_program::constants::U8_SIZE;
use funds_program::errors::ErrorCode;
use funds_program::instructions::checks::associated_token_address;
use funds_program::instructions::checks::custody_address;
use funds_program::instructions::checks::initial_custody_address;
use funds_program::instructions::checks::is_associated_token_account;
use funds_program::instructions::checks::is_custody_account;
use funds_program::instructions::checks::is_expected;
use funds_program::instructions::checks::is_initial_custody_account;
use funds_program::instructions::checks::is_spot_market_vault;
use funds_program::instructions::checks::spot_market_vault_address;
use funds_program::instructions::checks::venue_state_address;
use funds_program::instructions::checks::venue_user_address;
use funds_program::instructions::checks::venue_user_stats_address;
use funds_program::pda::find_program_address;
use funds_program::pda::is_derived;
use funds_program::pda::is_found_address;
use funds_program::pda::label_bytes;
use funds_program::pda::program_address;
use funds_program::pda::u16_to_le_bytes;
use funds_program::pda::SeedError;
use funds_program::pda::MAX_SEEDS;
use funds_program::pda::MAX_SEED_LEN;
use funds_program::state::Vault;
use funds_program::state::VAULT_INIT_SPACE;
use solana_program::pubkey::Pubkey;

fn addr(n: u8) -> Address {
    Address::new([n; 32])
}

fn key(a: &Address) -> Pubkey {
    Pubkey::new_from_array(a.bytes)
}

fn named(s: &str) -> [u8; 32] {
    Pubkey::from_str(s).unwrap().to_bytes()
}

#[test]
fn fixed_identities_are_the_named_ones() {
    let cfg = Config::devnet();
    assert_eq!(cfg.program_id.bytes, named("6JjHXLheGSNvvexgzMthEcgjkcirDrGduc3HAKB2P1v2"));
    assert_eq!(cfg.usdc_mint.bytes, named("8zGuJQqwhZafTah7Uc7Z4tXRnguqkn5KLFAP8oV6PHe2"));
    assert_eq!(cfg.wsol_mint.bytes, named("So11111111111111111111111111111111111111112"));
    assert_eq!(cfg.drift_program.bytes, named("dRiftyHA39MWEi3m9aunc5MzRF1JYuBsbn6VPcn33UH"));
    assert_eq!(cfg.token_program.bytes, anchor_spl::token::ID.to_bytes());
    assert_eq!(cfg.associated_token_program.bytes, anchor_spl::associated_token::ID.to_bytes());
    assert_eq!(cfg.stake_program.bytes, solana_program::stake::program::ID.to_bytes());
    assert_eq!(cfg.system_program.bytes, solana_program::system_program::ID.to_bytes());
}

#[test]
fn sizes_and_market_indexes() {
    assert_eq!(ANCHOR_DISCRIMINATOR, 8);
    assert_eq!(PUBKEY_SIZE, 32);
    assert_eq!(U8_SIZE, 1);
    assert_eq!(VAULT_INIT_SPACE, 73);
    assert_eq!(DRIFT_MARKET_INDEX_USDC, 0);
    assert_eq!(DRIFT_MARKET_INDEX_SOL, 1);
    assert_eq!(MAX_SEEDS, 16);
    assert_eq!(MAX_SEED_LEN, 32);
}

#[test]
fn address_equality_and_bytes() {
    let mut bytes = [7u8; 32];
    bytes[31] = 8;
    let a = Address::new(bytes);
    assert_eq!(a.bytes, bytes);
    assert_eq!(a.to_vec(), bytes.to_vec());
    assert!(a == Address::new(bytes));
    assert!(a != addr(7));
    let mut first = [7u8; 32];
    first[0] = 0;
    assert!(Address::new(first) != addr(7));
}

#[test]
fn labels_and_index_bytes() {
    assert_eq!(label_bytes(&VAULT_SEED), b"vault".to_vec());
    assert_eq!(u16_to_le_bytes(0), vec![0, 0]);
    assert_eq!(u16_to_le_bytes(1), vec![1, 0]);
    assert_eq!(u16_to_le_bytes(0x1234), vec![0x34, 0x12]);
    assert_eq!(u16_to_le_bytes(u16::MAX), vec![255, 255]);
}

#[test]
fn derive_finds_the_program_derived_address() {
    let cfg = Config::devnet();
    for n in [1u8, 2, 3, 77, 200] {
        let owner = addr(n);
        let (expected, bump) =
            Pubkey::find_program_address(&[b"vault", &owner.bytes], &key(&cfg.program_id));
        let (address, nonce) = funds_program::authority::derive(&owner, &cfg.program_id).unwrap();
        assert_eq!(address.bytes, expected.to_bytes());
        assert_eq!(nonce, bump);
        assert!(address != owner);
    }
}

#[test]
fn derive_depends_on_owner_and_program() {
    let cfg = Config::devnet();
    let (a, _) = funds_program::authority::derive(&addr(1), &cfg.program_id).unwrap();
    let (b, _) = funds_program::authority::derive(&addr(2), &cfg.program_id).unwrap();
    let (c, _) = funds_program::authority::derive(&addr(1), &cfg.drift_program).unwrap();
    let (again, _) = funds_program::authority::derive(&addr(1), &cfg.program_id).unwrap();
    assert!(a != b);
    assert!(a != c);
    assert!(a == again);
}

#[test]
fn authorize_accepts_the_derived_nonce_only() {
    let cfg = Config::devnet();
    let owner = addr(9);
    let (address, nonce) = funds_program::authority::derive(&owner, &cfg.program_id).unwrap();
    let record = Vault { owner, external_account_ref: addr(50), derivation_nonce: nonce };
    let capability = authorize(&address, &record, &cfg.program_id).unwrap();
    assert!(capability.vault() == address);
    assert!(capability.program_id() == cfg.program_id);
    assert!(capability.owner() == owner);
    assert_eq!(capability.nonce(), nonce);
    assert_eq!(capability.signer_seeds(), vec![b"vault".to_vec(), owner.bytes.to_vec(), vec![nonce]]);

    let other_nonce = Vault { derivation_nonce: nonce.wrapping_sub(1), ..record };
    assert_eq!(
        authorize(&address, &other_nonce, &cfg.program_id).unwrap_err(),
        ErrorCode::InvalidVaultAddress
    );
    let other_owner = Vault { owner: addr(10), ..record };
    assert_eq!(
        authorize(&address, &other_owner, &cfg.program_id).unwrap_err(),
        ErrorCode::InvalidVaultAddress
    );
    assert_eq!(
        authorize(&owner, &record, &cfg.program_id).unwrap_err(),
        ErrorCode::InvalidVaultAddress
    );
    assert_eq!(
        authorize(&address, &record, &cfg.drift_program).unwrap_err(),
        ErrorCode::InvalidVaultAddress
    );
    assert!(authorize_seeds(&address, &owner, nonce, &cfg.program_id).is_ok());
    assert_eq!(
        authorize_seeds(&address, &owner, 0, &cfg.program_id).unwrap_err(),
        ErrorCode::InvalidVaultAddress
    );
}

#[test]
fn program_address_follows_the_seeds() {
    let cfg = Config::devnet();
    let owner = addr(9);
    let (address, nonce) = funds_program::authority::derive(&owner, &cfg.program_id).unwrap();
    let seeds = vec![b"vault".to_vec(), owner.bytes.to_vec(), vec![nonce]];
    assert_eq!(program_address(&seeds, &cfg.program_id), Ok(address));
    let expected = Pubkey::create_program_address(
        &[b"vault", &owner.bytes, &[nonce]],
        &key(&cfg.program_id),
    )
    .unwrap();
    assert_eq!(address.bytes, expected.to_bytes());
}

#[test]
fn program_address_refuses_seeds_that_do_not_fit() {
    let cfg = Config::devnet();
    let too_long = vec![vec![0u8; 33]];
    assert_eq!(program_address(&too_long, &cfg.program_id), Err(SeedError::MaxSeedLengthExceeded));
    let too_many: Vec<Vec<u8>> = (0..17u8).map(|i| vec![i]).collect();
    assert_eq!(program_address(&too_many, &cfg.program_id), Err(SeedError::MaxSeedLengthExceeded));
    let most: Vec<Vec<u8>> = (0..16u8).map(|i| vec![i]).collect();
    assert_eq!(find_program_address(&most, &cfg.program_id), None);
    assert!(!is_derived(&addr(1), &most, &cfg.program_id));
}

#[test]
fn program_address_refuses_seeds_on_the_curve() {
    let cfg = Config::devnet();
    let mut seen_refusal = false;
    for n in 0..64u8 {
        let owner = addr(n);
        let (address, nonce) = funds_program::authority::derive(&owner, &cfg.program_id).unwrap();
        let mut above = 255u8;
        while above > nonce {
            let seeds = vec![b"vault".to_vec(), owner.bytes.to_vec(), vec![above]];
            assert_eq!(program_address(&seeds, &cfg.program_id), Err(SeedError::InvalidSeeds));
            seen_refusal = true;
            above -= 1;
        }
        let seeds = vec![b"vault".to_vec(), owner.bytes.to_vec(), vec![nonce]];
        assert_eq!(program_address(&seeds, &cfg.program_id), Ok(address));
    }
    assert!(seen_refusal);
}

#[test]
fn find_program_address_matches_the_search() {
    let cfg = Config::devnet();
    let seeds = vec![b"spot_market_vault".to_vec(), vec![1, 0]];
    let (expected, bump) =
        Pubkey::find_program_address(&[b"spot_market_vault", &[1, 0]], &key(&cfg.drift_program));
    let (address, nonce) = find_program_address(&seeds, &cfg.drift_program).unwrap();
    assert_eq!(address.bytes, expected.to_bytes());
    assert_eq!(nonce, bump);
    assert!(is_derived(&address, &seeds, &cfg.drift_program));
    assert!(!is_derived(&address, &seeds, &cfg.program_id));
    assert!(!is_derived(&addr(1), &seeds, &cfg.drift_program));
}

#[test]
fn custody_and_venue_addresses_use_their_seeds() {
    let cfg = Config::devnet();
    let owner = addr(5);
    let (vault, _) = funds_program::authority::derive(&owner, &cfg.program_id).unwrap();
    let program = key(&cfg.program_id);
    let drift = key(&cfg.drift_program);

    let expected = Pubkey::find_program_address(&[&vault.bytes, &cfg.wsol_mint.bytes], &program).0;
    let found = custody_address(&vault, &cfg.wsol_mint, &cfg).unwrap();
    assert_eq!(found.bytes, expected.to_bytes());
    assert!(is_custody_account(&found, &vault, &cfg.wsol_mint, &cfg));
    assert!(!is_custody_account(&found, &vault, &cfg.usdc_mint, &cfg));

    let expected =
        Pubkey::find_program_address(&[b"vault", &owner.bytes, &cfg.usdc_mint.bytes], &program).0;
    let found = initial_custody_address(&owner, &cfg.usdc_mint, &cfg).unwrap();
    assert_eq!(found.bytes, expected.to_bytes());
    assert!(is_initial_custody_account(&found, &owner, &cfg.usdc_mint, &cfg));
    assert!(!is_initial_custody_account(&found, &addr(6), &cfg.usdc_mint, &cfg));

    let expected = Pubkey::find_program_address(&[b"drift_state"], &drift).0;
    assert_eq!(venue_state_address(&cfg.drift_program).unwrap().bytes, expected.to_bytes());

    let expected = Pubkey::find_program_address(&[b"user", &vault.bytes, &[0, 0]], &drift).0;
    assert_eq!(venue_user_address(&vault, &cfg.drift_program).unwrap().bytes, expected.to_bytes());

    let expected = Pubkey::find_program_address(&[b"user_stats", &vault.bytes], &drift).0;
    assert_eq!(
        venue_user_stats_address(&vault, &cfg.drift_program).unwrap().bytes,
        expected.to_bytes()
    );

    let expected = Pubkey::find_program_address(&[b"spot_market_vault", &[0, 0]], &drift).0;
    let found = spot_market_vault_address(DRIFT_MARKET_INDEX_USDC, &cfg.drift_program).unwrap();
    assert_eq!(found.bytes, expected.to_bytes());
    assert!(is_spot_market_vault(&found, DRIFT_MARKET_INDEX_USDC, &cfg.drift_program));
    assert!(!is_spot_market_vault(&found, DRIFT_MARKET_INDEX_SOL, &cfg.drift_program));
}

#[test]
fn standing_token_account_is_the_associated_one() {
    let cfg = Config::devnet();
    let owner = addr(5);
    let expected = anchor_spl::associated_token::get_associated_token_address(
        &key(&owner),
        &key(&cfg.usdc_mint),
    );
    let found = associated_token_address(&owner, &cfg.usdc_mint, &cfg).unwrap();
    assert_eq!(found.bytes, expected.to_bytes());
    assert!(is_associated_token_account(&found, &owner, &cfg.usdc_mint, &cfg));
    assert!(!is_associated_token_account(&found, &owner, &cfg.wsol_mint, &cfg));
}

#[test]
fn comparisons_with_what_a_derivation_came_to() {
    assert!(is_expected(&Some(addr(1)), &addr(1)));
    assert!(!is_expected(&Some(addr(1)), &addr(2)));
    assert!(!is_expected(&None, &addr(1)));
    assert!(is_found_address(&addr(1), &Some((addr(1), 254))));
    assert!(!is_found_address(&addr(2), &Some((addr(1), 254))));
    assert!(!is_found_address(&addr(1), &None));
    assert!(is_derived_address(&addr(1), &Ok(addr(1))));
    assert!(!is_derived_address(&addr(2), &Ok(addr(1))));
    assert!(!is_derived_address(&addr(1), &Err(SeedError::InvalidSeeds)));
    assert!(!is_derived_address(&addr(1), &Err(SeedError::MaxSeedLengthExceeded)));
}

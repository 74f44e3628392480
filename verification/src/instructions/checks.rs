//! Checks that several operations share, and the seeds of the addresses they
//! are made against.

use vstd::prelude::*;
use crate::account::Account;
use crate::address::Address;
use crate::authority::derives_vault;
use crate::authority::VAULT_SEED;
use crate::constants::Config;
use crate::constants::DRIFT_MARKET_INDEX_SOL;
use crate::constants::DRIFT_MARKET_INDEX_USDC;
use crate::errors::ErrorCode;
use crate::ledger::Ledger;
use crate::authority::vault_signer_seeds;
use crate::pda::derived_address;
use crate::pda::find_program_address;
use crate::pda::program_address;
use crate::pda::found_address;
use crate::pda::is_derived;
use crate::pda::label_bytes;
use crate::pda::seeds_view;
use crate::pda::u16_le_bytes;
use crate::pda::u16_to_le_bytes;
use crate::semantics::vault_at;
use crate::state::Vault;

verus! {

/// The bytes of "user".
pub const USER_SEED: [u8; 4] = [117, 115, 101, 114];

/// The bytes of "user_stats".
pub const USER_STATS_SEED: [u8; 10] = [117, 115, 101, 114, 95, 115, 116, 97, 116, 115];

/// The bytes of "drift_state".
pub const DRIFT_STATE_SEED: [u8; 11] = [100, 114, 105, 102, 116, 95, 115, 116, 97, 116, 101];

/// The bytes of "spot_market_vault".
pub const SPOT_MARKET_VAULT_SEED: [u8; 17] = [
    115, 112, 111, 116, 95, 109, 97, 114, 107, 101, 116, 95, 118, 97, 117, 108, 116,
];

/// Seeds of a vault's custody account for one mint.
pub open spec fn custody_seeds(vault: Address, mint: Address) -> Seq<Seq<u8>> {
    seq![vault@, mint@]
}

/// Seeds of the custody account that is opened together with a vault.
pub open spec fn initial_custody_seeds(owner: Address, mint: Address) -> Seq<Seq<u8>> {
    seq![VAULT_SEED@, owner@, mint@]
}

/// Seeds of the venue's account handle of a vault.
pub open spec fn venue_user_seeds(vault: Address) -> Seq<Seq<u8>> {
    seq![USER_SEED@, vault@, u16_le_bytes(0)]
}

/// Seeds of the venue's account-stats handle of a vault.
pub open spec fn venue_user_stats_seeds(vault: Address) -> Seq<Seq<u8>> {
    seq![USER_STATS_SEED@, vault@]
}

/// Seeds of the venue's state account.
pub open spec fn venue_state_seeds() -> Seq<Seq<u8>> {
    seq![DRIFT_STATE_SEED@]
}

/// Seeds of the venue's token vault of a market.
pub open spec fn spot_market_vault_seeds(market_index: u16) -> Seq<Seq<u8>> {
    seq![SPOT_MARKET_VAULT_SEED@, u16_le_bytes(market_index)]
}

/// Seeds of an owner's standing token account for one mint.
pub open spec fn associated_token_seeds(owner: Address, token_program: Address, mint: Address) -> Seq<
    Seq<u8>,
> {
    seq![owner@, token_program@, mint@]
}

/// `address` is the one that the seeds derive under the program.
pub open spec fn stands_at(address: Address, seeds: Seq<Seq<u8>>, program_id: Address) -> bool {
    found_address(seeds, program_id@) == Some(address@)
}

/// The address is the one that the seeds derive, or the seeds derive none.
pub open spec fn is_address_of(r: Option<Address>, seeds: Seq<Seq<u8>>, program_id: Address) -> bool {
    match r {
        Some(address) => stands_at(address, seeds, program_id),
        None => found_address(seeds, program_id@) is None,
    }
}

fn address_of(seeds: &Vec<Vec<u8>>, program_id: &Address) -> (r: Option<Address>)
    ensures
        is_address_of(r, seeds_view(seeds@), *program_id),
{
    match find_program_address(seeds, program_id) {
        Some((address, _)) => Some(address),
        None => None,
    }
}

fn custody_seed_list(vault: &Address, mint: &Address) -> (r: Vec<Vec<u8>>)
    ensures
        seeds_view(r@) == custody_seeds(*vault, *mint),
{
    let mut seeds: Vec<Vec<u8>> = Vec::new();
    seeds.push(vault.to_vec());
    seeds.push(mint.to_vec());
    assert(seeds_view(seeds@) =~= custody_seeds(*vault, *mint));
    seeds
}

fn initial_custody_seed_list(owner: &Address, mint: &Address) -> (r: Vec<Vec<u8>>)
    ensures
        seeds_view(r@) == initial_custody_seeds(*owner, *mint),
{
    let mut seeds: Vec<Vec<u8>> = Vec::new();
    seeds.push(label_bytes(&VAULT_SEED));
    seeds.push(owner.to_vec());
    seeds.push(mint.to_vec());
    assert(seeds_view(seeds@) =~= initial_custody_seeds(*owner, *mint));
    seeds
}

fn associated_token_seed_list(owner: &Address, token_program: &Address, mint: &Address) -> (r: Vec<
    Vec<u8>,
>)
    ensures
        seeds_view(r@) == associated_token_seeds(*owner, *token_program, *mint),
{
    let mut seeds: Vec<Vec<u8>> = Vec::new();
    seeds.push(owner.to_vec());
    seeds.push(token_program.to_vec());
    seeds.push(mint.to_vec());
    assert(seeds_view(seeds@) =~= associated_token_seeds(*owner, *token_program, *mint));
    seeds
}

fn spot_market_vault_seed_list(market_index: u16) -> (r: Vec<Vec<u8>>)
    ensures
        seeds_view(r@) == spot_market_vault_seeds(market_index),
{
    let mut seeds: Vec<Vec<u8>> = Vec::new();
    seeds.push(label_bytes(&SPOT_MARKET_VAULT_SEED));
    seeds.push(u16_to_le_bytes(market_index));
    assert(seeds_view(seeds@) =~= spot_market_vault_seeds(market_index));
    seeds
}

fn venue_state_seed_list() -> (r: Vec<Vec<u8>>)
    ensures
        seeds_view(r@) == venue_state_seeds(),
{
    let mut seeds: Vec<Vec<u8>> = Vec::new();
    seeds.push(label_bytes(&DRIFT_STATE_SEED));
    assert(seeds_view(seeds@) =~= venue_state_seeds());
    seeds
}

fn venue_user_seed_list(vault: &Address) -> (r: Vec<Vec<u8>>)
    ensures
        seeds_view(r@) == venue_user_seeds(*vault),
{
    let mut seeds: Vec<Vec<u8>> = Vec::new();
    seeds.push(label_bytes(&USER_SEED));
    seeds.push(vault.to_vec());
    seeds.push(u16_to_le_bytes(0));
    assert(seeds_view(seeds@) =~= venue_user_seeds(*vault));
    seeds
}

fn venue_user_stats_seed_list(vault: &Address) -> (r: Vec<Vec<u8>>)
    ensures
        seeds_view(r@) == venue_user_stats_seeds(*vault),
{
    let mut seeds: Vec<Vec<u8>> = Vec::new();
    seeds.push(label_bytes(&USER_STATS_SEED));
    seeds.push(vault.to_vec());
    assert(seeds_view(seeds@) =~= venue_user_stats_seeds(*vault));
    seeds
}

/// The address of a vault's custody account for one mint.
pub fn custody_address(vault: &Address, mint: &Address, cfg: &Config) -> (r: Option<Address>)
    ensures
        is_address_of(r, custody_seeds(*vault, *mint), cfg.program_id),
{
    address_of(&custody_seed_list(vault, mint), &cfg.program_id)
}

/// The address of the custody account that is opened together with an
/// owner's vault.
pub fn initial_custody_address(owner: &Address, mint: &Address, cfg: &Config) -> (r: Option<
    Address,
>)
    ensures
        is_address_of(r, initial_custody_seeds(*owner, *mint), cfg.program_id),
{
    address_of(&initial_custody_seed_list(owner, mint), &cfg.program_id)
}

/// The address of an owner's standing token account for one mint.
pub fn associated_token_address(owner: &Address, mint: &Address, cfg: &Config) -> (r: Option<
    Address,
>)
    ensures
        is_address_of(
            r,
            associated_token_seeds(*owner, cfg.token_program, *mint),
            cfg.associated_token_program,
        ),
{
    address_of(
        &associated_token_seed_list(owner, &cfg.token_program, mint),
        &cfg.associated_token_program,
    )
}

/// The address of the venue's token vault of a market.
pub fn spot_market_vault_address(market_index: u16, drift_program: &Address) -> (r: Option<
    Address,
>)
    ensures
        is_address_of(r, spot_market_vault_seeds(market_index), *drift_program),
{
    address_of(&spot_market_vault_seed_list(market_index), drift_program)
}

/// The address of the venue's state account.
pub fn venue_state_address(drift_program: &Address) -> (r: Option<Address>)
    ensures
        is_address_of(r, venue_state_seeds(), *drift_program),
{
    address_of(&venue_state_seed_list(), drift_program)
}

/// The address of the venue's account handle of a vault.
pub fn venue_user_address(vault: &Address, drift_program: &Address) -> (r: Option<Address>)
    ensures
        is_address_of(r, venue_user_seeds(*vault), *drift_program),
{
    address_of(&venue_user_seed_list(vault), drift_program)
}

/// The address of the venue's account-stats handle of a vault.
pub fn venue_user_stats_address(vault: &Address, drift_program: &Address) -> (r: Option<Address>)
    ensures
        is_address_of(r, venue_user_stats_seeds(*vault), *drift_program),
{
    address_of(&venue_user_stats_seed_list(vault), drift_program)
}

/// Whether a custody account stands at the address derived from the vault
/// and the mint.
pub fn is_custody_account(address: &Address, vault: &Address, mint: &Address, cfg: &Config) -> (r:
    bool)
    ensures
        r == stands_at(*address, custody_seeds(*vault, *mint), cfg.program_id),
{
    is_derived(address, &custody_seed_list(vault, mint), &cfg.program_id)
}

/// Whether a custody account stands at the address derived from the label,
/// the owner and the mint.
pub fn is_initial_custody_account(
    address: &Address,
    owner: &Address,
    mint: &Address,
    cfg: &Config,
) -> (r: bool)
    ensures
        r == stands_at(*address, initial_custody_seeds(*owner, *mint), cfg.program_id),
{
    is_derived(address, &initial_custody_seed_list(owner, mint), &cfg.program_id)
}

/// Whether an owner's standing token account for a mint stands at the
/// address given.
pub fn is_associated_token_account(
    address: &Address,
    owner: &Address,
    mint: &Address,
    cfg: &Config,
) -> (r: bool)
    ensures
        r == stands_at(
            *address,
            associated_token_seeds(*owner, cfg.token_program, *mint),
            cfg.associated_token_program,
        ),
{
    is_derived(
        address,
        &associated_token_seed_list(owner, &cfg.token_program, mint),
        &cfg.associated_token_program,
    )
}

/// Whether the venue's token vault of a market stands at the address given.
pub fn is_spot_market_vault(address: &Address, market_index: u16, drift_program: &Address) -> (r:
    bool)
    ensures
        r == stands_at(*address, spot_market_vault_seeds(market_index), *drift_program),
{
    is_derived(address, &spot_market_vault_seed_list(market_index), drift_program)
}

/// What the check of a vault and its owner yields: the vault's record, or
/// the code of the first check that fails. The signer must be the owner
/// given, a vault must stand at the address, it must record that owner, and
/// its address must follow from the owner and nonce it records.
pub open spec fn vault_check(
    s: Map<Address, Account>,
    cfg: Config,
    signer: Address,
    vault: Address,
    owner: Address,
) -> Result<Vault, ErrorCode> {
    if signer != owner {
        Err(ErrorCode::Unauthorized)
    } else {
        match vault_at(s, vault) {
            None => Err(ErrorCode::InvalidQuartzAccount),
            Some(record) => {
                if record.owner != owner {
                    Err(ErrorCode::Unauthorized)
                } else if !derives_vault(
                    record.owner@,
                    record.derivation_nonce,
                    cfg.program_id@,
                    vault@,
                ) {
                    Err(ErrorCode::InvalidVaultAddress)
                } else {
                    Ok(record)
                }
            },
        }
    }
}

/// Checks a vault and its owner.
pub fn check_vault(
    ledger: &Ledger,
    cfg: &Config,
    signer: &Address,
    vault: &Address,
    owner: &Address,
) -> (r: Result<Vault, ErrorCode>)
    ensures
        r == vault_check(ledger@, *cfg, *signer, *vault, *owner),
{
    let derived = derive_addresses(ledger, cfg, vault, owner);
    proof {
        lemma_vault_decision(ledger@, *cfg, *signer, *vault, *owner, derived);
    }
    decide_vault(ledger, signer, vault, owner, &derived.vault)
}

/// The code that the check of the venue's accounts fails with, if it does.
/// The program must be the venue's, and the state account and the two
/// handles must stand at the addresses derived for them under it.
pub open spec fn venue_accounts_check(
    cfg: Config,
    drift_program: Address,
    vault: Address,
    state: Address,
    user: Address,
    user_stats: Address,
) -> Option<ErrorCode> {
    if drift_program != cfg.drift_program {
        Some(ErrorCode::InvalidDriftProgram)
    } else if !stands_at(state, venue_state_seeds(), drift_program) {
        Some(ErrorCode::InvalidAccountAddress)
    } else if !stands_at(user, venue_user_seeds(vault), drift_program) {
        Some(ErrorCode::InvalidAccountAddress)
    } else if !stands_at(user_stats, venue_user_stats_seeds(vault), drift_program) {
        Some(ErrorCode::InvalidAccountAddress)
    } else {
        None
    }
}

/// Checks the venue's program, its state account and a vault's two handles.
pub fn check_venue_accounts(
    cfg: &Config,
    drift_program: &Address,
    vault: &Address,
    state: &Address,
    user: &Address,
    user_stats: &Address,
) -> (r: Option<ErrorCode>)
    ensures
        r == venue_accounts_check(*cfg, *drift_program, *vault, *state, *user, *user_stats),
{
    if !(*drift_program == cfg.drift_program) {
        return Some(ErrorCode::InvalidDriftProgram);
    }
    if !is_derived(state, &venue_state_seed_list(), drift_program) {
        return Some(ErrorCode::InvalidAccountAddress);
    }
    if !is_derived(user, &venue_user_seed_list(vault), drift_program) {
        return Some(ErrorCode::InvalidAccountAddress);
    }
    if !is_derived(user_stats, &venue_user_stats_seed_list(vault), drift_program) {
        return Some(ErrorCode::InvalidAccountAddress);
    }
    None
}

/// The addresses that the accounts of an operation on a vault are held
/// against: for each, the address that its seeds derive, or `None` where
/// they derive none.
#[derive(Clone, Copy, Debug, PartialEq, Eq)]
pub struct Derived {
    /// What the owner and nonce recorded at the vault's address derive.
    pub vault: Option<Address>,
    /// The vault's custody account of wrapped native currency.
    pub vault_wsol: Option<Address>,
    /// The vault's custody account of stablecoin.
    pub vault_usdc: Option<Address>,
    /// The owner's standing stablecoin account.
    pub owner_usdc: Option<Address>,
    /// The venue's state account.
    pub drift_state: Option<Address>,
    /// The venue's account handle of the vault.
    pub drift_user: Option<Address>,
    /// The venue's account-stats handle of the vault.
    pub drift_user_stats: Option<Address>,
    /// The venue's token vault of the wrapped-native market.
    pub sol_market_vault: Option<Address>,
    /// The venue's token vault of the stablecoin market.
    pub usdc_market_vault: Option<Address>,
}

impl Derived {
    /// Every address is the one that its seeds derive, for this vault and
    /// owner on this ledger.
    pub open spec fn describes(
        self,
        s: Map<Address, Account>,
        cfg: Config,
        vault: Address,
        owner: Address,
    ) -> bool {
        &&& match vault_at(s, vault) {
            None => self.vault is None,
            Some(record) => match self.vault {
                Some(address) => derives_vault(
                    record.owner@,
                    record.derivation_nonce,
                    cfg.program_id@,
                    address@,
                ),
                None => derived_address(
                    vault_signer_seeds(record.owner@, record.derivation_nonce),
                    cfg.program_id@,
                ) is None,
            },
        }
        &&& is_address_of(self.vault_wsol, custody_seeds(vault, cfg.wsol_mint), cfg.program_id)
        &&& is_address_of(self.vault_usdc, custody_seeds(vault, cfg.usdc_mint), cfg.program_id)
        &&& is_address_of(
            self.owner_usdc,
            associated_token_seeds(owner, cfg.token_program, cfg.usdc_mint),
            cfg.associated_token_program,
        )
        &&& is_address_of(self.drift_state, venue_state_seeds(), cfg.drift_program)
        &&& is_address_of(self.drift_user, venue_user_seeds(vault), cfg.drift_program)
        &&& is_address_of(self.drift_user_stats, venue_user_stats_seeds(vault), cfg.drift_program)
        &&& is_address_of(
            self.sol_market_vault,
            spot_market_vault_seeds(DRIFT_MARKET_INDEX_SOL),
            cfg.drift_program,
        )
        &&& is_address_of(
            self.usdc_market_vault,
            spot_market_vault_seeds(DRIFT_MARKET_INDEX_USDC),
            cfg.drift_program,
        )
    }
}

/// Derives the addresses that the accounts of an operation on a vault are
/// held against.
pub fn derive_addresses(ledger: &Ledger, cfg: &Config, vault: &Address, owner: &Address) -> (r:
    Derived)
    ensures
        r.describes(ledger@, *cfg, *vault, *owner),
{
    let recorded = match ledger.vault(vault) {
        Some(record) => {
            let seeds = crate::authority::signer_seed_list(&record.owner, record.derivation_nonce);
            proof {
                crate::authority::lemma_vault_seeds_fit(record.owner, record.derivation_nonce);
            }
            match program_address(&seeds, &cfg.program_id) {
                Ok(address) => Some(address),
                Err(_) => None,
            }
        },
        None => None,
    };
    Derived {
        vault: recorded,
        vault_wsol: custody_address(vault, &cfg.wsol_mint, cfg),
        vault_usdc: custody_address(vault, &cfg.usdc_mint, cfg),
        owner_usdc: associated_token_address(owner, &cfg.usdc_mint, cfg),
        drift_state: venue_state_address(&cfg.drift_program),
        drift_user: venue_user_address(vault, &cfg.drift_program),
        drift_user_stats: venue_user_stats_address(vault, &cfg.drift_program),
        sol_market_vault: spot_market_vault_address(DRIFT_MARKET_INDEX_SOL, &cfg.drift_program),
        usdc_market_vault: spot_market_vault_address(DRIFT_MARKET_INDEX_USDC, &cfg.drift_program),
    }
}

/// Whether the account given is the one expected.
pub fn is_expected(expected: &Option<Address>, given: &Address) -> (r: bool)
    ensures
        r == (*expected == Some(*given)),
{
    match expected {
        Some(address) => *address == *given,
        None => false,
    }
}

/// An account is the one expected exactly when it stands at the address
/// that the seeds derive.
pub proof fn lemma_expected(
    expected: Option<Address>,
    given: Address,
    seeds: Seq<Seq<u8>>,
    program_id: Address,
)
    requires
        is_address_of(expected, seeds, program_id),
    ensures
        (expected == Some(given)) == stands_at(given, seeds, program_id),
{
    if expected is Some {
        expected->Some_0.lemma_view_injective(given);
    }
}

/// What the check of a vault and its owner yields, given the address that
/// the vault's record derives: the vault's record, or the code of the first
/// check that fails. The signer must be the owner given, a vault must stand
/// at the address, it must record that owner, and its address must be the
/// one that its record derives.
pub open spec fn vault_decision(
    s: Map<Address, Account>,
    signer: Address,
    vault: Address,
    owner: Address,
    derived: Option<Address>,
) -> Result<Vault, ErrorCode> {
    if signer != owner {
        Err(ErrorCode::Unauthorized)
    } else {
        match vault_at(s, vault) {
            None => Err(ErrorCode::InvalidQuartzAccount),
            Some(record) => {
                if record.owner != owner {
                    Err(ErrorCode::Unauthorized)
                } else if derived != Some(vault) {
                    Err(ErrorCode::InvalidVaultAddress)
                } else {
                    Ok(record)
                }
            },
        }
    }
}

/// Checks a vault and its owner, given the address that the vault's record
/// derives.
pub fn decide_vault(
    ledger: &Ledger,
    signer: &Address,
    vault: &Address,
    owner: &Address,
    derived: &Option<Address>,
) -> (r: Result<Vault, ErrorCode>)
    ensures
        r == vault_decision(ledger@, *signer, *vault, *owner, *derived),
{
    if !(*signer == *owner) {
        return Err(ErrorCode::Unauthorized);
    }
    let record = match ledger.vault(vault) {
        Some(record) => record,
        None => {
            return Err(ErrorCode::InvalidQuartzAccount);
        },
    };
    if !(record.owner == *owner) {
        return Err(ErrorCode::Unauthorized);
    }
    if !is_expected(derived, vault) {
        return Err(ErrorCode::InvalidVaultAddress);
    }
    Ok(record)
}

/// With the derived addresses of a vault, the check of the vault yields
/// what it yields by the derivation itself.
pub proof fn lemma_vault_decision(
    s: Map<Address, Account>,
    cfg: Config,
    signer: Address,
    vault: Address,
    owner: Address,
    derived: Derived,
)
    requires
        derived.describes(s, cfg, vault, owner),
    ensures
        vault_decision(s, signer, vault, owner, derived.vault) == vault_check(
            s,
            cfg,
            signer,
            vault,
            owner,
        ),
{
    if derived.vault is Some {
        derived.vault->Some_0.lemma_view_injective(vault);
    }
}

/// The code that the check of the venue's accounts fails with, if it does,
/// given the addresses derived for them.
pub open spec fn venue_accounts_decision(
    cfg: Config,
    drift_program: Address,
    state: Address,
    user: Address,
    user_stats: Address,
    derived: Derived,
) -> Option<ErrorCode> {
    if drift_program != cfg.drift_program {
        Some(ErrorCode::InvalidDriftProgram)
    } else if derived.drift_state != Some(state) {
        Some(ErrorCode::InvalidAccountAddress)
    } else if derived.drift_user != Some(user) {
        Some(ErrorCode::InvalidAccountAddress)
    } else if derived.drift_user_stats != Some(user_stats) {
        Some(ErrorCode::InvalidAccountAddress)
    } else {
        None
    }
}

/// Checks the venue's program, its state account and a vault's two handles,
/// given the addresses derived for them.
pub fn decide_venue_accounts(
    cfg: &Config,
    drift_program: &Address,
    state: &Address,
    user: &Address,
    user_stats: &Address,
    derived: &Derived,
) -> (r: Option<ErrorCode>)
    ensures
        r == venue_accounts_decision(*cfg, *drift_program, *state, *user, *user_stats, *derived),
{
    if !(*drift_program == cfg.drift_program) {
        return Some(ErrorCode::InvalidDriftProgram);
    }
    if !is_expected(&derived.drift_state, state) {
        return Some(ErrorCode::InvalidAccountAddress);
    }
    if !is_expected(&derived.drift_user, user) {
        return Some(ErrorCode::InvalidAccountAddress);
    }
    if !is_expected(&derived.drift_user_stats, user_stats) {
        return Some(ErrorCode::InvalidAccountAddress);
    }
    None
}

/// With the derived addresses of a vault, the check of the venue's accounts
/// yields what it yields by the derivation itself.
pub proof fn lemma_venue_accounts_decision(
    s: Map<Address, Account>,
    cfg: Config,
    drift_program: Address,
    vault: Address,
    owner: Address,
    state: Address,
    user: Address,
    user_stats: Address,
    derived: Derived,
)
    requires
        derived.describes(s, cfg, vault, owner),
    ensures
        venue_accounts_decision(cfg, drift_program, state, user, user_stats, derived)
            == venue_accounts_check(cfg, drift_program, vault, state, user, user_stats),
{
    lemma_expected(derived.drift_state, state, venue_state_seeds(), cfg.drift_program);
    lemma_expected(derived.drift_user, user, venue_user_seeds(vault), cfg.drift_program);
    lemma_expected(
        derived.drift_user_stats,
        user_stats,
        venue_user_stats_seeds(vault),
        cfg.drift_program,
    );
}

} // verus!

//! Where a vault lives and who may act for it.
//!
//! A vault's address is derived from its owner's identity; nobody holds a key
//! for it. To act as the vault, an operation shows the seeds that derive the
//! address: a `Capability` holds seeds that were checked to do so.

use vstd::prelude::*;
use crate::address::Address;
use crate::errors::ErrorCode;
use crate::pda::create_program_address;
use crate::pda::derived_address;
use crate::pda::find_program_address;
use crate::pda::found_address;
use crate::pda::is_canonical_bump;
use crate::pda::label_bytes;
use crate::pda::seeds_fit;
use crate::pda::seeds_view;
use crate::pda::SeedError;
use crate::pda::with_bump;
use crate::state::Vault;

verus! {

/// The label that starts the seeds of every vault: the bytes of "vault".
pub const VAULT_SEED: [u8; 5] = [118, 97, 117, 108, 116];

/// The seeds of an owner's vault, without the nonce.
pub open spec fn vault_seeds(owner: Seq<u8>) -> Seq<Seq<u8>> {
    seq![VAULT_SEED@, owner]
}

/// The seeds that sign for an owner's vault.
pub open spec fn vault_signer_seeds(owner: Seq<u8>, nonce: u8) -> Seq<Seq<u8>> {
    with_bump(vault_seeds(owner), nonce)
}

/// The nonce derives this address for the owner's vault.
pub open spec fn derives_vault(
    owner: Seq<u8>,
    nonce: u8,
    program_id: Seq<u8>,
    address: Seq<u8>,
) -> bool {
    derived_address(vault_signer_seeds(owner, nonce), program_id) == Some(address)
}

/// The seeds of a vault always fit, whatever the owner and the nonce.
pub proof fn lemma_vault_seeds_fit(owner: Address, nonce: u8)
    ensures
        seeds_fit(vault_signer_seeds(owner@, nonce)),
{
    let s = vault_signer_seeds(owner@, nonce);
    assert(s.len() == 3);
    assert(s[0] == VAULT_SEED@);
    assert(s[1] == owner@);
    assert(s[2] == seq![nonce]);
}

fn vault_seed_list(owner: &Address) -> (r: Vec<Vec<u8>>)
    ensures
        seeds_view(r@) == vault_seeds(owner@),
{
    let mut seeds: Vec<Vec<u8>> = Vec::new();
    seeds.push(label_bytes(&VAULT_SEED));
    seeds.push(owner.to_vec());
    assert(seeds_view(seeds@) =~= vault_seeds(owner@));
    seeds
}

/// The seeds that sign for an owner's vault: the label, the owner, the
/// nonce.
pub fn signer_seed_list(owner: &Address, nonce: u8) -> (r: Vec<Vec<u8>>)
    ensures
        seeds_view(r@) == vault_signer_seeds(owner@, nonce),
{
    let mut seeds = vault_seed_list(owner);
    let mut last: Vec<u8> = Vec::new();
    last.push(nonce);
    assert(last@ =~= seq![nonce]);
    seeds.push(last);
    assert(seeds_view(seeds@) =~= vault_signer_seeds(owner@, nonce));
    seeds
}

/// The address of an owner's vault under a program.
pub open spec fn vault_address(owner: Seq<u8>, program_id: Seq<u8>) -> Option<Seq<u8>> {
    found_address(vault_seeds(owner), program_id)
}

/// The address of an owner's vault and the nonce that derives it: the highest
/// nonce from 255 down to 1 with which the seeds derive an address. `None`
/// where no nonce does.
pub fn derive(owner: &Address, program_id: &Address) -> (r: Option<(Address, u8)>)
    ensures
        match r {
            Some((address, nonce)) => {
                &&& vault_address(owner@, program_id@) == Some(address@)
                &&& is_canonical_bump(vault_seeds(owner@), program_id@, nonce)
                &&& derives_vault(owner@, nonce, program_id@, address@)
            },
            None => vault_address(owner@, program_id@) is None,
        },
{
    let seeds = vault_seed_list(owner);
    find_program_address(&seeds, program_id)
}

/// Proof that its holder may act as one vault: seeds that were checked to
/// derive the vault's address. It is made by `authorize` alone, cannot be
/// copied, and is used up by the delegated call it signs.
#[derive(Debug)]
pub struct Capability {
    vault: Address,
    owner: Address,
    nonce: u8,
    program_id: Address,
}

impl Capability {
    #[verifier::type_invariant]
    spec fn valid(self) -> bool {
        derives_vault(self.owner@, self.nonce, self.program_id@, self.vault@)
    }

    /// The vault this capability acts as.
    pub closed spec fn spec_vault(&self) -> Address {
        self.vault
    }

    /// The owner whose identity is among the seeds.
    pub closed spec fn spec_owner(&self) -> Address {
        self.owner
    }

    /// The nonce among the seeds.
    pub closed spec fn spec_nonce(&self) -> u8 {
        self.nonce
    }

    /// The program under which the seeds derive the vault's address.
    pub closed spec fn spec_program_id(&self) -> Address {
        self.program_id
    }

    /// The vault this capability acts as.
    #[verifier::when_used_as_spec(spec_vault)]
    pub fn vault(&self) -> (r: Address)
        ensures
            r == self.spec_vault(),
    {
        self.vault
    }

    /// The program under which the seeds derive the vault's address.
    #[verifier::when_used_as_spec(spec_program_id)]
    pub fn program_id(&self) -> (r: Address)
        ensures
            r == self.spec_program_id(),
    {
        self.program_id
    }

    /// The owner whose identity is among the seeds.
    #[verifier::when_used_as_spec(spec_owner)]
    pub fn owner(&self) -> (r: Address)
        ensures
            r == self.spec_owner(),
    {
        self.owner
    }

    /// The nonce among the seeds.
    #[verifier::when_used_as_spec(spec_nonce)]
    pub fn nonce(&self) -> (r: u8)
        ensures
            r == self.spec_nonce(),
    {
        self.nonce
    }

    /// The seeds to sign a delegated call with: the label, the owner, the
    /// nonce.
    pub fn signer_seeds(&self) -> (r: Vec<Vec<u8>>)
        ensures
            seeds_view(r@) == vault_signer_seeds(self.spec_owner()@, self.spec_nonce()),
            derived_address(seeds_view(r@), self.spec_program_id()@) == Some(self.spec_vault()@),
    {
        proof {
            use_type_invariant(self);
        }
        signer_seed_list(&self.owner, self.nonce)
    }
}

/// The capability to act as the vault at `address` with the owner and
/// nonce given: granted exactly when they derive `address`. Otherwise
/// `InvalidVaultAddress`; no other nonce is tried.
pub fn authorize_seeds(address: &Address, owner: &Address, nonce: u8, program_id: &Address) -> (r:
    Result<Capability, ErrorCode>)
    ensures
        derives_vault(owner@, nonce, program_id@, address@) ==> r is Ok,
        r is Ok ==> {
            &&& derives_vault(owner@, nonce, program_id@, address@)
            &&& r->Ok_0.spec_vault() == *address
            &&& r->Ok_0.spec_owner() == *owner
            &&& r->Ok_0.spec_nonce() == nonce
            &&& r->Ok_0.spec_program_id() == *program_id
        },
        r is Err ==> r->Err_0 == ErrorCode::InvalidVaultAddress,
{
    let seeds = signer_seed_list(owner, nonce);
    proof {
        lemma_vault_seeds_fit(*owner, nonce);
    }
    let derived = create_program_address(&seeds, program_id);
    proof {
        if derived is Ok {
            derived->Ok_0.lemma_view_injective(*address);
        }
    }
    if is_derived_address(address, &derived) {
        Ok(Capability { vault: *address, owner: *owner, nonce, program_id: *program_id })
    } else {
        Err(ErrorCode::InvalidVaultAddress)
    }
}

/// Whether a derivation came to the address given.
pub fn is_derived_address(address: &Address, derived: &Result<Address, SeedError>) -> (r: bool)
    ensures
        r == (*derived is Ok && derived->Ok_0 == *address),
{
    match derived {
        Ok(found) => *found == *address,
        Err(_) => false,
    }
}

/// The capability to act as the vault at `address`, from what the vault
/// records: granted exactly when the recorded owner and nonce derive
/// `address`. Otherwise `InvalidVaultAddress`; no other nonce is tried.
pub fn authorize(address: &Address, vault: &Vault, program_id: &Address) -> (r: Result<
    Capability,
    ErrorCode,
>)
    ensures
        derives_vault(vault.owner@, vault.derivation_nonce, program_id@, address@) ==> r is Ok,
        r is Ok ==> {
            &&& derives_vault(vault.owner@, vault.derivation_nonce, program_id@, address@)
            &&& r->Ok_0.spec_vault() == *address
            &&& r->Ok_0.spec_owner() == vault.owner
            &&& r->Ok_0.spec_nonce() == vault.derivation_nonce
            &&& r->Ok_0.spec_program_id() == *program_id
        },
        r is Err ==> r->Err_0 == ErrorCode::InvalidVaultAddress,
{
    authorize_seeds(address, &vault.owner, vault.derivation_nonce, program_id)
}

/// The nonce that `derive` finds for an owner is one that `authorize`
/// accepts for the address found with it.
pub proof fn lemma_derive_then_authorize(
    owner: Address,
    program_id: Address,
    address: Address,
    nonce: u8,
)
    requires
        vault_address(owner@, program_id@) == Some(address@),
        is_canonical_bump(vault_seeds(owner@), program_id@, nonce),
    ensures
        derives_vault(owner@, nonce, program_id@, address@),
{
    let chosen = choose|b: u8| is_canonical_bump(vault_seeds(owner@), program_id@, b);
    crate::pda::lemma_canonical_bump_unique(vault_seeds(owner@), program_id@, chosen, nonce);
}

/// An owner and a nonce derive at most one address: `authorize` accepts no
/// two addresses for one record.
pub proof fn lemma_authorized_address_unique(
    owner: Address,
    nonce: u8,
    program_id: Address,
    a: Address,
    b: Address,
)
    requires
        derives_vault(owner@, nonce, program_id@, a@),
        derives_vault(owner@, nonce, program_id@, b@),
    ensures
        a == b,
{
    a.lemma_view_injective(b);
}

/// An owner has at most one vault address: whatever derives it, the same
/// owner and program give the same address.
pub proof fn lemma_vault_address_unique(
    owner: Address,
    program_id: Address,
    a: Address,
    b: Address,
)
    requires
        vault_address(owner@, program_id@) == Some(a@),
        vault_address(owner@, program_id@) == Some(b@),
    ensures
        a == b,
{
    a.lemma_view_injective(b);
}

} // verus!

//! The vault record.

use vstd::prelude::*;
use crate::address::Address;
use crate::constants::ANCHOR_DISCRIMINATOR;
use crate::constants::PUBKEY_SIZE;
use crate::constants::U8_SIZE;

verus! {

/// Bytes reserved for a vault record when it is created.
pub const VAULT_INIT_SPACE: usize = ANCHOR_DISCRIMINATOR + PUBKEY_SIZE * 2 + U8_SIZE;

/// What a vault records about itself. None of it changes after creation.
#[derive(Clone, Copy, Debug, PartialEq, Eq)]
pub struct Vault {
    /// The identity that controls the vault.
    pub owner: Address,
    /// A linked outside account, recorded as given.
    pub external_account_ref: Address,
    /// The nonce that, with the owner, derives the vault's address.
    pub derivation_nonce: u8,
}

} // verus!

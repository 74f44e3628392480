//! What the ledger holds at an address.

use vstd::prelude::*;
use crate::address::Address;
use crate::state::Vault;

verus! {

/// A balance of one currency, under one authority.
#[derive(Clone, Copy, Debug, PartialEq, Eq)]
pub struct TokenAccount {
    /// The currency.
    pub mint: Address,
    /// Who may move the balance or close the account.
    pub authority: Address,
    /// The balance, in the currency's smallest unit.
    pub amount: u64,
}

/// A swap that the venue has begun for an account and not yet settled.
#[derive(Clone, Copy, Debug, PartialEq, Eq, Structural)]
pub struct OpenSwap {
    pub in_market_index: u16,
    pub out_market_index: u16,
    pub amount_in: u64,
}

/// The venue's account handle: what it records for one authority.
#[derive(Clone, Copy, Debug, PartialEq, Eq)]
pub struct VenueUser {
    /// The vault the handle belongs to.
    pub authority: Address,
    /// Collateral recorded in the stablecoin market.
    pub usdc_collateral: u64,
    /// Collateral recorded in the wrapped-native market.
    pub sol_collateral: u64,
    /// The swap begun and not yet settled, if any.
    pub open_swap: Option<OpenSwap>,
}

/// The data of an account.
#[derive(Clone, Copy, Debug, PartialEq, Eq)]
pub enum AccountData {
    /// No data: a plain holder of native currency.
    Wallet,
    /// A vault: its record, and the recovery identity designated for it.
    Vault { record: Vault, backup: Option<Address> },
    /// A token balance.
    Token(TokenAccount),
    /// The venue's account-stats handle of one authority.
    VenueStats { authority: Address },
    /// The venue's account handle of one authority.
    VenueUser(VenueUser),
}

/// An account: its native balance and its data.
#[derive(Clone, Copy, Debug, PartialEq, Eq)]
pub struct Account {
    pub lamports: u64,
    pub data: AccountData,
}

} // verus!

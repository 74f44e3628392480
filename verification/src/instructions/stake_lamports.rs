//! Staking a vault's native currency. Nothing is staked yet: the operation
//! checks its accounts and issues no call.

use vstd::prelude::*;
use crate::account::Account;
use crate::address::Address;
use crate::call::DelegatedCall;
use crate::call::SignedCall;
use crate::call::plan_view;
use crate::constants::Config;
use crate::errors::ErrorCode;
use crate::instructions::checks::decide_vault;
use crate::instructions::checks::derive_addresses;
use crate::instructions::checks::lemma_vault_decision;
use crate::instructions::checks::vault_decision;
use crate::instructions::checks::Derived;
use crate::instructions::checks::vault_check;
use crate::ledger::Ledger;
use crate::state::Vault;

verus! {

/// The accounts of a staking operation.
#[derive(Clone, Copy, Debug, PartialEq, Eq)]
pub struct StakeLamports {
    /// The vault that stakes.
    pub vault: Address,
    /// The vault's owner, who signs.
    pub owner: Address,
}

impl StakeLamports {
    /// What the checks on the accounts yield: the vault's record, or the
    /// code of the first check that fails.
    pub open spec fn validation(self, s: Map<Address, Account>, cfg: Config, signer: Address) -> Result<
        Vault,
        ErrorCode,
    > {
        vault_check(s, cfg, signer, self.vault, self.owner)
    }

    /// What the checks on the accounts yield, given the addresses derived
    /// for the accounts.
    pub open spec fn decision(self, s: Map<Address, Account>, signer: Address, derived: Derived) -> Result<
        Vault,
        ErrorCode,
    > {
        vault_decision(s, signer, self.vault, self.owner, derived.vault)
    }

    /// Checks the accounts against the ledger and the addresses derived for
    /// the accounts.
    pub fn decide(&self, ledger: &Ledger, signer: &Address, derived: &Derived) -> (r: Result<
        Vault,
        ErrorCode,
    >)
        ensures
            r == self.decision(ledger@, *signer, *derived),
    {
        decide_vault(ledger, signer, &self.vault, &self.owner, &derived.vault)
    }

    /// Checks the accounts against the ledger.
    pub fn validate(&self, ledger: &Ledger, cfg: &Config, signer: &Address) -> (r: Result<
        Vault,
        ErrorCode,
    >)
        ensures
            r == self.validation(ledger@, *cfg, *signer),
    {
        let derived = derive_addresses(ledger, cfg, &self.vault, &self.owner);
        proof {
            lemma_vault_decision(ledger@, *cfg, *signer, self.vault, self.owner, derived);
        }
        self.decide(ledger, signer, &derived)
    }
}

/// Plans a staking operation: no step, whatever the amount.
pub fn stake_lamports_handler(ctx: &StakeLamports, amount: u64) -> (r: Vec<DelegatedCall>)
    ensures
        plan_view(r@) == Seq::<SignedCall>::empty(),
{
    let plan: Vec<DelegatedCall> = Vec::new();
    assert(plan_view(plan@) =~= Seq::<SignedCall>::empty());
    plan
}

} // verus!

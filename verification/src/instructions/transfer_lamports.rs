//! Moving native currency out of a vault's own balance, on the word of the
//! recovery identity designated for the vault.

use vstd::prelude::*;
use crate::account::Account;
use crate::address::Address;
use crate::authority::derives_vault;
use crate::call::Answer;
use crate::call::Call;
use crate::call::DelegatedCall;
use crate::call::SignedCall;
use crate::call::plan_view;
use crate::constants::Config;
use crate::errors::ErrorCode;
use crate::errors::ErrorKind;
use crate::errors::Failure;
use crate::instructions::checks::derive_addresses;
use crate::instructions::checks::is_expected;
use crate::instructions::checks::Derived;
use crate::ledger::Ledger;
use crate::runtime::realizes;
use crate::semantics::backup_at;
use crate::semantics::lamports_at;
use crate::semantics::answer_to;
use crate::semantics::answers_after;
use crate::semantics::lemma_run_from;
use crate::semantics::run;
use crate::semantics::step;
use crate::semantics::vault_at;
use crate::state::Vault;

verus! {

/// The accounts of an internal transfer.
#[derive(Clone, Copy, Debug, PartialEq, Eq)]
pub struct TransferLamports {
    /// The vault whose balance is debited.
    pub vault: Address,
    /// The account that is credited; any address will do.
    pub receiver: Address,
    /// The recovery identity designated for the vault, who signs.
    pub backup: Address,
}

impl TransferLamports {
    /// What the checks on the accounts and the amount yield: the vault's
    /// record, or the code of the first check that fails.
    pub open spec fn validation(
        self,
        s: Map<Address, Account>,
        cfg: Config,
        signer: Address,
        amount: u64,
    ) -> Result<Vault, ErrorCode> {
        match vault_at(s, self.vault) {
            None => Err(ErrorCode::InvalidQuartzAccount),
            Some(record) => {
                if signer != self.backup || backup_at(s, self.vault) != Some(self.backup) {
                    Err(ErrorCode::Unauthorized)
                } else if !derives_vault(
                    record.owner@,
                    record.derivation_nonce,
                    cfg.program_id@,
                    self.vault@,
                ) {
                    Err(ErrorCode::InvalidVaultAddress)
                } else if lamports_at(s, self.vault) < amount {
                    Err(ErrorCode::InsufficientFunds)
                } else {
                    Ok(record)
                }
            },
        }
    }

    /// What the checks on the accounts and the amount yield, given the
    /// addresses derived for the accounts.
    pub open spec fn decision(
        self,
        s: Map<Address, Account>,
        signer: Address,
        amount: u64,
        derived: Derived,
    ) -> Result<Vault, ErrorCode> {
        match vault_at(s, self.vault) {
            None => Err(ErrorCode::InvalidQuartzAccount),
            Some(record) => {
                if signer != self.backup || backup_at(s, self.vault) != Some(self.backup) {
                    Err(ErrorCode::Unauthorized)
                } else if derived.vault != Some(self.vault) {
                    Err(ErrorCode::InvalidVaultAddress)
                } else if lamports_at(s, self.vault) < amount {
                    Err(ErrorCode::InsufficientFunds)
                } else {
                    Ok(record)
                }
            },
        }
    }

    /// Checks the accounts and the amount against the ledger and the
    /// addresses derived for the accounts.
    pub fn decide(&self, ledger: &Ledger, signer: &Address, amount: u64, derived: &Derived) -> (r:
        Result<Vault, ErrorCode>)
        ensures
            r == self.decision(ledger@, *signer, amount, *derived),
    {
        let record = match ledger.vault(&self.vault) {
            Some(record) => record,
            None => {
                return Err(ErrorCode::InvalidQuartzAccount);
            },
        };
        if !(*signer == self.backup) {
            return Err(ErrorCode::Unauthorized);
        }
        match ledger.backup(&self.vault) {
            Some(recorded) => {
                if !(recorded == self.backup) {
                    return Err(ErrorCode::Unauthorized);
                }
            },
            None => {
                return Err(ErrorCode::Unauthorized);
            },
        }
        if !is_expected(&derived.vault, &self.vault) {
            return Err(ErrorCode::InvalidVaultAddress);
        }
        if ledger.lamports(&self.vault) < amount {
            return Err(ErrorCode::InsufficientFunds);
        }
        Ok(record)
    }

    /// With the derived addresses of the vault, the checks yield what they
    /// yield by the derivation itself.
    pub proof fn lemma_decision(
        self,
        s: Map<Address, Account>,
        cfg: Config,
        signer: Address,
        amount: u64,
        derived: Derived,
    )
        requires
            derived.describes(s, cfg, self.vault, self.backup),
        ensures
            self.decision(s, signer, amount, derived) == self.validation(s, cfg, signer, amount),
    {
        if derived.vault is Some {
            derived.vault->Some_0.lemma_view_injective(self.vault);
        }
    }

    /// Checks the accounts and the amount against the ledger.
    pub fn validate(&self, ledger: &Ledger, cfg: &Config, signer: &Address, amount: u64) -> (r:
        Result<Vault, ErrorCode>)
        ensures
            r == self.validation(ledger@, *cfg, *signer, amount),
    {
        let derived = derive_addresses(ledger, cfg, &self.vault, &self.backup);
        proof {
            self.lemma_decision(ledger@, *cfg, *signer, amount, derived);
        }
        self.decide(ledger, signer, amount, &derived)
    }
}

/// The one step of an internal transfer: a debit of the vault's own
/// balance in the receiver's favour. No other program is called.
pub open spec fn transfer_lamports_plan(ctx: TransferLamports, amount: u64) -> Seq<SignedCall> {
    seq![
        SignedCall {
            call: Call::DebitVault { vault: ctx.vault, receiver: ctx.receiver, amount },
            principal: None,
        },
    ]
}

/// Plans an internal transfer.
pub fn transfer_lamports_handler(ctx: &TransferLamports, amount: u64) -> (r: Vec<DelegatedCall>)
    ensures
        plan_view(r@) == transfer_lamports_plan(*ctx, amount),
{
    let mut plan: Vec<DelegatedCall> = Vec::new();
    plan.push(
        DelegatedCall::unsigned(
            Call::DebitVault { vault: ctx.vault, receiver: ctx.receiver, amount },
        ),
    );
    assert(plan_view(plan@) =~= transfer_lamports_plan(*ctx, amount));
    plan
}

/// What an internal transfer comes to: the error of the first failing
/// check or of the step, or the accounts after the step.
pub open spec fn transfer_lamports_outcome(
    s: Map<Address, Account>,
    cfg: Config,
    signer: Address,
    ctx: TransferLamports,
    amount: u64,
) -> Result<Map<Address, Account>, Failure> {
    match ctx.validation(s, cfg, signer, amount) {
        Err(e) => Err(Failure::Local(e)),
        Ok(_) => run(s, cfg, signer, transfer_lamports_plan(ctx, amount), Seq::<Answer>::empty()),
    }
}

/// Moves `amount` of native currency from the vault's own balance to the
/// receiver. Either it is moved or the ledger stays as it was.
pub fn transfer_lamports(
    ledger: &mut Ledger,
    cfg: &Config,
    signer: &Address,
    ctx: &TransferLamports,
    amount: u64,
) -> (r: Result<(), Failure>)
    ensures
        realizes(
            old(ledger)@,
            final(ledger)@,
            r,
            transfer_lamports_outcome(old(ledger)@, *cfg, *signer, *ctx, amount),
        ),
{
    match ctx.validate(ledger, cfg, signer, amount) {
        Ok(_) => {},
        Err(e) => {
            return Err(Failure::Local(e));
        },
    }
    let plan = transfer_lamports_handler(ctx, amount);
    ledger.execute(cfg, signer, &plan, &Vec::new())
}

/// An internal transfer that succeeds was signed by the recovery identity
/// designated for the vault; it takes exactly `amount` from the vault's
/// balance and adds exactly `amount` to the receiver's; a transfer to the
/// vault itself changes no balance; and no other account is touched.
pub proof fn lemma_transfer_lamports_effect(
    s: Map<Address, Account>,
    cfg: Config,
    signer: Address,
    ctx: TransferLamports,
    amount: u64,
)
    requires
        transfer_lamports_outcome(s, cfg, signer, ctx, amount) is Ok,
    ensures
        ({
            let after = transfer_lamports_outcome(s, cfg, signer, ctx, amount)->Ok_0;
            &&& backup_at(s, ctx.vault) == Some(signer)
            &&& ctx.receiver != ctx.vault ==> lamports_at(after, ctx.vault) == lamports_at(
                s,
                ctx.vault,
            ) - amount
            &&& ctx.receiver != ctx.vault ==> lamports_at(after, ctx.receiver) == lamports_at(
                s,
                ctx.receiver,
            ) + amount
            &&& ctx.receiver == ctx.vault ==> lamports_at(after, ctx.vault) == lamports_at(
                s,
                ctx.vault,
            )
            &&& forall|a: Address|
                a != ctx.vault && a != ctx.receiver ==> after.contains_key(a) == s.contains_key(a)
                    && (s.contains_key(a) ==> after[a] == s[a])
        }),
{
    let plan = transfer_lamports_plan(ctx, amount);
    assert(plan.skip(0) =~= plan);
    let a0 = Seq::<Answer>::empty();
    lemma_run_from(s, cfg, signer, plan, a0, 0);
    let s1 = step(s, cfg, signer, plan[0], answer_to(plan[0].call, a0))->Ok_0;
    let a1 = answers_after(plan[0].call, a0);
    lemma_run_from(s1, cfg, signer, plan, a1, 1);
}

/// An internal transfer from a vault, signed by anyone but the recovery
/// identity designated for it, fails as unauthorized.
pub proof fn lemma_transfer_lamports_backup_only(
    s: Map<Address, Account>,
    cfg: Config,
    signer: Address,
    ctx: TransferLamports,
    amount: u64,
)
    requires
        vault_at(s, ctx.vault) is Some,
        backup_at(s, ctx.vault) != Some(signer),
    ensures
        transfer_lamports_outcome(s, cfg, signer, ctx, amount) == Err::<
            Map<Address, Account>,
            Failure,
        >(Failure::Local(ErrorCode::Unauthorized)),
        Failure::Local(ErrorCode::Unauthorized).spec_kind() == ErrorKind::Authorization,
{
}

/// An internal transfer of more than the vault's balance, signed by the
/// recovery identity of a vault that stands at its derived address, fails
/// with `InsufficientFunds`.
pub proof fn lemma_transfer_lamports_insufficient(
    s: Map<Address, Account>,
    cfg: Config,
    signer: Address,
    ctx: TransferLamports,
    amount: u64,
)
    requires
        ctx.validation(s, cfg, signer, 0) is Ok,
        lamports_at(s, ctx.vault) < amount,
    ensures
        transfer_lamports_outcome(s, cfg, signer, ctx, amount) == Err::<
            Map<Address, Account>,
            Failure,
        >(Failure::Local(ErrorCode::InsufficientFunds)),
{
}

} // verus!

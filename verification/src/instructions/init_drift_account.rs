//! Registering a vault with the venue: create its account-stats handle,
//! then its account handle.

use vstd::prelude::*;
use crate::account::Account;
use crate::account::VenueUser;
use crate::address::Address;
use crate::authority::authorize;
use crate::authority::derives_vault;
use crate::call::Answer;
use crate::call::Call;
use crate::call::DelegatedCall;
use crate::call::InitializeUser;
use crate::call::InitializeUserStats;
use crate::call::Principal;
use crate::call::SignedCall;
use crate::call::plan_view;
use crate::call::signed_with;
use crate::constants::Config;
use crate::errors::ErrorCode;
use crate::errors::Failure;
use crate::instructions::checks::decide_vault;
use crate::instructions::checks::decide_venue_accounts;
use crate::instructions::checks::derive_addresses;
use crate::instructions::checks::lemma_vault_decision;
use crate::instructions::checks::lemma_venue_accounts_decision;
use crate::instructions::checks::vault_decision;
use crate::instructions::checks::venue_accounts_decision;
use crate::instructions::checks::Derived;
use crate::instructions::checks::vault_check;
use crate::instructions::checks::venue_accounts_check;
use crate::ledger::Ledger;
use crate::runtime::realizes;
use crate::semantics::answer_to;
use crate::semantics::answers_after;
use crate::semantics::lemma_run_from;
use crate::semantics::run;
use crate::semantics::step;
use crate::semantics::vault_at;
use crate::semantics::venue_stats_at;
use crate::semantics::venue_user_at;
use crate::state::Vault;

verus! {

/// The accounts of a registration with the venue.
#[derive(Clone, Copy, Debug, PartialEq, Eq)]
pub struct InitDriftAccount {
    /// The vault to register.
    pub vault: Address,
    /// The vault's owner, who signs and pays.
    pub owner: Address,
    /// Where the venue's account handle of the vault will stand.
    pub drift_user: Address,
    /// Where the venue's account-stats handle of the vault will stand.
    pub drift_user_stats: Address,
    /// The venue's state account.
    pub drift_state: Address,
    /// The venue's program.
    pub drift_program: Address,
}

/// The name given to every account handle: none.
pub const NO_NAME: [u8; 32] = [
    0, 0, 0, 0, 0, 0, 0, 0, 0, 0, 0, 0, 0, 0, 0, 0,
    0, 0, 0, 0, 0, 0, 0, 0, 0, 0, 0, 0, 0, 0, 0, 0,
];

impl InitDriftAccount {
    /// The order of the checks on the accounts, given what the checks
    /// against derived addresses came to: the vault's record, or the code of
    /// the first check that fails. The vault is checked first, then
    /// the venue's accounts.
    pub open spec fn verdict(
        self,
        cfg: Config,
        vault: Result<Vault, ErrorCode>,
        venue: Option<ErrorCode>,
    ) -> Result<Vault, ErrorCode> {
        if vault is Err {
            vault
        } else if venue is Some {
            Err(venue->Some_0)
        } else {
            vault
        }
    }

    /// What the checks on the accounts yield.
    pub open spec fn validation(
        self,
        s: Map<Address, Account>,
        cfg: Config,
        signer: Address,
    ) -> Result<Vault, ErrorCode> {
        self.verdict(
            cfg,
            vault_check(s, cfg, signer, self.vault, self.owner),
            venue_accounts_check(
                cfg,
                self.drift_program,
                self.vault,
                self.drift_state,
                self.drift_user,
                self.drift_user_stats,
            ),
        )
    }

    /// What the checks on the accounts yield, given the addresses derived
    /// for the accounts.
    pub open spec fn decision(
        self,
        s: Map<Address, Account>,
        cfg: Config,
        signer: Address,
        derived: Derived,
    ) -> Result<Vault, ErrorCode> {
        self.verdict(
            cfg,
            vault_decision(s, signer, self.vault, self.owner, derived.vault),
            venue_accounts_decision(
                cfg,
                self.drift_program,
                self.drift_state,
                self.drift_user,
                self.drift_user_stats,
                derived,
            ),
        )
    }

    /// Checks the accounts against the ledger and the
    /// addresses derived for the accounts.
    pub fn decide(
        &self,
        ledger: &Ledger,
        cfg: &Config,
        signer: &Address,
        derived: &Derived,
    ) -> (r: Result<Vault, ErrorCode>)
        ensures
            r == self.decision(ledger@, *cfg, *signer, *derived),
    {
        let record = match decide_vault(ledger, signer, &self.vault, &self.owner, &derived.vault) {
            Ok(record) => record,
            Err(e) => {
                return Err(e);
            },
        };
        match decide_venue_accounts(
            cfg,
            &self.drift_program,
            &self.drift_state,
            &self.drift_user,
            &self.drift_user_stats,
            derived,
        ) {
            Some(e) => {
                return Err(e);
            },
            None => {},
        }
        Ok(record)
    }

    /// With the derived addresses of the vault, the checks yield what they
    /// yield by the derivation itself.
    pub proof fn lemma_decision(
        self,
        s: Map<Address, Account>,
        cfg: Config,
        signer: Address,
        derived: Derived,
    )
        requires
            derived.describes(s, cfg, self.vault, self.owner),
        ensures
            self.decision(s, cfg, signer, derived) == self.validation(s, cfg, signer),
    {
        lemma_vault_decision(s, cfg, signer, self.vault, self.owner, derived);
        lemma_venue_accounts_decision(
            s,
            cfg,
            self.drift_program,
            self.vault,
            self.owner,
            self.drift_state,
            self.drift_user,
            self.drift_user_stats,
            derived,
        );
    }

    /// Checks the accounts against the ledger.
    pub fn validate(&self, ledger: &Ledger, cfg: &Config, signer: &Address) -> (r: Result<
        Vault,
        ErrorCode,
    >)
        ensures
            r == self.validation(ledger@, *cfg, *signer),
    {
        let derived = derive_addresses(ledger, cfg, &self.vault, &self.owner);
        proof {
            self.lemma_decision(ledger@, *cfg, *signer, derived);
        }
        self.decide(ledger, cfg, signer, &derived)
    }
}

/// The steps of a registration: the account-stats handle first, then the
/// account handle that refers to it, each under the vault's authority.
pub open spec fn init_drift_account_plan(ctx: InitDriftAccount, record: Vault, cfg: Config) -> Seq<SignedCall> {
    let vault = Some(Principal {
        vault: ctx.vault,
        program_id: cfg.program_id,
        owner: record.owner,
        nonce: record.derivation_nonce,
    });
    seq![
        SignedCall {
            call: Call::VenueInitializeUserStats {
                accounts: InitializeUserStats {
                    user_stats: ctx.drift_user_stats,
                    state: ctx.drift_state,
                    authority: ctx.vault,
                    payer: ctx.owner,
                    system_program: cfg.system_program,
                },
            },
            principal: vault,
        },
        SignedCall {
            call: Call::VenueInitializeUser {
                accounts: InitializeUser {
                    user: ctx.drift_user,
                    user_stats: ctx.drift_user_stats,
                    state: ctx.drift_state,
                    authority: ctx.vault,
                    payer: ctx.owner,
                    system_program: cfg.system_program,
                },
                sub_account_id: 0,
                name: NO_NAME,
            },
            principal: vault,
        },
    ]
}

/// Plans a registration for the vault whose record is given. The plan is
/// made exactly when the record's owner and nonce derive the vault's
/// address, and each signed step then
/// shows those as its seeds; otherwise `InvalidVaultAddress`.
pub fn init_drift_account_handler(ctx: &InitDriftAccount, vault: &Vault, cfg: &Config) -> (r:
    Result<Vec<DelegatedCall>, ErrorCode>)
    ensures
        r is Ok <==> derives_vault(
            vault.owner@,
            vault.derivation_nonce,
            cfg.program_id@,
            ctx.vault@,
        ),
        r is Ok ==> plan_view(r->Ok_0@) == init_drift_account_plan(*ctx, *vault, *cfg),
        r is Ok ==> signed_with(r->Ok_0@, vault.owner, vault.derivation_nonce),
        r is Err ==> r->Err_0 == ErrorCode::InvalidVaultAddress,
{
    let for_stats = authorize(&ctx.vault, vault, &cfg.program_id)?;
    let for_user = authorize(&ctx.vault, vault, &cfg.program_id)?;
    let mut plan: Vec<DelegatedCall> = Vec::new();
    plan.push(
        DelegatedCall::signed(
            Call::VenueInitializeUserStats {
                accounts: InitializeUserStats {
                    user_stats: ctx.drift_user_stats,
                    state: ctx.drift_state,
                    authority: ctx.vault,
                    payer: ctx.owner,
                    system_program: cfg.system_program,
                },
            },
            for_stats,
        ),
    );
    plan.push(
        DelegatedCall::signed(
            Call::VenueInitializeUser {
                accounts: InitializeUser {
                    user: ctx.drift_user,
                    user_stats: ctx.drift_user_stats,
                    state: ctx.drift_state,
                    authority: ctx.vault,
                    payer: ctx.owner,
                    system_program: cfg.system_program,
                },
                sub_account_id: 0,
                name: NO_NAME,
            },
            for_user,
        ),
    );
    assert(plan_view(plan@) =~= init_drift_account_plan(*ctx, *vault, *cfg));
    Ok(plan)
}

/// What a registration comes to: the error of the first failing check or
/// step, or the accounts after both steps.
pub open spec fn init_drift_account_outcome(
    s: Map<Address, Account>,
    cfg: Config,
    signer: Address,
    ctx: InitDriftAccount,
    answers: Seq<Answer>,
) -> Result<Map<Address, Account>, Failure> {
    match ctx.validation(s, cfg, signer) {
        Err(e) => Err(Failure::Local(e)),
        Ok(record) => run(
            s,
            cfg,
            signer,
            init_drift_account_plan(ctx, record, cfg),
            answers,
        ),
    }
}

/// Registers the vault with the venue. Either both handles are created or
/// the ledger stays as it was.
pub fn init_drift_account(
    ledger: &mut Ledger,
    cfg: &Config,
    signer: &Address,
    ctx: &InitDriftAccount,
    answers: &Vec<Answer>,
) -> (r: Result<(), Failure>)
    ensures
        realizes(
            old(ledger)@,
            final(ledger)@,
            r,
            init_drift_account_outcome(old(ledger)@, *cfg, *signer, *ctx, answers@),
        ),
{
    let record = match ctx.validate(ledger, cfg, signer) {
        Ok(record) => record,
        Err(e) => {
            return Err(Failure::Local(e));
        },
    };
    let plan = match init_drift_account_handler(ctx, &record, cfg) {
        Ok(plan) => plan,
        Err(e) => {
            return Err(Failure::Local(e));
        },
    };
    ledger.execute(cfg, signer, &plan, answers)
}

/// A registration that succeeds creates both handles under the vault's
/// authority, the account handle without collateral, at addresses that
/// held no account before, and touches no other account.
pub proof fn lemma_init_drift_account_effect(
    s: Map<Address, Account>,
    cfg: Config,
    signer: Address,
    ctx: InitDriftAccount,
    answers: Seq<Answer>,
)
    requires
        init_drift_account_outcome(s, cfg, signer, ctx, answers) is Ok,
    ensures
        ({
            let after = init_drift_account_outcome(s, cfg, signer, ctx, answers)->Ok_0;
            &&& !s.contains_key(ctx.drift_user)
            &&& !s.contains_key(ctx.drift_user_stats)
            &&& venue_stats_at(after, ctx.drift_user_stats) == Some(ctx.vault)
            &&& venue_user_at(after, ctx.drift_user) == Some(
                VenueUser {
                    authority: ctx.vault,
                    usdc_collateral: 0,
                    sol_collateral: 0,
                    open_swap: None,
                },
            )
            &&& forall|a: Address|
                a != ctx.drift_user && a != ctx.drift_user_stats ==> after.contains_key(a)
                    == s.contains_key(a) && (s.contains_key(a) ==> after[a] == s[a])
        }),
{
    let plan = init_drift_account_plan(ctx, ctx.validation(s, cfg, signer)->Ok_0, cfg);
    assert(plan.skip(0) =~= plan);
    let a0 = answers;
    lemma_run_from(s, cfg, signer, plan, a0, 0);
    let s1 = step(s, cfg, signer, plan[0], answer_to(plan[0].call, a0))->Ok_0;
    let a1 = answers_after(plan[0].call, a0);
    lemma_run_from(s1, cfg, signer, plan, a1, 1);
    let s2 = step(s1, cfg, signer, plan[1], answer_to(plan[1].call, a1))->Ok_0;
    let a2 = answers_after(plan[1].call, a1);
    lemma_run_from(s2, cfg, signer, plan, a2, 2);
}

/// A registration succeeds only when the signer is the owner that the
/// vault records.
pub proof fn lemma_init_drift_account_owner_only(
    s: Map<Address, Account>,
    cfg: Config,
    signer: Address,
    ctx: InitDriftAccount,
    answers: Seq<Answer>,
)
    requires
        init_drift_account_outcome(s, cfg, signer, ctx, answers) is Ok,
    ensures
        vault_at(s, ctx.vault) is Some,
        vault_at(s, ctx.vault)->Some_0.owner == signer,
{
}

} // verus!

//! Registering an owner's vault with the venue through accounts handed in
//! one by one: the signing address is searched for from the owner's
//! identity and must be where the owner's vault stands.

use vstd::prelude::*;
use crate::account::Account;
use crate::account::VenueUser;
use crate::address::Address;
use crate::authority::authorize;
use crate::authority::vault_address;
use crate::call::Answer;
use crate::call::Call;
use crate::call::DelegatedCall;
use crate::call::InitializeUser;
use crate::call::InitializeUserStats;
use crate::call::Principal;
use crate::call::SignedCall;
use crate::call::plan_view;
use crate::call::signed_with;
use crate::constants::Config;
use crate::errors::ErrorCode;
use crate::errors::Failure;
use crate::instructions::checks::decide_vault;
use crate::instructions::checks::derive_addresses;
use crate::instructions::checks::lemma_vault_decision;
use crate::instructions::checks::vault_check;
use crate::instructions::checks::vault_decision;
use crate::instructions::checks::Derived;
use crate::instructions::init_drift_account::NO_NAME;
use crate::ledger::Ledger;
use crate::pda::is_found_address;
use crate::runtime::realizes;
use crate::semantics::answer_to;
use crate::semantics::answers_after;
use crate::semantics::lemma_run_from;
use crate::semantics::run;
use crate::semantics::step;
use crate::semantics::vault_at;
use crate::semantics::venue_stats_at;
use crate::semantics::venue_user_at;
use crate::state::Vault;

verus! {

/// The accounts of a registration whose signing address is searched for.
#[derive(Clone, Copy, Debug, PartialEq, Eq)]
pub struct DriftUserInit {
    /// The address of the owner's vault, which signs by its seeds.
    pub pda_account: Address,
    /// Where the venue's account handle will stand.
    pub user: Address,
    /// Where the venue's account-stats handle will stand.
    pub user_stats: Address,
    /// The venue's state account.
    pub state: Address,
    /// The authority that the handles will belong to.
    pub authority: Address,
    /// Who pays: the owner.
    pub payer: Address,
    /// The owner, who signs and from whose identity the signing address is
    /// found.
    pub owner: Address,
    /// The venue's program.
    pub drift_program: Address,
}

impl DriftUserInit {
    /// The order of the checks on the accounts, given what the checks
    /// against derived addresses came to: the vault's record, or the code of
    /// the first check that fails. The owner must have signed, must be the
    /// payer, and the authority must be the signing address; the program
    /// must be the venue's; the signing address must be the one found for
    /// the owner; and the owner's vault must stand there.
    pub open spec fn verdict(
        self,
        cfg: Config,
        signer: Address,
        found: bool,
        vault: Result<Vault, ErrorCode>,
    ) -> Result<Vault, ErrorCode> {
        if signer != self.owner || self.payer != signer || self.authority != self.pda_account {
            Err(ErrorCode::Unauthorized)
        } else if self.drift_program != cfg.drift_program {
            Err(ErrorCode::InvalidDriftProgram)
        } else if !found {
            Err(ErrorCode::InvalidVaultAddress)
        } else {
            vault
        }
    }

    /// What the checks on the accounts yield.
    pub open spec fn validation(self, s: Map<Address, Account>, cfg: Config, signer: Address) -> Result<
        Vault,
        ErrorCode,
    > {
        self.verdict(
            cfg,
            signer,
            vault_address(self.owner@, cfg.program_id@) == Some(self.pda_account@),
            vault_check(s, cfg, signer, self.pda_account, self.owner),
        )
    }

    /// What the checks on the accounts yield, given what the search for the
    /// owner's address came to and the addresses derived for the accounts.
    pub open spec fn decision(
        self,
        s: Map<Address, Account>,
        cfg: Config,
        signer: Address,
        found: Option<(Address, u8)>,
        derived: Derived,
    ) -> Result<Vault, ErrorCode> {
        self.verdict(
            cfg,
            signer,
            found is Some && found->Some_0.0 == self.pda_account,
            vault_decision(s, signer, self.pda_account, self.owner, derived.vault),
        )
    }

    /// Checks the accounts against the ledger, what the search for the
    /// owner's address came to, and the addresses derived for the accounts.
    pub fn decide(
        &self,
        ledger: &Ledger,
        cfg: &Config,
        signer: &Address,
        found: &Option<(Address, u8)>,
        derived: &Derived,
    ) -> (r: Result<Vault, ErrorCode>)
        ensures
            r == self.decision(ledger@, *cfg, *signer, *found, *derived),
    {
        if !(*signer == self.owner) || !(self.payer == *signer) || !(self.authority
            == self.pda_account) {
            return Err(ErrorCode::Unauthorized);
        }
        if !(self.drift_program == cfg.drift_program) {
            return Err(ErrorCode::InvalidDriftProgram);
        }
        if !is_found_address(&self.pda_account, found) {
            return Err(ErrorCode::InvalidVaultAddress);
        }
        decide_vault(ledger, signer, &self.pda_account, &self.owner, &derived.vault)
    }

    /// Checks the accounts against the ledger.
    pub fn validate(&self, ledger: &Ledger, cfg: &Config, signer: &Address) -> (r: Result<
        Vault,
        ErrorCode,
    >)
        ensures
            r == self.validation(ledger@, *cfg, *signer),
    {
        let found = crate::authority::derive(&self.owner, &cfg.program_id);
        let derived = derive_addresses(ledger, cfg, &self.pda_account, &self.owner);
        proof {
            if found is Some {
                found->Some_0.0.lemma_view_injective(self.pda_account);
            }
            lemma_vault_decision(ledger@, *cfg, *signer, self.pda_account, self.owner, derived);
        }
        self.decide(ledger, cfg, signer, &found, &derived)
    }
}

/// The steps of such a registration: the account-stats handle first, then
/// the account handle, each signed by the derived address.
pub open spec fn initialize_drift_user_plan(ctx: DriftUserInit, record: Vault, cfg: Config) -> Seq<SignedCall> {
    let signing = Some(Principal {
        vault: ctx.pda_account,
        program_id: cfg.program_id,
        owner: record.owner,
        nonce: record.derivation_nonce,
    });
    seq![
        SignedCall {
            call: Call::VenueInitializeUserStats {
                accounts: InitializeUserStats {
                    user_stats: ctx.user_stats,
                    state: ctx.state,
                    authority: ctx.authority,
                    payer: ctx.payer,
                    system_program: cfg.system_program,
                },
            },
            principal: signing,
        },
        SignedCall {
            call: Call::VenueInitializeUser {
                accounts: InitializeUser {
                    user: ctx.user,
                    user_stats: ctx.user_stats,
                    state: ctx.state,
                    authority: ctx.authority,
                    payer: ctx.payer,
                    system_program: cfg.system_program,
                },
                sub_account_id: 0,
                name: NO_NAME,
            },
            principal: signing,
        },
    ]
}

/// Checks the accounts and plans the registration. The plan is made
/// exactly when the checks pass, and each of its steps is then signed with
/// the owner and nonce that the vault records; otherwise the code of the
/// first check that fails.
pub fn initialize_drift_user_handler(
    ledger: &Ledger,
    cfg: &Config,
    signer: &Address,
    ctx: &DriftUserInit,
) -> (r: Result<Vec<DelegatedCall>, ErrorCode>)
    ensures
        r is Ok <==> ctx.validation(ledger@, *cfg, *signer) is Ok,
        r is Ok ==> plan_view(r->Ok_0@) == initialize_drift_user_plan(
            *ctx,
            ctx.validation(ledger@, *cfg, *signer)->Ok_0,
            *cfg,
        ),
        r is Ok ==> signed_with(
            r->Ok_0@,
            ctx.validation(ledger@, *cfg, *signer)->Ok_0.owner,
            ctx.validation(ledger@, *cfg, *signer)->Ok_0.derivation_nonce,
        ),
        r is Err ==> r->Err_0 == ctx.validation(ledger@, *cfg, *signer)->Err_0,
{
    let record = ctx.validate(ledger, cfg, signer)?;
    let for_stats = authorize(&ctx.pda_account, &record, &cfg.program_id)?;
    let for_user = authorize(&ctx.pda_account, &record, &cfg.program_id)?;
    let mut plan: Vec<DelegatedCall> = Vec::new();
    plan.push(
        DelegatedCall::signed(
            Call::VenueInitializeUserStats {
                accounts: InitializeUserStats {
                    user_stats: ctx.user_stats,
                    state: ctx.state,
                    authority: ctx.authority,
                    payer: ctx.payer,
                    system_program: cfg.system_program,
                },
            },
            for_stats,
        ),
    );
    plan.push(
        DelegatedCall::signed(
            Call::VenueInitializeUser {
                accounts: InitializeUser {
                    user: ctx.user,
                    user_stats: ctx.user_stats,
                    state: ctx.state,
                    authority: ctx.authority,
                    payer: ctx.payer,
                    system_program: cfg.system_program,
                },
                sub_account_id: 0,
                name: NO_NAME,
            },
            for_user,
        ),
    );
    assert(plan_view(plan@) =~= initialize_drift_user_plan(*ctx, record, *cfg));
    Ok(plan)
}

/// What such a registration comes to: the error of the first failing
/// check or step, or the accounts after both steps.
pub open spec fn initialize_drift_user_outcome(
    s: Map<Address, Account>,
    cfg: Config,
    signer: Address,
    ctx: DriftUserInit,
    answers: Seq<Answer>,
) -> Result<Map<Address, Account>, Failure> {
    match ctx.validation(s, cfg, signer) {
        Err(e) => Err(Failure::Local(e)),
        Ok(record) => run(
            s,
            cfg,
            signer,
            initialize_drift_user_plan(ctx, record, cfg),
            answers,
        ),
    }
}

/// Registers the owner's vault with the venue. Either both handles are
/// created or the ledger stays as it was.
pub fn initialize_drift_user(
    ledger: &mut Ledger,
    cfg: &Config,
    signer: &Address,
    ctx: &DriftUserInit,
    answers: &Vec<Answer>,
) -> (r: Result<(), Failure>)
    ensures
        realizes(
            old(ledger)@,
            final(ledger)@,
            r,
            initialize_drift_user_outcome(old(ledger)@, *cfg, *signer, *ctx, answers@),
        ),
{
    let plan = match initialize_drift_user_handler(ledger, cfg, signer, ctx) {
        Ok(plan) => plan,
        Err(e) => {
            return Err(Failure::Local(e));
        },
    };
    ledger.execute(cfg, signer, &plan, answers)
}

/// Such a registration fails as unauthorized unless the owner has signed
/// it, whatever the other accounts.
pub proof fn lemma_initialize_drift_user_owner_only(
    s: Map<Address, Account>,
    cfg: Config,
    signer: Address,
    ctx: DriftUserInit,
    answers: Seq<Answer>,
)
    requires
        signer != ctx.owner,
    ensures
        initialize_drift_user_outcome(s, cfg, signer, ctx, answers) == Err::<
            Map<Address, Account>,
            Failure,
        >(Failure::Local(ErrorCode::Unauthorized)),
{
}

/// Such a registration succeeds only when the owner has signed and pays,
/// the authority is the address found for the owner, and a vault stands
/// there that records the owner; it then creates both handles under that
/// authority, the account handle without collateral, and touches no other
/// account.
pub proof fn lemma_initialize_drift_user_effect(
    s: Map<Address, Account>,
    cfg: Config,
    signer: Address,
    ctx: DriftUserInit,
    answers: Seq<Answer>,
)
    requires
        initialize_drift_user_outcome(s, cfg, signer, ctx, answers) is Ok,
    ensures
        ({
            let after = initialize_drift_user_outcome(s, cfg, signer, ctx, answers)->Ok_0;
            &&& signer == ctx.owner
            &&& signer == ctx.payer
            &&& ctx.authority == ctx.pda_account
            &&& vault_address(ctx.owner@, cfg.program_id@) == Some(ctx.authority@)
            &&& vault_at(s, ctx.authority) is Some
            &&& vault_at(s, ctx.authority)->Some_0.owner == signer
            &&& venue_stats_at(after, ctx.user_stats) == Some(ctx.authority)
            &&& venue_user_at(after, ctx.user) == Some(
                VenueUser {
                    authority: ctx.authority,
                    usdc_collateral: 0,
                    sol_collateral: 0,
                    open_swap: None,
                },
            )
            &&& forall|a: Address|
                a != ctx.user && a != ctx.user_stats ==> after.contains_key(a) == s.contains_key(a)
                    && (s.contains_key(a) ==> after[a] == s[a])
        }),
{
    let plan = initialize_drift_user_plan(ctx, ctx.validation(s, cfg, signer)->Ok_0, cfg);
    assert(plan.skip(0) =~= plan);
    let a0 = answers;
    lemma_run_from(s, cfg, signer, plan, a0, 0);
    let s1 = step(s, cfg, signer, plan[0], answer_to(plan[0].call, a0))->Ok_0;
    let a1 = answers_after(plan[0].call, a0);
    lemma_run_from(s1, cfg, signer, plan, a1, 1);
    let s2 = step(s1, cfg, signer, plan[1], answer_to(plan[1].call, a1))->Ok_0;
    let a2 = answers_after(plan[1].call, a1);
    lemma_run_from(s2, cfg, signer, plan, a2, 2);
}

} // verus!

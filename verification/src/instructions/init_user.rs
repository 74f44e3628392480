//! Creating a vault: store its record at the address derived from the
//! owner, and open its first custody account for the stablecoin.

use vstd::prelude::*;
use crate::account::Account;
use crate::account::TokenAccount;
use crate::address::Address;
use crate::authority::derives_vault;
use crate::authority::lemma_derive_then_authorize;
use crate::authority::vault_address;
use crate::authority::vault_seeds;
use crate::call::Answer;
use crate::call::Call;
use crate::call::DelegatedCall;
use crate::call::SignedCall;
use crate::call::plan_view;
use crate::constants::Config;
use crate::errors::ErrorCode;
use crate::errors::Failure;
use crate::instructions::checks::initial_custody_seeds;
use crate::instructions::checks::initial_custody_address;
use crate::instructions::checks::is_expected;
use crate::instructions::checks::lemma_expected;
use crate::instructions::checks::stands_at;
use crate::ledger::Ledger;
use crate::pda::is_canonical_bump;
use crate::runtime::realizes;
use crate::semantics::backup_at;
use crate::semantics::answer_to;
use crate::semantics::answers_after;
use crate::semantics::lemma_run_from;
use crate::semantics::run;
use crate::semantics::step;
use crate::semantics::token_at;
use crate::semantics::vault_at;
use crate::state::Vault;

verus! {

/// The accounts of the creation of a vault.
#[derive(Clone, Copy, Debug, PartialEq, Eq)]
pub struct InitializeUser {
    /// Where the vault will stand.
    pub vault: Address,
    /// Where the vault's stablecoin custody account will stand.
    pub vault_usdc: Address,
    /// The linked outside account, recorded as given.
    pub stake_account: Address,
    /// The owner, who signs and pays.
    pub owner: Address,
    /// The mint of the custody account.
    pub usdc_mint: Address,
    /// The stake program.
    pub stake_program: Address,
}

/// The nonce of an owner's vault: the highest that derives an address.
pub open spec fn vault_nonce(owner: Address, program_id: Address) -> u8 {
    choose|b: u8| is_canonical_bump(vault_seeds(owner@), program_id@, b)
}

impl InitializeUser {
    /// What the checks on the accounts yield: the nonce of the owner's
    /// vault, or the code of the first check that fails. The mint is checked
    /// before anything else.
    pub open spec fn validation(self, cfg: Config, signer: Address) -> Result<u8, ErrorCode> {
        if self.usdc_mint != cfg.usdc_mint {
            Err(ErrorCode::InvalidMintAddress)
        } else if self.stake_program != cfg.stake_program {
            Err(ErrorCode::InvalidStakeProgram)
        } else if signer != self.owner {
            Err(ErrorCode::Unauthorized)
        } else if vault_address(self.owner@, cfg.program_id@) != Some(self.vault@) {
            Err(ErrorCode::InvalidVaultAddress)
        } else if !stands_at(
            self.vault_usdc,
            initial_custody_seeds(self.owner, self.usdc_mint),
            cfg.program_id,
        ) {
            Err(ErrorCode::InvalidAccountAddress)
        } else {
            Ok(vault_nonce(self.owner, cfg.program_id))
        }
    }

    /// What the checks on the accounts yield, given what the search for the
    /// owner's vault and for its custody account came to.
    pub open spec fn decision(
        self,
        cfg: Config,
        signer: Address,
        vault: Option<(Address, u8)>,
        custody: Option<Address>,
    ) -> Result<u8, ErrorCode> {
        if self.usdc_mint != cfg.usdc_mint {
            Err(ErrorCode::InvalidMintAddress)
        } else if self.stake_program != cfg.stake_program {
            Err(ErrorCode::InvalidStakeProgram)
        } else if signer != self.owner {
            Err(ErrorCode::Unauthorized)
        } else if !(vault is Some && vault->Some_0.0 == self.vault) {
            Err(ErrorCode::InvalidVaultAddress)
        } else if custody != Some(self.vault_usdc) {
            Err(ErrorCode::InvalidAccountAddress)
        } else {
            Ok(vault->Some_0.1)
        }
    }

    /// Checks the accounts against what the search for the owner's vault
    /// and for its custody account came to.
    pub fn decide(
        &self,
        cfg: &Config,
        signer: &Address,
        vault: &Option<(Address, u8)>,
        custody: &Option<Address>,
    ) -> (r: Result<u8, ErrorCode>)
        ensures
            r == self.decision(*cfg, *signer, *vault, *custody),
    {
        if !(self.usdc_mint == cfg.usdc_mint) {
            return Err(ErrorCode::InvalidMintAddress);
        }
        if !(self.stake_program == cfg.stake_program) {
            return Err(ErrorCode::InvalidStakeProgram);
        }
        if !(*signer == self.owner) {
            return Err(ErrorCode::Unauthorized);
        }
        let nonce = match vault {
            Some((address, nonce)) => {
                if !(*address == self.vault) {
                    return Err(ErrorCode::InvalidVaultAddress);
                }
                *nonce
            },
            None => {
                return Err(ErrorCode::InvalidVaultAddress);
            },
        };
        if !is_expected(custody, &self.vault_usdc) {
            return Err(ErrorCode::InvalidAccountAddress);
        }
        Ok(nonce)
    }

    /// Checks the accounts.
    pub fn validate(&self, cfg: &Config, signer: &Address) -> (r: Result<u8, ErrorCode>)
        ensures
            r == self.validation(*cfg, *signer),
            r is Ok ==> derives_vault(self.owner@, r->Ok_0, cfg.program_id@, self.vault@),
    {
        let vault = crate::authority::derive(&self.owner, &cfg.program_id);
        let custody = initial_custody_address(&self.owner, &self.usdc_mint, cfg);
        proof {
            if vault is Some {
                vault->Some_0.0.lemma_view_injective(self.vault);
                crate::pda::lemma_canonical_bump_unique(
                    vault_seeds(self.owner@),
                    cfg.program_id@,
                    vault->Some_0.1,
                    vault_nonce(self.owner, cfg.program_id),
                );
            }
            lemma_expected(
                custody,
                self.vault_usdc,
                initial_custody_seeds(self.owner, self.usdc_mint),
                cfg.program_id,
            );
        }
        self.decide(cfg, signer, &vault, &custody)
    }
}

/// The record of a new vault: the owner, the linked account as given, the
/// nonce.
pub open spec fn new_vault_record(ctx: InitializeUser, bump: u8) -> Vault {
    Vault { owner: ctx.owner, external_account_ref: ctx.stake_account, derivation_nonce: bump }
}

/// The steps of the creation of a vault: store the record, open the
/// stablecoin custody account under the vault's authority.
pub open spec fn init_user_plan(ctx: InitializeUser, bump: u8) -> Seq<SignedCall> {
    seq![
        SignedCall {
            call: Call::CreateVault {
                vault: ctx.vault,
                record: new_vault_record(ctx, bump),
                payer: ctx.owner,
            },
            principal: None,
        },
        SignedCall {
            call: Call::OpenTokenAccount {
                account: ctx.vault_usdc,
                mint: ctx.usdc_mint,
                authority: ctx.vault,
                payer: ctx.owner,
            },
            principal: None,
        },
    ]
}

/// Plans the creation of a vault whose nonce is `bump`.
pub fn init_user_handler(ctx: &InitializeUser, bump: u8) -> (r: Vec<DelegatedCall>)
    ensures
        plan_view(r@) == init_user_plan(*ctx, bump),
{
    let mut plan: Vec<DelegatedCall> = Vec::new();
    plan.push(
        DelegatedCall::unsigned(
            Call::CreateVault {
                vault: ctx.vault,
                record: Vault {
                    owner: ctx.owner,
                    external_account_ref: ctx.stake_account,
                    derivation_nonce: bump,
                },
                payer: ctx.owner,
            },
        ),
    );
    plan.push(
        DelegatedCall::unsigned(
            Call::OpenTokenAccount {
                account: ctx.vault_usdc,
                mint: ctx.usdc_mint,
                authority: ctx.vault,
                payer: ctx.owner,
            },
        ),
    );
    assert(plan_view(plan@) =~= init_user_plan(*ctx, bump));
    plan
}

/// What the creation of a vault comes to: the error of the first failing
/// check or step, or the accounts after both steps.
pub open spec fn init_user_outcome(
    s: Map<Address, Account>,
    cfg: Config,
    signer: Address,
    ctx: InitializeUser,
) -> Result<Map<Address, Account>, Failure> {
    match ctx.validation(cfg, signer) {
        Err(e) => Err(Failure::Local(e)),
        Ok(bump) => run(s, cfg, signer, init_user_plan(ctx, bump), Seq::<Answer>::empty()),
    }
}

/// Creates the owner's vault. Either the vault and its custody account are
/// created or the ledger stays as it was.
pub fn init_user(ledger: &mut Ledger, cfg: &Config, signer: &Address, ctx: &InitializeUser) -> (r:
    Result<(), Failure>)
    ensures
        realizes(
            old(ledger)@,
            final(ledger)@,
            r,
            init_user_outcome(old(ledger)@, *cfg, *signer, *ctx),
        ),
{
    let bump = match ctx.validate(cfg, signer) {
        Ok(bump) => bump,
        Err(e) => {
            return Err(Failure::Local(e));
        },
    };
    let plan = init_user_handler(ctx, bump);
    ledger.execute(cfg, signer, &plan, &Vec::new())
}

/// A creation that succeeds was signed by the owner; it stores, at the
/// address derived from the owner, a record of the owner, the linked
/// account as given, and a nonce with which the owner derives that address;
/// it opens an empty stablecoin custody account under the vault's
/// authority; both at addresses that held no account before; and it
/// touches no other account.
pub proof fn lemma_init_user_effect(
    s: Map<Address, Account>,
    cfg: Config,
    signer: Address,
    ctx: InitializeUser,
)
    requires
        init_user_outcome(s, cfg, signer, ctx) is Ok,
    ensures
        ({
            let after = init_user_outcome(s, cfg, signer, ctx)->Ok_0;
            let nonce = vault_nonce(ctx.owner, cfg.program_id);
            &&& signer == ctx.owner
            &&& vault_address(ctx.owner@, cfg.program_id@) == Some(ctx.vault@)
            &&& derives_vault(ctx.owner@, nonce, cfg.program_id@, ctx.vault@)
            &&& !s.contains_key(ctx.vault)
            &&& !s.contains_key(ctx.vault_usdc)
            &&& vault_at(after, ctx.vault) == Some(new_vault_record(ctx, nonce))
            &&& backup_at(after, ctx.vault) is None
            &&& token_at(after, ctx.vault_usdc) == Some(
                TokenAccount { mint: cfg.usdc_mint, authority: ctx.vault, amount: 0 },
            )
            &&& forall|a: Address|
                a != ctx.vault && a != ctx.vault_usdc ==> after.contains_key(a) == s.contains_key(
                    a,
                ) && (s.contains_key(a) ==> after[a] == s[a])
        }),
{
    let nonce = vault_nonce(ctx.owner, cfg.program_id);
    let plan = init_user_plan(ctx, nonce);
    assert(plan.skip(0) =~= plan);
    let a0 = Seq::<Answer>::empty();
    lemma_run_from(s, cfg, signer, plan, a0, 0);
    let s1 = step(s, cfg, signer, plan[0], answer_to(plan[0].call, a0))->Ok_0;
    let a1 = answers_after(plan[0].call, a0);
    lemma_run_from(s1, cfg, signer, plan, a1, 1);
    let s2 = step(s1, cfg, signer, plan[1], answer_to(plan[1].call, a1))->Ok_0;
    let a2 = answers_after(plan[1].call, a1);
    lemma_run_from(s2, cfg, signer, plan, a2, 2);
    assert(is_canonical_bump(vault_seeds(ctx.owner@), cfg.program_id@, nonce));
    lemma_derive_then_authorize(ctx.owner, cfg.program_id, ctx.vault, nonce);
}

/// No vault is created for an owner while an account stands at the address
/// derived from that owner: whoever signs and whatever the other accounts,
/// the creation fails.
pub proof fn lemma_init_user_refused_when_taken(
    s: Map<Address, Account>,
    cfg: Config,
    signer: Address,
    ctx: InitializeUser,
    taken: Address,
)
    requires
        vault_address(ctx.owner@, cfg.program_id@) == Some(taken@),
        s.contains_key(taken),
    ensures
        init_user_outcome(s, cfg, signer, ctx) is Err,
{
    taken.lemma_view_injective(ctx.vault);
    if ctx.validation(cfg, signer) is Ok {
        let plan = init_user_plan(ctx, ctx.validation(cfg, signer)->Ok_0);
        assert(plan.skip(0) =~= plan);
        let a0 = Seq::<Answer>::empty();
    let a0 = Seq::<Answer>::empty();
        lemma_run_from(s, cfg, signer, plan, a0, 0);
    }
}

/// At most one vault is ever created for an owner: after a creation has
/// succeeded, every later creation for the same owner fails, whoever signs
/// it, whatever accounts it names, and whatever plans have run in between,
/// whatever the venue answered to them.
pub proof fn lemma_init_user_once(
    s: Map<Address, Account>,
    cfg: Config,
    signer: Address,
    ctx: InitializeUser,
    between_signer: Address,
    between: Seq<SignedCall>,
    between_answers: Seq<Answer>,
    again_signer: Address,
    again: InitializeUser,
)
    requires
        init_user_outcome(s, cfg, signer, ctx) is Ok,
        run(
            init_user_outcome(s, cfg, signer, ctx)->Ok_0,
            cfg,
            between_signer,
            between,
            between_answers,
        ) is Ok,
        again.owner == ctx.owner,
    ensures
        init_user_outcome(
            run(
                init_user_outcome(s, cfg, signer, ctx)->Ok_0,
                cfg,
                between_signer,
                between,
                between_answers,
            )->Ok_0,
            cfg,
            again_signer,
            again,
        ) is Err,
{
    lemma_init_user_effect(s, cfg, signer, ctx);
    let created = init_user_outcome(s, cfg, signer, ctx)->Ok_0;
    crate::semantics::lemma_run_keeps_vaults(
        created,
        cfg,
        between_signer,
        between,
        between_answers,
        ctx.vault,
    );
    let later = run(created, cfg, between_signer, between, between_answers)->Ok_0;
    lemma_init_user_refused_when_taken(later, cfg, again_signer, again, ctx.vault);
}

/// A creation that names another mint than the fixed stablecoin mint fails
/// with `InvalidMintAddress`.
pub proof fn lemma_init_user_mint_pinned(
    s: Map<Address, Account>,
    cfg: Config,
    signer: Address,
    ctx: InitializeUser,
)
    requires
        ctx.usdc_mint != cfg.usdc_mint,
    ensures
        init_user_outcome(s, cfg, signer, ctx) == Err::<Map<Address, Account>, Failure>(
            Failure::Local(ErrorCode::InvalidMintAddress),
        ),
{
}

} // verus!

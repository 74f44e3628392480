//! Beginning a swap: open the vault's two custody accounts and let the
//! venue begin a swap between them. Settling the swap is another
//! operation's work.

use vstd::prelude::*;
use crate::account::Account;
use crate::account::OpenSwap;
use crate::address::Address;
use crate::authority::authorize;
use crate::authority::derives_vault;
use crate::call::Answer;
use crate::call::Call;
use crate::call::DelegatedCall;
use crate::call::Principal;
use crate::call::SignedCall;
use crate::call::Swap;
use crate::call::plan_view;
use crate::call::signed_with;
use crate::constants::Config;
use crate::constants::DRIFT_MARKET_INDEX_SOL;
use crate::constants::DRIFT_MARKET_INDEX_USDC;
use crate::errors::ErrorCode;
use crate::errors::Failure;
use crate::instructions::checks::custody_seeds;
use crate::instructions::checks::spot_market_vault_seeds;
use crate::instructions::checks::stands_at;
use crate::instructions::checks::decide_vault;
use crate::instructions::checks::decide_venue_accounts;
use crate::instructions::checks::derive_addresses;
use crate::instructions::checks::is_expected;
use crate::instructions::checks::lemma_expected;
use crate::instructions::checks::lemma_vault_decision;
use crate::instructions::checks::lemma_venue_accounts_decision;
use crate::instructions::checks::vault_decision;
use crate::instructions::checks::venue_accounts_decision;
use crate::instructions::checks::Derived;
use crate::instructions::checks::vault_check;
use crate::instructions::checks::venue_accounts_check;
use crate::ledger::Ledger;
use crate::runtime::realizes;
use crate::semantics::answer_to;
use crate::semantics::answers_after;
use crate::semantics::lemma_run_from;
use crate::semantics::run;
use crate::semantics::step;
use crate::semantics::token_at;
use crate::semantics::vault_at;
use crate::semantics::venue_user_at;
use crate::state::Vault;

verus! {

/// The accounts of the beginning of a swap.
#[derive(Clone, Copy, Debug, PartialEq, Eq)]
pub struct BeginSwap {
    /// The vault that swaps.
    pub vault: Address,
    /// The vault's custody account of wrapped native currency: the leg in.
    pub vault_wsol: Address,
    /// The vault's custody account of stablecoin: the leg out.
    pub vault_usdc: Address,
    /// The vault's owner, who signs.
    pub owner: Address,
    /// The venue's state account.
    pub drift_state: Address,
    /// The venue's account handle of the vault.
    pub drift_user: Address,
    /// The venue's account-stats handle of the vault.
    pub drift_user_stats: Address,
    /// The venue's token vault of the wrapped-native market.
    pub in_spot_market_vault: Address,
    /// The venue's token vault of the stablecoin market.
    pub out_spot_market_vault: Address,
    /// Passed through to the venue.
    pub drift_signer: Address,
    /// The mint of the leg in.
    pub wsol_mint: Address,
    /// The mint of the leg out.
    pub usdc_mint: Address,
    /// Passed through to the venue.
    pub instructions: Address,
    /// Passed through to the venue.
    pub const_account: Address,
    /// Passed through to the venue.
    pub additional_account: Address,
    /// Passed through to the venue.
    pub spot_market_sol: Address,
    /// Passed through to the venue.
    pub spot_market_usdc: Address,
    /// The venue's program.
    pub drift_program: Address,
}

impl BeginSwap {
    /// The order of the checks on the accounts, given what the checks
    /// against derived addresses came to: the vault's record, or the code of
    /// the first check that fails. The two mints are checked before
    /// anything else; then the vault, the addresses of the two custody
    /// accounts, the venue's accounts, the addresses of the venue's two token
    /// vaults.
    pub open spec fn verdict(
        self,
        cfg: Config,
        vault: Result<Vault, ErrorCode>,
        leg_in: bool,
        leg_out: bool,
        venue: Option<ErrorCode>,
        market_in: bool,
        market_out: bool,
    ) -> Result<Vault, ErrorCode> {
        if self.wsol_mint != cfg.wsol_mint || self.usdc_mint != cfg.usdc_mint {
            Err(ErrorCode::InvalidMintAddress)
        } else if vault is Err {
            vault
        } else if !leg_in {
            Err(ErrorCode::InvalidAccountAddress)
        } else if !leg_out {
            Err(ErrorCode::InvalidAccountAddress)
        } else if venue is Some {
            Err(venue->Some_0)
        } else if !market_in {
            Err(ErrorCode::InvalidAccountAddress)
        } else if !market_out {
            Err(ErrorCode::InvalidAccountAddress)
        } else {
            vault
        }
    }

    /// What the checks on the accounts yield.
    pub open spec fn validation(
        self,
        s: Map<Address, Account>,
        cfg: Config,
        signer: Address,
    ) -> Result<Vault, ErrorCode> {
        self.verdict(
            cfg,
            vault_check(s, cfg, signer, self.vault, self.owner),
            stands_at(self.vault_wsol, custody_seeds(self.vault, self.wsol_mint), cfg.program_id),
            stands_at(self.vault_usdc, custody_seeds(self.vault, self.usdc_mint), cfg.program_id),
            venue_accounts_check(
                cfg,
                self.drift_program,
                self.vault,
                self.drift_state,
                self.drift_user,
                self.drift_user_stats,
            ),
            stands_at(self.in_spot_market_vault, spot_market_vault_seeds(DRIFT_MARKET_INDEX_SOL), self.drift_program),
            stands_at(self.out_spot_market_vault, spot_market_vault_seeds(DRIFT_MARKET_INDEX_USDC), self.drift_program),
        )
    }

    /// What the checks on the accounts yield, given the addresses derived
    /// for the accounts.
    pub open spec fn decision(
        self,
        s: Map<Address, Account>,
        cfg: Config,
        signer: Address,
        derived: Derived,
    ) -> Result<Vault, ErrorCode> {
        self.verdict(
            cfg,
            vault_decision(s, signer, self.vault, self.owner, derived.vault),
            derived.vault_wsol == Some(self.vault_wsol),
            derived.vault_usdc == Some(self.vault_usdc),
            venue_accounts_decision(
                cfg,
                self.drift_program,
                self.drift_state,
                self.drift_user,
                self.drift_user_stats,
                derived,
            ),
            derived.sol_market_vault == Some(self.in_spot_market_vault),
            derived.usdc_market_vault == Some(self.out_spot_market_vault),
        )
    }

    /// Checks the accounts against the ledger and the
    /// addresses derived for the accounts.
    pub fn decide(
        &self,
        ledger: &Ledger,
        cfg: &Config,
        signer: &Address,
        derived: &Derived,
    ) -> (r: Result<Vault, ErrorCode>)
        ensures
            r == self.decision(ledger@, *cfg, *signer, *derived),
    {
        if !(self.wsol_mint == cfg.wsol_mint) || !(self.usdc_mint == cfg.usdc_mint) {
            return Err(ErrorCode::InvalidMintAddress);
        }
        let record = match decide_vault(ledger, signer, &self.vault, &self.owner, &derived.vault) {
            Ok(record) => record,
            Err(e) => {
                return Err(e);
            },
        };
        if !is_expected(&derived.vault_wsol, &self.vault_wsol) {
            return Err(ErrorCode::InvalidAccountAddress);
        }
        if !is_expected(&derived.vault_usdc, &self.vault_usdc) {
            return Err(ErrorCode::InvalidAccountAddress);
        }
        match decide_venue_accounts(
            cfg,
            &self.drift_program,
            &self.drift_state,
            &self.drift_user,
            &self.drift_user_stats,
            derived,
        ) {
            Some(e) => {
                return Err(e);
            },
            None => {},
        }
        if !is_expected(&derived.sol_market_vault, &self.in_spot_market_vault) {
            return Err(ErrorCode::InvalidAccountAddress);
        }
        if !is_expected(&derived.usdc_market_vault, &self.out_spot_market_vault) {
            return Err(ErrorCode::InvalidAccountAddress);
        }
        Ok(record)
    }

    /// With the derived addresses of the vault, the checks yield what they
    /// yield by the derivation itself.
    pub proof fn lemma_decision(
        self,
        s: Map<Address, Account>,
        cfg: Config,
        signer: Address,
        derived: Derived,
    )
        requires
            derived.describes(s, cfg, self.vault, self.owner),
        ensures
            self.decision(s, cfg, signer, derived) == self.validation(s, cfg, signer),
    {
        lemma_vault_decision(s, cfg, signer, self.vault, self.owner, derived);
        lemma_expected(derived.vault_wsol, self.vault_wsol, custody_seeds(self.vault, cfg.wsol_mint), cfg.program_id);
        lemma_expected(derived.vault_usdc, self.vault_usdc, custody_seeds(self.vault, cfg.usdc_mint), cfg.program_id);
        lemma_venue_accounts_decision(
            s,
            cfg,
            self.drift_program,
            self.vault,
            self.owner,
            self.drift_state,
            self.drift_user,
            self.drift_user_stats,
            derived,
        );
        lemma_expected(derived.sol_market_vault, self.in_spot_market_vault, spot_market_vault_seeds(DRIFT_MARKET_INDEX_SOL), cfg.drift_program);
        lemma_expected(derived.usdc_market_vault, self.out_spot_market_vault, spot_market_vault_seeds(DRIFT_MARKET_INDEX_USDC), cfg.drift_program);
    }

    /// Checks the accounts against the ledger.
    pub fn validate(&self, ledger: &Ledger, cfg: &Config, signer: &Address) -> (r: Result<
        Vault,
        ErrorCode,
    >)
        ensures
            r == self.validation(ledger@, *cfg, *signer),
    {
        let derived = derive_addresses(ledger, cfg, &self.vault, &self.owner);
        proof {
            self.lemma_decision(ledger@, *cfg, *signer, derived);
        }
        self.decide(ledger, cfg, signer, &derived)
    }
}

/// The steps of the beginning of a swap: open the two custody accounts,
/// then one call to the venue under the vault's authority, from the
/// wrapped-native market into the stablecoin market.
pub open spec fn begin_swap_plan(ctx: BeginSwap, record: Vault, cfg: Config, amount_in: u64) -> Seq<SignedCall> {
    seq![
        SignedCall {
            call: Call::OpenTokenAccount {
                account: ctx.vault_wsol,
                mint: ctx.wsol_mint,
                authority: ctx.vault,
                payer: ctx.owner,
            },
            principal: None,
        },
        SignedCall {
            call: Call::OpenTokenAccount {
                account: ctx.vault_usdc,
                mint: ctx.usdc_mint,
                authority: ctx.vault,
                payer: ctx.owner,
            },
            principal: None,
        },
        SignedCall {
            call: Call::VenueBeginSwap {
                accounts: Swap {
                    state: ctx.drift_state,
                    user: ctx.drift_user,
                    user_stats: ctx.drift_user_stats,
                    authority: ctx.vault,
                    out_spot_market_vault: ctx.out_spot_market_vault,
                    in_spot_market_vault: ctx.in_spot_market_vault,
                    out_token_account: ctx.vault_usdc,
                    in_token_account: ctx.vault_wsol,
                    token_program: cfg.token_program,
                    drift_signer: ctx.drift_signer,
                    instructions: ctx.instructions,
                },
                remaining_accounts: [
                    ctx.const_account,
                    ctx.additional_account,
                    ctx.spot_market_usdc,
                    ctx.spot_market_sol,
                ],
                in_market_index: DRIFT_MARKET_INDEX_SOL,
                out_market_index: DRIFT_MARKET_INDEX_USDC,
                amount_in,
            },
            principal: Some(Principal {
        vault: ctx.vault,
        program_id: cfg.program_id,
        owner: record.owner,
        nonce: record.derivation_nonce,
    }),
        },
    ]
}

/// Plans the beginning of a swap for the vault whose record is given. The
/// plan is made exactly when the record's owner and nonce derive the
/// vault's address, and each signed step then
/// shows those as its seeds; otherwise `InvalidVaultAddress`.
pub fn begin_swap_handler(ctx: &BeginSwap, vault: &Vault, cfg: &Config, amount_in: u64) -> (r:
    Result<Vec<DelegatedCall>, ErrorCode>)
    ensures
        r is Ok <==> derives_vault(
            vault.owner@,
            vault.derivation_nonce,
            cfg.program_id@,
            ctx.vault@,
        ),
        r is Ok ==> plan_view(r->Ok_0@) == begin_swap_plan(*ctx, *vault, *cfg, amount_in),
        r is Ok ==> signed_with(r->Ok_0@, vault.owner, vault.derivation_nonce),
        r is Err ==> r->Err_0 == ErrorCode::InvalidVaultAddress,
{
    let capability = authorize(&ctx.vault, vault, &cfg.program_id)?;
    let mut plan: Vec<DelegatedCall> = Vec::new();
    plan.push(
        DelegatedCall::unsigned(
            Call::OpenTokenAccount {
                account: ctx.vault_wsol,
                mint: ctx.wsol_mint,
                authority: ctx.vault,
                payer: ctx.owner,
            },
        ),
    );
    plan.push(
        DelegatedCall::unsigned(
            Call::OpenTokenAccount {
                account: ctx.vault_usdc,
                mint: ctx.usdc_mint,
                authority: ctx.vault,
                payer: ctx.owner,
            },
        ),
    );
    plan.push(
        DelegatedCall::signed(
            Call::VenueBeginSwap {
                accounts: Swap {
                    state: ctx.drift_state,
                    user: ctx.drift_user,
                    user_stats: ctx.drift_user_stats,
                    authority: ctx.vault,
                    out_spot_market_vault: ctx.out_spot_market_vault,
                    in_spot_market_vault: ctx.in_spot_market_vault,
                    out_token_account: ctx.vault_usdc,
                    in_token_account: ctx.vault_wsol,
                    token_program: cfg.token_program,
                    drift_signer: ctx.drift_signer,
                    instructions: ctx.instructions,
                },
                remaining_accounts: [
                    ctx.const_account,
                    ctx.additional_account,
                    ctx.spot_market_usdc,
                    ctx.spot_market_sol,
                ],
                in_market_index: DRIFT_MARKET_INDEX_SOL,
                out_market_index: DRIFT_MARKET_INDEX_USDC,
                amount_in,
            },
            capability,
        ),
    );
    assert(plan_view(plan@) =~= begin_swap_plan(*ctx, *vault, *cfg, amount_in));
    Ok(plan)
}

/// What the beginning of a swap comes to: the error of the first failing
/// check or step, or the accounts after all its steps.
pub open spec fn begin_swap_outcome(
    s: Map<Address, Account>,
    cfg: Config,
    signer: Address,
    ctx: BeginSwap,
    amount_in: u64,
    answers: Seq<Answer>,
) -> Result<Map<Address, Account>, Failure> {
    match ctx.validation(s, cfg, signer) {
        Err(e) => Err(Failure::Local(e)),
        Ok(record) => run(
            s,
            cfg,
            signer,
            begin_swap_plan(ctx, record, cfg, amount_in),
            answers,
        ),
    }
}

/// Begins a swap of `amount_in` from the vault's wrapped native currency
/// into stablecoin. Either every step takes effect or the ledger stays as
/// it was.
pub fn begin_swap(
    ledger: &mut Ledger,
    cfg: &Config,
    signer: &Address,
    ctx: &BeginSwap,
    amount_in: u64,
    answers: &Vec<Answer>,
) -> (r: Result<(), Failure>)
    ensures
        realizes(
            old(ledger)@,
            final(ledger)@,
            r,
            begin_swap_outcome(old(ledger)@, *cfg, *signer, *ctx, amount_in, answers@),
        ),
{
    let record = match ctx.validate(ledger, cfg, signer) {
        Ok(record) => record,
        Err(e) => {
            return Err(Failure::Local(e));
        },
    };
    let plan = match begin_swap_handler(ctx, &record, cfg, amount_in) {
        Ok(plan) => plan,
        Err(e) => {
            return Err(Failure::Local(e));
        },
    };
    ledger.execute(cfg, signer, &plan, answers)
}

/// A swap that is begun leaves the two custody accounts open, empty and
/// under the vault's authority, notes the swap on the venue's handle
/// without changing the collateral it records, and touches no other
/// account.
pub proof fn lemma_begin_swap_effect(
    s: Map<Address, Account>,
    cfg: Config,
    signer: Address,
    ctx: BeginSwap,
    amount_in: u64,
    answers: Seq<Answer>,
)
    requires
        begin_swap_outcome(s, cfg, signer, ctx, amount_in, answers) is Ok,
    ensures
        ({
            let after = begin_swap_outcome(s, cfg, signer, ctx, amount_in, answers)->Ok_0;
            &&& token_at(after, ctx.vault_wsol) == Some(
                crate::account::TokenAccount {
                    mint: cfg.wsol_mint,
                    authority: ctx.vault,
                    amount: 0,
                },
            )
            &&& token_at(after, ctx.vault_usdc) == Some(
                crate::account::TokenAccount {
                    mint: cfg.usdc_mint,
                    authority: ctx.vault,
                    amount: 0,
                },
            )
            &&& venue_user_at(s, ctx.drift_user) is Some
            &&& venue_user_at(after, ctx.drift_user) == Some(
                crate::account::VenueUser {
                    open_swap: Some(
                        OpenSwap {
                            in_market_index: DRIFT_MARKET_INDEX_SOL,
                            out_market_index: DRIFT_MARKET_INDEX_USDC,
                            amount_in,
                        },
                    ),
                    ..venue_user_at(s, ctx.drift_user)->Some_0
                },
            )
            &&& forall|a: Address|
                a != ctx.vault_wsol && a != ctx.vault_usdc && a != ctx.drift_user
                    ==> after.contains_key(a) == s.contains_key(a) && (s.contains_key(a)
                    ==> after[a] == s[a])
        }),
{
    let plan = begin_swap_plan(ctx, ctx.validation(s, cfg, signer)->Ok_0, cfg, amount_in);
    assert(plan.skip(0) =~= plan);
    let a0 = answers;
    lemma_run_from(s, cfg, signer, plan, a0, 0);
    let s1 = step(s, cfg, signer, plan[0], answer_to(plan[0].call, a0))->Ok_0;
    let a1 = answers_after(plan[0].call, a0);
    lemma_run_from(s1, cfg, signer, plan, a1, 1);
    let s2 = step(s1, cfg, signer, plan[1], answer_to(plan[1].call, a1))->Ok_0;
    let a2 = answers_after(plan[1].call, a1);
    lemma_run_from(s2, cfg, signer, plan, a2, 2);
    let s3 = step(s2, cfg, signer, plan[2], answer_to(plan[2].call, a2))->Ok_0;
    let a3 = answers_after(plan[2].call, a2);
    lemma_run_from(s3, cfg, signer, plan, a3, 3);
}

/// A swap that names another mint than the fixed one for either leg fails
/// with `InvalidMintAddress`.
pub proof fn lemma_begin_swap_mint_pinned(
    s: Map<Address, Account>,
    cfg: Config,
    signer: Address,
    ctx: BeginSwap,
    amount_in: u64,
    answers: Seq<Answer>,
)
    requires
        ctx.wsol_mint != cfg.wsol_mint || ctx.usdc_mint != cfg.usdc_mint,
    ensures
        begin_swap_outcome(s, cfg, signer, ctx, amount_in, answers) == Err::<
            Map<Address, Account>,
            Failure,
        >(Failure::Local(ErrorCode::InvalidMintAddress)),
{
}

/// A swap is begun only when the signer is the owner that the vault
/// records.
pub proof fn lemma_begin_swap_owner_only(
    s: Map<Address, Account>,
    cfg: Config,
    signer: Address,
    ctx: BeginSwap,
    amount_in: u64,
    answers: Seq<Answer>,
)
    requires
        begin_swap_outcome(s, cfg, signer, ctx, amount_in, answers) is Ok,
    ensures
        vault_at(s, ctx.vault) is Some,
        vault_at(s, ctx.vault)->Some_0.owner == signer,
{
}

} // verus!

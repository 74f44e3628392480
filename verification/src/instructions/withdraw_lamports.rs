//! Withdrawing native collateral: have the venue pay wrapped native
//! currency into a fresh holding account, then close the holding account in
//! the owner's favour, which hands the owner the native currency.

use vstd::prelude::*;
use crate::account::Account;
use crate::address::Address;
use crate::authority::authorize;
use crate::authority::derives_vault;
use crate::call::Answer;
use crate::call::Call;
use crate::call::DelegatedCall;
use crate::call::Principal;
use crate::call::SignedCall;
use crate::call::Withdraw;
use crate::call::plan_view;
use crate::call::signed_with;
use crate::constants::Config;
use crate::constants::DRIFT_MARKET_INDEX_SOL;
use crate::errors::ErrorCode;
use crate::errors::Failure;
use crate::instructions::checks::custody_seeds;
use crate::instructions::checks::spot_market_vault_seeds;
use crate::instructions::checks::stands_at;
use crate::instructions::checks::decide_vault;
use crate::instructions::checks::decide_venue_accounts;
use crate::instructions::checks::derive_addresses;
use crate::instructions::checks::is_expected;
use crate::instructions::checks::lemma_expected;
use crate::instructions::checks::lemma_vault_decision;
use crate::instructions::checks::lemma_venue_accounts_decision;
use crate::instructions::checks::vault_decision;
use crate::instructions::checks::venue_accounts_decision;
use crate::instructions::checks::Derived;
use crate::instructions::checks::vault_check;
use crate::instructions::checks::venue_accounts_check;
use crate::ledger::Ledger;
use crate::runtime::realizes;
use crate::semantics::is_token_account;
use crate::semantics::lamports_at;
use crate::semantics::answer_to;
use crate::semantics::answers_after;
use crate::semantics::lemma_run_from;
use crate::semantics::run;
use crate::semantics::step;
use crate::semantics::vault_at;
use crate::semantics::venue_user_at;
use crate::state::Vault;

verus! {

/// The accounts of a withdrawal of native currency.
#[derive(Clone, Copy, Debug, PartialEq, Eq)]
pub struct WithdrawLamports {
    /// The vault that withdraws.
    pub vault: Address,
    /// The holding account, opened and closed by the operation.
    pub vault_wsol: Address,
    /// The vault's owner, who signs and receives the amount.
    pub owner: Address,
    /// The venue's state account.
    pub drift_state: Address,
    /// The venue's account handle of the vault.
    pub drift_user: Address,
    /// The venue's account-stats handle of the vault.
    pub drift_user_stats: Address,
    /// The venue's token vault of the wrapped-native market.
    pub spot_market_vault: Address,
    /// Passed through to the venue.
    pub drift_signer: Address,
    /// The mint of the holding account.
    pub wsol_mint: Address,
    /// The venue's program.
    pub drift_program: Address,
    /// Passed through to the venue.
    pub const_account: Address,
    /// Passed through to the venue.
    pub additional_account: Address,
    /// Passed through to the venue.
    pub spot_market_sol: Address,
    /// Passed through to the venue.
    pub spot_market_usdc: Address,
}

impl WithdrawLamports {
    /// The order of the checks on the accounts, given what the checks
    /// against derived addresses came to: the vault's record, or the code of
    /// the first check that fails. The mint is checked before anything
    /// else; then the vault, the holding account's address, the venue's
    /// accounts, the address of the venue's token vault.
    pub open spec fn verdict(
        self,
        cfg: Config,
        vault: Result<Vault, ErrorCode>,
        holding: bool,
        venue: Option<ErrorCode>,
        market: bool,
    ) -> Result<Vault, ErrorCode> {
        if self.wsol_mint != cfg.wsol_mint {
            Err(ErrorCode::InvalidMintAddress)
        } else if vault is Err {
            vault
        } else if !holding {
            Err(ErrorCode::InvalidAccountAddress)
        } else if venue is Some {
            Err(venue->Some_0)
        } else if !market {
            Err(ErrorCode::InvalidAccountAddress)
        } else {
            vault
        }
    }

    /// What the checks on the accounts yield.
    pub open spec fn validation(
        self,
        s: Map<Address, Account>,
        cfg: Config,
        signer: Address,
    ) -> Result<Vault, ErrorCode> {
        self.verdict(
            cfg,
            vault_check(s, cfg, signer, self.vault, self.owner),
            stands_at(self.vault_wsol, custody_seeds(self.vault, self.wsol_mint), cfg.program_id),
            venue_accounts_check(
                cfg,
                self.drift_program,
                self.vault,
                self.drift_state,
                self.drift_user,
                self.drift_user_stats,
            ),
            stands_at(self.spot_market_vault, spot_market_vault_seeds(DRIFT_MARKET_INDEX_SOL), self.drift_program),
        )
    }

    /// What the checks on the accounts yield, given the addresses derived
    /// for the accounts.
    pub open spec fn decision(
        self,
        s: Map<Address, Account>,
        cfg: Config,
        signer: Address,
        derived: Derived,
    ) -> Result<Vault, ErrorCode> {
        self.verdict(
            cfg,
            vault_decision(s, signer, self.vault, self.owner, derived.vault),
            derived.vault_wsol == Some(self.vault_wsol),
            venue_accounts_decision(
                cfg,
                self.drift_program,
                self.drift_state,
                self.drift_user,
                self.drift_user_stats,
                derived,
            ),
            derived.sol_market_vault == Some(self.spot_market_vault),
        )
    }

    /// Checks the accounts against the ledger and the
    /// addresses derived for the accounts.
    pub fn decide(
        &self,
        ledger: &Ledger,
        cfg: &Config,
        signer: &Address,
        derived: &Derived,
    ) -> (r: Result<Vault, ErrorCode>)
        ensures
            r == self.decision(ledger@, *cfg, *signer, *derived),
    {
        if !(self.wsol_mint == cfg.wsol_mint) {
            return Err(ErrorCode::InvalidMintAddress);
        }
        let record = match decide_vault(ledger, signer, &self.vault, &self.owner, &derived.vault) {
            Ok(record) => record,
            Err(e) => {
                return Err(e);
            },
        };
        if !is_expected(&derived.vault_wsol, &self.vault_wsol) {
            return Err(ErrorCode::InvalidAccountAddress);
        }
        match decide_venue_accounts(
            cfg,
            &self.drift_program,
            &self.drift_state,
            &self.drift_user,
            &self.drift_user_stats,
            derived,
        ) {
            Some(e) => {
                return Err(e);
            },
            None => {},
        }
        if !is_expected(&derived.sol_market_vault, &self.spot_market_vault) {
            return Err(ErrorCode::InvalidAccountAddress);
        }
        Ok(record)
    }

    /// With the derived addresses of the vault, the checks yield what they
    /// yield by the derivation itself.
    pub proof fn lemma_decision(
        self,
        s: Map<Address, Account>,
        cfg: Config,
        signer: Address,
        derived: Derived,
    )
        requires
            derived.describes(s, cfg, self.vault, self.owner),
        ensures
            self.decision(s, cfg, signer, derived) == self.validation(s, cfg, signer),
    {
        lemma_vault_decision(s, cfg, signer, self.vault, self.owner, derived);
        lemma_expected(derived.vault_wsol, self.vault_wsol, custody_seeds(self.vault, cfg.wsol_mint), cfg.program_id);
        lemma_venue_accounts_decision(
            s,
            cfg,
            self.drift_program,
            self.vault,
            self.owner,
            self.drift_state,
            self.drift_user,
            self.drift_user_stats,
            derived,
        );
        lemma_expected(derived.sol_market_vault, self.spot_market_vault, spot_market_vault_seeds(DRIFT_MARKET_INDEX_SOL), cfg.drift_program);
    }

    /// Checks the accounts against the ledger.
    pub fn validate(&self, ledger: &Ledger, cfg: &Config, signer: &Address) -> (r: Result<
        Vault,
        ErrorCode,
    >)
        ensures
            r == self.validation(ledger@, *cfg, *signer),
    {
        let derived = derive_addresses(ledger, cfg, &self.vault, &self.owner);
        proof {
            self.lemma_decision(ledger@, *cfg, *signer, derived);
        }
        self.decide(ledger, cfg, signer, &derived)
    }
}

/// The steps of a withdrawal of native currency: open the holding account,
/// have the venue pay the amount into it, close it in the owner's favour.
pub open spec fn withdraw_lamports_plan(
    ctx: WithdrawLamports,
    record: Vault,
    cfg: Config,
    amount: u64,
    reduce_only: bool,
) -> Seq<SignedCall> {
    let vault = Some(Principal {
        vault: ctx.vault,
        program_id: cfg.program_id,
        owner: record.owner,
        nonce: record.derivation_nonce,
    });
    seq![
        SignedCall {
            call: Call::OpenTokenAccount {
                account: ctx.vault_wsol,
                mint: ctx.wsol_mint,
                authority: ctx.vault,
                payer: ctx.owner,
            },
            principal: None,
        },
        SignedCall {
            call: Call::VenueWithdraw {
                accounts: Withdraw {
                    state: ctx.drift_state,
                    user: ctx.drift_user,
                    user_stats: ctx.drift_user_stats,
                    authority: ctx.vault,
                    spot_market_vault: ctx.spot_market_vault,
                    drift_signer: ctx.drift_signer,
                    user_token_account: ctx.vault_wsol,
                    token_program: cfg.token_program,
                },
                remaining_accounts: [
                    ctx.const_account,
                    ctx.additional_account,
                    ctx.spot_market_sol,
                    ctx.spot_market_usdc,
                ],
                market_index: DRIFT_MARKET_INDEX_SOL,
                amount,
                reduce_only,
            },
            principal: vault,
        },
        SignedCall {
            call: Call::CloseAccount {
                account: ctx.vault_wsol,
                destination: ctx.owner,
                authority: ctx.vault,
            },
            principal: vault,
        },
    ]
}

/// Plans a withdrawal of native currency for the vault whose record is
/// given. The plan is made exactly when the record's owner and nonce derive
/// the vault's address, and each signed step then
/// shows those as its seeds; otherwise `InvalidVaultAddress`.
pub fn withdraw_lamports_handler(
    ctx: &WithdrawLamports,
    vault: &Vault,
    cfg: &Config,
    amount: u64,
    reduce_only: bool,
) -> (r: Result<Vec<DelegatedCall>, ErrorCode>)
    ensures
        r is Ok <==> derives_vault(
            vault.owner@,
            vault.derivation_nonce,
            cfg.program_id@,
            ctx.vault@,
        ),
        r is Ok ==> plan_view(r->Ok_0@) == withdraw_lamports_plan(*ctx, *vault, *cfg, amount, reduce_only),
        r is Ok ==> signed_with(r->Ok_0@, vault.owner, vault.derivation_nonce),
        r is Err ==> r->Err_0 == ErrorCode::InvalidVaultAddress,
{
    let for_withdraw = authorize(&ctx.vault, vault, &cfg.program_id)?;
    let for_close = authorize(&ctx.vault, vault, &cfg.program_id)?;
    let mut plan: Vec<DelegatedCall> = Vec::new();
    plan.push(
        DelegatedCall::unsigned(
            Call::OpenTokenAccount {
                account: ctx.vault_wsol,
                mint: ctx.wsol_mint,
                authority: ctx.vault,
                payer: ctx.owner,
            },
        ),
    );
    plan.push(
        DelegatedCall::signed(
            Call::VenueWithdraw {
                accounts: Withdraw {
                    state: ctx.drift_state,
                    user: ctx.drift_user,
                    user_stats: ctx.drift_user_stats,
                    authority: ctx.vault,
                    spot_market_vault: ctx.spot_market_vault,
                    drift_signer: ctx.drift_signer,
                    user_token_account: ctx.vault_wsol,
                    token_program: cfg.token_program,
                },
                remaining_accounts: [
                    ctx.const_account,
                    ctx.additional_account,
                    ctx.spot_market_sol,
                    ctx.spot_market_usdc,
                ],
                market_index: DRIFT_MARKET_INDEX_SOL,
                amount,
                reduce_only,
            },
            for_withdraw,
        ),
    );
    plan.push(
        DelegatedCall::signed(
            Call::CloseAccount {
                account: ctx.vault_wsol,
                destination: ctx.owner,
                authority: ctx.vault,
            },
            for_close,
        ),
    );
    assert(plan_view(plan@) =~= withdraw_lamports_plan(*ctx, *vault, *cfg, amount, reduce_only));
    Ok(plan)
}

/// What a withdrawal of native currency comes to: the error of the first
/// failing check or step, or the accounts after all its steps.
pub open spec fn withdraw_lamports_outcome(
    s: Map<Address, Account>,
    cfg: Config,
    signer: Address,
    ctx: WithdrawLamports,
    amount: u64,
    reduce_only: bool,
    answers: Seq<Answer>,
) -> Result<Map<Address, Account>, Failure> {
    match ctx.validation(s, cfg, signer) {
        Err(e) => Err(Failure::Local(e)),
        Ok(record) => run(
            s,
            cfg,
            signer,
            withdraw_lamports_plan(ctx, record, cfg, amount, reduce_only),
            answers,
        ),
    }
}

/// Withdraws `amount` of the vault's native collateral to the owner.
/// Either every step takes effect or the ledger stays as it was.
pub fn withdraw_lamports(
    ledger: &mut Ledger,
    cfg: &Config,
    signer: &Address,
    ctx: &WithdrawLamports,
    amount: u64,
    reduce_only: bool,
    answers: &Vec<Answer>,
) -> (r: Result<(), Failure>)
    ensures
        realizes(
            old(ledger)@,
            final(ledger)@,
            r,
            withdraw_lamports_outcome(old(ledger)@, *cfg, *signer, *ctx, amount, reduce_only, answers@),
        ),
{
    let record = match ctx.validate(ledger, cfg, signer) {
        Ok(record) => record,
        Err(e) => {
            return Err(Failure::Local(e));
        },
    };
    let plan = match withdraw_lamports_handler(ctx, &record, cfg, amount, reduce_only) {
        Ok(plan) => plan,
        Err(e) => {
            return Err(Failure::Local(e));
        },
    };
    ledger.execute(cfg, signer, &plan, answers)
}

/// A withdrawal that succeeds takes exactly `amount` from the collateral
/// that the venue records for the vault in the wrapped-native market, adds
/// exactly `amount` to the owner's native balance, leaves the holding
/// account closed and no token account that was not there before, and
/// touches no other account.
pub proof fn lemma_withdraw_lamports_effect(
    s: Map<Address, Account>,
    cfg: Config,
    signer: Address,
    ctx: WithdrawLamports,
    amount: u64,
    reduce_only: bool,
    answers: Seq<Answer>,
)
    requires
        withdraw_lamports_outcome(s, cfg, signer, ctx, amount, reduce_only, answers) is Ok,
    ensures
        ({
            let after = withdraw_lamports_outcome(s, cfg, signer, ctx, amount, reduce_only, answers)->Ok_0;
            &&& lamports_at(after, ctx.owner) == lamports_at(s, ctx.owner) + amount
            &&& venue_user_at(s, ctx.drift_user) is Some
            &&& venue_user_at(after, ctx.drift_user) is Some
            &&& venue_user_at(after, ctx.drift_user)->Some_0.sol_collateral == venue_user_at(
                s,
                ctx.drift_user,
            )->Some_0.sol_collateral - amount
            &&& venue_user_at(after, ctx.drift_user)->Some_0.usdc_collateral == venue_user_at(
                s,
                ctx.drift_user,
            )->Some_0.usdc_collateral
            &&& !after.contains_key(ctx.vault_wsol)
            &&& forall|a: Address| is_token_account(after, a) ==> is_token_account(s, a)
            &&& forall|a: Address|
                a != ctx.owner && a != ctx.drift_user ==> after.contains_key(a) == s.contains_key(
                    a,
                ) && (s.contains_key(a) ==> after[a] == s[a])
        }),
{
    let plan = withdraw_lamports_plan(ctx, ctx.validation(s, cfg, signer)->Ok_0, cfg, amount, reduce_only);
    assert(plan.skip(0) =~= plan);
    let a0 = answers;
    lemma_run_from(s, cfg, signer, plan, a0, 0);
    let s1 = step(s, cfg, signer, plan[0], answer_to(plan[0].call, a0))->Ok_0;
    let a1 = answers_after(plan[0].call, a0);
    lemma_run_from(s1, cfg, signer, plan, a1, 1);
    let s2 = step(s1, cfg, signer, plan[1], answer_to(plan[1].call, a1))->Ok_0;
    let a2 = answers_after(plan[1].call, a1);
    lemma_run_from(s2, cfg, signer, plan, a2, 2);
    let s3 = step(s2, cfg, signer, plan[2], answer_to(plan[2].call, a2))->Ok_0;
    let a3 = answers_after(plan[2].call, a2);
    lemma_run_from(s3, cfg, signer, plan, a3, 3);
}

/// A withdrawal that names another mint than the fixed wrapped-native mint
/// fails with `InvalidMintAddress`.
pub proof fn lemma_withdraw_lamports_mint_pinned(
    s: Map<Address, Account>,
    cfg: Config,
    signer: Address,
    ctx: WithdrawLamports,
    amount: u64,
    reduce_only: bool,
    answers: Seq<Answer>,
)
    requires
        ctx.wsol_mint != cfg.wsol_mint,
    ensures
        withdraw_lamports_outcome(s, cfg, signer, ctx, amount, reduce_only, answers) == Err::<
            Map<Address, Account>,
            Failure,
        >(Failure::Local(ErrorCode::InvalidMintAddress)),
{
}

/// A withdrawal succeeds only when the signer is the owner that the vault
/// records.
pub proof fn lemma_withdraw_lamports_owner_only(
    s: Map<Address, Account>,
    cfg: Config,
    signer: Address,
    ctx: WithdrawLamports,
    amount: u64,
    reduce_only: bool,
    answers: Seq<Answer>,
)
    requires
        withdraw_lamports_outcome(s, cfg, signer, ctx, amount, reduce_only, answers) is Ok,
    ensures
        vault_at(s, ctx.vault) is Some,
        vault_at(s, ctx.vault)->Some_0.owner == signer,
{
}

} // verus!

//! The delegated calls an operation issues: which program is asked to do
//! what, on which accounts, and under whose authority.

use vstd::prelude::*;
use crate::address::Address;
use crate::authority::Capability;
use crate::pda::u16_le_bytes;
use crate::state::Vault;

verus! {

/// Accounts of the venue's deposit entry point, by role.
#[derive(Clone, Copy, Debug, PartialEq, Eq)]
pub struct Deposit {
    pub state: Address,
    pub user: Address,
    pub user_stats: Address,
    pub authority: Address,
    pub spot_market_vault: Address,
    pub user_token_account: Address,
    pub token_program: Address,
}

/// Accounts of the venue's withdraw entry point, by role.
#[derive(Clone, Copy, Debug, PartialEq, Eq)]
pub struct Withdraw {
    pub state: Address,
    pub user: Address,
    pub user_stats: Address,
    pub authority: Address,
    pub spot_market_vault: Address,
    pub drift_signer: Address,
    pub user_token_account: Address,
    pub token_program: Address,
}

/// Accounts of the venue's swap-initiation entry point, by role.
#[derive(Clone, Copy, Debug, PartialEq, Eq)]
pub struct Swap {
    pub state: Address,
    pub user: Address,
    pub user_stats: Address,
    pub authority: Address,
    pub out_spot_market_vault: Address,
    pub in_spot_market_vault: Address,
    pub out_token_account: Address,
    pub in_token_account: Address,
    pub token_program: Address,
    pub drift_signer: Address,
    pub instructions: Address,
}

/// Accounts of the venue's entry point that creates an account-stats handle.
#[derive(Clone, Copy, Debug, PartialEq, Eq)]
pub struct InitializeUserStats {
    pub user_stats: Address,
    pub state: Address,
    pub authority: Address,
    pub payer: Address,
    pub system_program: Address,
}

/// Accounts of the venue's entry point that creates an account handle.
#[derive(Clone, Copy, Debug, PartialEq, Eq)]
pub struct InitializeUser {
    pub user: Address,
    pub user_stats: Address,
    pub state: Address,
    pub authority: Address,
    pub payer: Address,
    pub system_program: Address,
}

/// Accounts of the venue's entry point that destroys an authority's handles.
#[derive(Clone, Copy, Debug, PartialEq, Eq)]
pub struct DeleteUser {
    pub user: Address,
    pub user_stats: Address,
    pub state: Address,
    pub authority: Address,
}

/// One step of an operation.
#[allow(inconsistent_fields)]
#[derive(Clone, Copy, Debug, PartialEq, Eq)]
pub enum Call {
    /// Stores a new vault record at `vault`, paid for by `payer`.
    CreateVault { vault: Address, record: Vault, payer: Address },
    /// Opens an empty token account of `mint` under `authority`.
    OpenTokenAccount { account: Address, mint: Address, authority: Address, payer: Address },
    /// Moves native currency between two accounts; `from` signs.
    Transfer { from: Address, to: Address, amount: u64 },
    /// Makes a wrapped-native account's token balance show the native
    /// currency it holds.
    SyncNative { account: Address },
    /// Moves tokens between two accounts of one mint; `authority` signs.
    TokenTransfer { from: Address, to: Address, authority: Address, amount: u64 },
    /// Closes a token account and hands what native currency it holds to
    /// `destination`; `authority` signs.
    CloseAccount { account: Address, destination: Address, authority: Address },
    /// The venue's deposit entry point.
    VenueDeposit {
        accounts: Deposit,
        remaining_accounts: [Address; 2],
        market_index: u16,
        amount: u64,
        reduce_only: bool,
    },
    /// The venue's withdraw entry point.
    VenueWithdraw {
        accounts: Withdraw,
        remaining_accounts: [Address; 4],
        market_index: u16,
        amount: u64,
        reduce_only: bool,
    },
    /// The venue's swap-initiation entry point.
    VenueBeginSwap {
        accounts: Swap,
        remaining_accounts: [Address; 4],
        in_market_index: u16,
        out_market_index: u16,
        amount_in: u64,
    },
    /// The venue's entry point that creates an account-stats handle.
    VenueInitializeUserStats { accounts: InitializeUserStats },
    /// The venue's entry point that creates an account handle.
    VenueInitializeUser { accounts: InitializeUser, sub_account_id: u16, name: [u8; 32] },
    /// The venue's entry point that destroys an authority's handles.
    VenueDeleteUser { accounts: DeleteUser },
    /// Moves native currency out of a vault's own balance.
    DebitVault { vault: Address, receiver: Address, amount: u64 },
}

/// The eight bytes of an amount, low byte first.
pub open spec fn u64_le_bytes(x: u64) -> Seq<u8> {
    seq![
        (x % 256) as u8,
        (x / 0x100 % 256) as u8,
        (x / 0x1_0000 % 256) as u8,
        (x / 0x100_0000 % 256) as u8,
        (x / 0x1_0000_0000 % 256) as u8,
        (x / 0x100_0000_0000 % 256) as u8,
        (x / 0x1_0000_0000_0000 % 256) as u8,
        (x / 0x100_0000_0000_0000 % 256) as u8,
    ]
}

/// The one byte of a flag.
pub open spec fn bool_byte(b: bool) -> Seq<u8> {
    seq![if b { 1u8 } else { 0u8 }]
}

fn push_u64_le(out: &mut Vec<u8>, x: u64)
    ensures
        final(out)@ == old(out)@ + u64_le_bytes(x),
{
    out.push((x % 256) as u8);
    out.push((x / 0x100 % 256) as u8);
    out.push((x / 0x1_0000 % 256) as u8);
    out.push((x / 0x100_0000 % 256) as u8);
    out.push((x / 0x1_0000_0000 % 256) as u8);
    out.push((x / 0x100_0000_0000 % 256) as u8);
    out.push((x / 0x1_0000_0000_0000 % 256) as u8);
    out.push((x / 0x100_0000_0000_0000 % 256) as u8);
    assert(out@ =~= old(out)@ + u64_le_bytes(x));
}

fn push_u16_le(out: &mut Vec<u8>, x: u16)
    ensures
        final(out)@ == old(out)@ + u16_le_bytes(x),
{
    out.push((x % 256) as u8);
    out.push((x / 256) as u8);
    assert(out@ =~= old(out)@ + u16_le_bytes(x));
}

fn push_bool(out: &mut Vec<u8>, b: bool)
    ensures
        final(out)@ == old(out)@ + bool_byte(b),
{
    out.push(if b { 1u8 } else { 0u8 });
    assert(out@ =~= old(out)@ + bool_byte(b));
}

impl Call {
    /// The accounts a step is issued with, in the order its program takes
    /// them: first those with a role, then those passed through.
    pub open spec fn spec_accounts(self) -> Seq<Address> {
        match self {
            Call::CreateVault { vault, record, payer } => seq![vault, payer],
            Call::OpenTokenAccount { account, mint, authority, payer } => seq![
                account,
                mint,
                authority,
                payer,
            ],
            Call::Transfer { from, to, amount } => seq![from, to],
            Call::SyncNative { account } => seq![account],
            Call::TokenTransfer { from, to, authority, amount } => seq![from, to, authority],
            Call::CloseAccount { account, destination, authority } => seq![
                account,
                destination,
                authority,
            ],
            Call::VenueDeposit {
                accounts,
                remaining_accounts,
                market_index,
                amount,
                reduce_only,
            } => seq![
                accounts.state,
                accounts.user,
                accounts.user_stats,
                accounts.authority,
                accounts.spot_market_vault,
                accounts.user_token_account,
                accounts.token_program,
            ] + remaining_accounts@,
            Call::VenueWithdraw {
                accounts,
                remaining_accounts,
                market_index,
                amount,
                reduce_only,
            } => seq![
                accounts.state,
                accounts.user,
                accounts.user_stats,
                accounts.authority,
                accounts.spot_market_vault,
                accounts.drift_signer,
                accounts.user_token_account,
                accounts.token_program,
            ] + remaining_accounts@,
            Call::VenueBeginSwap {
                accounts,
                remaining_accounts,
                in_market_index,
                out_market_index,
                amount_in,
            } => seq![
                accounts.state,
                accounts.user,
                accounts.user_stats,
                accounts.authority,
                accounts.out_spot_market_vault,
                accounts.in_spot_market_vault,
                accounts.out_token_account,
                accounts.in_token_account,
                accounts.token_program,
                accounts.drift_signer,
                accounts.instructions,
            ] + remaining_accounts@,
            Call::VenueInitializeUserStats { accounts } => seq![
                accounts.user_stats,
                accounts.state,
                accounts.authority,
                accounts.payer,
                accounts.system_program,
            ],
            Call::VenueInitializeUser { accounts, sub_account_id, name } => seq![
                accounts.user,
                accounts.user_stats,
                accounts.state,
                accounts.authority,
                accounts.payer,
                accounts.system_program,
            ],
            Call::VenueDeleteUser { accounts } => seq![
                accounts.user,
                accounts.user_stats,
                accounts.state,
                accounts.authority,
            ],
            Call::DebitVault { vault, receiver, amount } => seq![vault, receiver],
        }
    }

    /// The accounts a step is issued with, in the order its program takes
    /// them.
    pub fn accounts(&self) -> (r: Vec<Address>)
        ensures
            r@ == self.spec_accounts(),
    {
        let mut out: Vec<Address> = Vec::new();
        match self {
            Call::CreateVault { vault, record, payer } => {
                out.push(*vault);
                out.push(*payer);
            },
            Call::OpenTokenAccount { account, mint, authority, payer } => {
                out.push(*account);
                out.push(*mint);
                out.push(*authority);
                out.push(*payer);
            },
            Call::Transfer { from, to, amount } => {
                out.push(*from);
                out.push(*to);
            },
            Call::SyncNative { account } => {
                out.push(*account);
            },
            Call::TokenTransfer { from, to, authority, amount } => {
                out.push(*from);
                out.push(*to);
                out.push(*authority);
            },
            Call::CloseAccount { account, destination, authority } => {
                out.push(*account);
                out.push(*destination);
                out.push(*authority);
            },
            Call::VenueDeposit {
                accounts,
                remaining_accounts,
                market_index,
                amount,
                reduce_only,
            } => {
                out.push(accounts.state);
                out.push(accounts.user);
                out.push(accounts.user_stats);
                out.push(accounts.authority);
                out.push(accounts.spot_market_vault);
                out.push(accounts.user_token_account);
                out.push(accounts.token_program);
                out.push(remaining_accounts[0]);
                out.push(remaining_accounts[1]);
            },
            Call::VenueWithdraw {
                accounts,
                remaining_accounts,
                market_index,
                amount,
                reduce_only,
            } => {
                out.push(accounts.state);
                out.push(accounts.user);
                out.push(accounts.user_stats);
                out.push(accounts.authority);
                out.push(accounts.spot_market_vault);
                out.push(accounts.drift_signer);
                out.push(accounts.user_token_account);
                out.push(accounts.token_program);
                out.push(remaining_accounts[0]);
                out.push(remaining_accounts[1]);
                out.push(remaining_accounts[2]);
                out.push(remaining_accounts[3]);
            },
            Call::VenueBeginSwap {
                accounts,
                remaining_accounts,
                in_market_index,
                out_market_index,
                amount_in,
            } => {
                out.push(accounts.state);
                out.push(accounts.user);
                out.push(accounts.user_stats);
                out.push(accounts.authority);
                out.push(accounts.out_spot_market_vault);
                out.push(accounts.in_spot_market_vault);
                out.push(accounts.out_token_account);
                out.push(accounts.in_token_account);
                out.push(accounts.token_program);
                out.push(accounts.drift_signer);
                out.push(accounts.instructions);
                out.push(remaining_accounts[0]);
                out.push(remaining_accounts[1]);
                out.push(remaining_accounts[2]);
                out.push(remaining_accounts[3]);
            },
            Call::VenueInitializeUserStats { accounts } => {
                out.push(accounts.user_stats);
                out.push(accounts.state);
                out.push(accounts.authority);
                out.push(accounts.payer);
                out.push(accounts.system_program);
            },
            Call::VenueInitializeUser { accounts, sub_account_id, name } => {
                out.push(accounts.user);
                out.push(accounts.user_stats);
                out.push(accounts.state);
                out.push(accounts.authority);
                out.push(accounts.payer);
                out.push(accounts.system_program);
            },
            Call::VenueDeleteUser { accounts } => {
                out.push(accounts.user);
                out.push(accounts.user_stats);
                out.push(accounts.state);
                out.push(accounts.authority);
            },
            Call::DebitVault { vault, receiver, amount } => {
                out.push(*vault);
                out.push(*receiver);
            },
        }
        assert(out@ =~= self.spec_accounts());
        out
    }

    /// Whether the step is a call into the venue.
    pub open spec fn spec_is_venue_call(&self) -> bool {
        match self {
            Call::VenueDeposit { .. } => true,
            Call::VenueWithdraw { .. } => true,
            Call::VenueBeginSwap { .. } => true,
            Call::VenueInitializeUserStats { .. } => true,
            Call::VenueInitializeUser { .. } => true,
            Call::VenueDeleteUser { .. } => true,
            _ => false,
        }
    }

    /// Whether the step is a call into the venue.
    #[verifier::when_used_as_spec(spec_is_venue_call)]
    pub fn is_venue_call(&self) -> (r: bool)
        ensures
            r == self.spec_is_venue_call(),
    {
        match self {
            Call::VenueDeposit { .. } => true,
            Call::VenueWithdraw { .. } => true,
            Call::VenueBeginSwap { .. } => true,
            Call::VenueInitializeUserStats { .. } => true,
            Call::VenueInitializeUser { .. } => true,
            Call::VenueDeleteUser { .. } => true,
            _ => false,
        }
    }

    /// The name of the venue's entry point that a step calls; empty for a
    /// step that is no call into the venue.
    pub fn entry_point(&self) -> (r: &'static str)
        ensures
            r@ == (match *self {
                Call::VenueDeposit { .. } => "deposit"@,
                Call::VenueWithdraw { .. } => "withdraw"@,
                Call::VenueBeginSwap { .. } => "begin_swap"@,
                Call::VenueInitializeUserStats { .. } => "initialize_user_stats"@,
                Call::VenueInitializeUser { .. } => "initialize_user"@,
                Call::VenueDeleteUser { .. } => "delete_user"@,
                _ => ""@,
            }),
    {
        match self {
            Call::VenueDeposit { .. } => "deposit",
            Call::VenueWithdraw { .. } => "withdraw",
            Call::VenueBeginSwap { .. } => "begin_swap",
            Call::VenueInitializeUserStats { .. } => "initialize_user_stats",
            Call::VenueInitializeUser { .. } => "initialize_user",
            Call::VenueDeleteUser { .. } => "delete_user",
            _ => "",
        }
    }

    /// The arguments of a call into the venue as the bytes it takes them
    /// in: each in turn, integers low byte first, a flag as one byte. A
    /// step that is no call into the venue has none.
    pub open spec fn spec_arguments(self) -> Seq<u8> {
        match self {
            Call::VenueDeposit {
                accounts,
                remaining_accounts,
                market_index,
                amount,
                reduce_only,
            } => u16_le_bytes(market_index) + u64_le_bytes(amount) + bool_byte(reduce_only),
            Call::VenueWithdraw {
                accounts,
                remaining_accounts,
                market_index,
                amount,
                reduce_only,
            } => u16_le_bytes(market_index) + u64_le_bytes(amount) + bool_byte(reduce_only),
            Call::VenueBeginSwap {
                accounts,
                remaining_accounts,
                in_market_index,
                out_market_index,
                amount_in,
            } => u16_le_bytes(in_market_index) + u16_le_bytes(out_market_index) + u64_le_bytes(
                amount_in,
            ),
            Call::VenueInitializeUser { accounts, sub_account_id, name } => u16_le_bytes(
                sub_account_id,
            ) + name@,
            _ => Seq::<u8>::empty(),
        }
    }

    /// The arguments of a call into the venue as the bytes it takes them
    /// in.
    pub fn arguments(&self) -> (r: Vec<u8>)
        ensures
            r@ == self.spec_arguments(),
    {
        let mut out: Vec<u8> = Vec::new();
        match self {
            Call::VenueDeposit {
                accounts,
                remaining_accounts,
                market_index,
                amount,
                reduce_only,
            } => {
                push_u16_le(&mut out, *market_index);
                push_u64_le(&mut out, *amount);
                push_bool(&mut out, *reduce_only);
            },
            Call::VenueWithdraw {
                accounts,
                remaining_accounts,
                market_index,
                amount,
                reduce_only,
            } => {
                push_u16_le(&mut out, *market_index);
                push_u64_le(&mut out, *amount);
                push_bool(&mut out, *reduce_only);
            },
            Call::VenueBeginSwap {
                accounts,
                remaining_accounts,
                in_market_index,
                out_market_index,
                amount_in,
            } => {
                push_u16_le(&mut out, *in_market_index);
                push_u16_le(&mut out, *out_market_index);
                push_u64_le(&mut out, *amount_in);
            },
            Call::VenueInitializeUser { accounts, sub_account_id, name } => {
                push_u16_le(&mut out, *sub_account_id);
                let mut i: usize = 0;
                while i < 32
                    invariant
                        i <= 32,
                        out@ == u16_le_bytes(*sub_account_id) + name@.subrange(0, i as int),
                    decreases 32 - i,
                {
                    out.push(name[i]);
                    i += 1;
                }
                assert(name@.subrange(0, 32) =~= name@);
            },
            _ => {},
        }
        assert(out@ =~= self.spec_arguments());
        out
    }
}

/// What the venue answers to one call made to it. Why it refuses is its
/// own affair; an operation only passes the code on.
#[derive(Clone, Copy, Debug, PartialEq, Eq, Structural)]
pub enum Answer {
    /// The venue goes on with the call.
    Accept,
    /// The venue refuses the call with a code of its own.
    Refuse(u32),
}

/// What a capability shows: the vault it acts as, the program under which
/// its seeds derive the vault's address, and the owner and nonce among
/// those seeds.
#[derive(Clone, Copy, Debug, PartialEq, Eq)]
pub struct Principal {
    pub vault: Address,
    pub program_id: Address,
    pub owner: Address,
    pub nonce: u8,
}

/// A step and the vault, if any, that signs it.
pub struct SignedCall {
    pub call: Call,
    pub principal: Option<Principal>,
}

/// A step of an operation together with the capability that signs it. The
/// capability goes with the call and signs nothing else.
#[derive(Debug)]
pub struct DelegatedCall {
    pub call: Call,
    pub signer: Option<Capability>,
}

impl View for DelegatedCall {
    type V = SignedCall;

    open spec fn view(&self) -> SignedCall {
        SignedCall {
            call: self.call,
            principal: match self.signer {
                Some(capability) => Some(
                    Principal {
                        vault: capability.spec_vault(),
                        program_id: capability.spec_program_id(),
                        owner: capability.spec_owner(),
                        nonce: capability.spec_nonce(),
                    },
                ),
                None => None,
            },
        }
    }
}

impl DelegatedCall {
    /// A step that needs no vault's signature.
    pub fn unsigned(call: Call) -> (r: DelegatedCall)
        ensures
            r.call == call,
            r.signer is None,
            r@ == (SignedCall { call, principal: None }),
    {
        DelegatedCall { call, signer: None }
    }

    /// A step signed by a vault. The capability is used up.
    pub fn signed(call: Call, capability: Capability) -> (r: DelegatedCall)
        ensures
            r.call == call,
            r.signer == Some(capability),
            r@ == (SignedCall {
                call,
                principal: Some(
                    Principal {
                        vault: capability.spec_vault(),
                        program_id: capability.spec_program_id(),
                        owner: capability.spec_owner(),
                        nonce: capability.spec_nonce(),
                    },
                ),
            }),
    {
        DelegatedCall { call, signer: Some(capability) }
    }

    /// The vault that signs the step, if one does.
    pub fn principal(&self) -> (r: Option<Principal>)
        ensures
            r == self@.principal,
    {
        match &self.signer {
            Some(capability) => Some(
                Principal {
                    vault: capability.vault(),
                    program_id: capability.program_id(),
                    owner: capability.owner(),
                    nonce: capability.nonce(),
                },
            ),
            None => None,
        }
    }
}

/// The plan as a sequence of steps, each with what its capability shows.
pub open spec fn plan_view(plan: Seq<DelegatedCall>) -> Seq<SignedCall> {
    Seq::new(plan.len(), |i: int| plan[i]@)
}

/// Every signed step of the plan shows the seeds of this owner and nonce.
pub open spec fn signed_with(plan: Seq<DelegatedCall>, owner: Address, nonce: u8) -> bool {
    forall|i: int|
        0 <= i < plan.len() && (#[trigger] plan[i]).signer is Some ==> {
            &&& plan[i].signer->Some_0.spec_owner() == owner
            &&& plan[i].signer->Some_0.spec_nonce() == nonce
        }
}

} // verus!

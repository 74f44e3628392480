//! Custody core of a per-owner vault program.
//!
//! Every owner has one vault, at an address derived from the owner's
//! identity. Only the program can act as a vault, by showing the seeds that
//! derive its address. Each operation on a vault checks its accounts, plans a
//! short sequence of delegated calls, and takes effect as a whole or not at
//! all.
//!
//! - `address`, `pda`, `authority`: addresses, their derivation, and the
//!   capability to act as a vault.
//! - `state`, `account`, `ledger`: the vault record and the accounts a
//!   ledger holds.
//! - `call`, `semantics`, `runtime`: the delegated calls, what each does to
//!   the accounts, and running plans of them on a ledger.
//! - `instructions`: the operations.

pub mod account;
pub mod address;
pub mod authority;
pub mod call;
pub mod constants;
pub mod errors;
pub mod instructions;
pub mod ledger;
pub mod pda;
pub mod runtime;
pub mod semantics;
pub mod state;

pub use instructions::begin_swap::begin_swap;
pub use instructions::close_drift_account::close_drift_account;
pub use instructions::deposit_lamports::deposit_lamports;
pub use instructions::deposit_usdc::deposit_usdc;
pub use instructions::init_drift_account::init_drift_account;
pub use instructions::init_user::init_user;
pub use instructions::transfer_lamports::transfer_lamports;
pub use instructions::withdraw_lamports::withdraw_lamports;
pub use instructions::withdraw_usdc::withdraw_usdc;

//! The operations: for each, the accounts it takes, the checks it makes on
//! them, and the plan of delegated calls it issues.

pub mod begin_swap;
pub mod checks;
pub mod close_drift_account;
pub mod deposit_lamports;
pub mod deposit_usdc;
pub mod init_account;
pub mod init_drift_account;
pub mod init_user;
pub mod stake_lamports;
pub mod transfer_lamports;
pub mod withdraw_lamports;
pub mod withdraw_usdc;

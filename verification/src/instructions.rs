//! The operations of the ledger, each with the accounts it is handed.

pub mod init_pool;
pub mod init_stake_entry;
pub mod stake;
pub mod unstake;

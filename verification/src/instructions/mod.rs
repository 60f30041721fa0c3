//! What the vault's instructions decide and change, apart from the token transfers and
//! the calls into lending markets that carry them out.
pub mod deposit;
pub mod init;
pub mod rebalance;
pub mod reconcile;
pub mod reconcile_jet;
pub mod reconcile_port;
pub mod reconcile_solend;
pub mod refresh;
pub mod update_deposit_cap;
pub mod withdraw;

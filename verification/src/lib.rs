//! Verified core of an ERC20 token and a staking-rewards contract for the
//! Casper network.
pub mod erc20;
pub mod error;
pub mod keys;
pub mod ledger;
pub mod staking;
pub mod staking_ops;
pub mod u256;

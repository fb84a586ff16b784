//! The value types of the chain.

pub mod addr;
pub mod amount;
pub mod block;
pub mod chain;
pub mod header;
pub mod transaction;
pub mod tx;
pub mod txi;
pub mod txn;
pub mod txo;
pub mod units;
pub mod wallet_addr;

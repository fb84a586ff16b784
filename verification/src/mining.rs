//! Mining: the nonce search, its state, and difficulty retargeting.

pub mod constants;
pub mod error;
pub mod mine;
pub mod miner;

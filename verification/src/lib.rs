//! Consensus core of a minimal proof-of-work blockchain node: the block and
//! header model, compact-target decoding, proof-of-work verification, the
//! append-only active chain, difficulty retargeting and the nonce search.

pub mod mining;
pub mod util;

//! Building blocks shared by the consensus engine.

pub mod constants;
pub mod errors;
pub mod bytes;
pub mod hashes;
pub mod networking;
pub mod text;
pub mod types;
pub mod uint256;

//! Sizes and identifiers used throughout the node.

use vstd::prelude::*;

use crate::util::errors::Error;

verus! {

/// The index of the network ID byte in a wallet address.
pub const WALLET_ADDR_INDEX_NETWORK_ID: usize = 0;

/// The size of a wallet address's underlying bytes.
pub const WALLET_ADDR_SIZE_UNDERLYING: usize = 20;

/// The size of a wallet address checksum, in bytes.
pub const WALLET_ADDR_SIZE_CHECKSUM: usize = 4;

/// The size of a wallet address, in bytes.
pub const WALLET_ADDR_SIZE: usize = 25;

/// The size of a RIPEMD-160 hash, in bytes.
pub const RIPEMD160_HASH_SIZE: usize = 20;

/// The size of a SHA-256 hash, in bytes.
pub const SHA256_HASH_SIZE: usize = 32;

/// Mainnet network ID byte.
pub const MAINNET_ID_BYTE: u8 = 0x00;

/// Testnet network ID byte.
pub const TESTNET_ID_BYTE: u8 = 0x6f;

/// A network ID.
#[derive(Clone, Copy, Debug, PartialEq, Eq, Structural)]
pub enum NetworkID {
    /// The mainnet network ID (byte: 0x00).
    Mainnet,
    /// The testnet network ID (byte: 0x6f).
    Testnet,
}

/// The network that a network ID byte names, if it names one.
pub open spec fn network_id_of(network_id_byte: u8) -> Option<NetworkID> {
    if network_id_byte == MAINNET_ID_BYTE {
        Some(NetworkID::Mainnet)
    } else if network_id_byte == TESTNET_ID_BYTE {
        Some(NetworkID::Testnet)
    } else {
        None
    }
}

impl NetworkID {
    /// The network ID byte of this network ID.
    pub open spec fn spec_byte(&self) -> u8 {
        match self {
            NetworkID::Mainnet => MAINNET_ID_BYTE,
            NetworkID::Testnet => TESTNET_ID_BYTE,
        }
    }

    /// Get a network ID from a given network ID byte.
    pub fn new(network_id_byte: u8) -> (result: Result<NetworkID, Error>)
        ensures
            match result {
                Ok(id) => network_id_of(network_id_byte) == Some(id),
                Err(err) => network_id_of(network_id_byte) is None && err
                    == Error::InvalidNetworkIDByte(network_id_byte),
            },
    {
        if network_id_byte == MAINNET_ID_BYTE {
            Ok(NetworkID::Mainnet)
        } else if network_id_byte == TESTNET_ID_BYTE {
            Ok(NetworkID::Testnet)
        } else {
            Err(Error::InvalidNetworkIDByte(network_id_byte))
        }
    }

    /// Get the network ID byte for this network ID.
    #[verifier::when_used_as_spec(spec_byte)]
    pub fn byte(&self) -> (network_id_byte: u8)
        ensures
            network_id_byte == self.spec_byte(),
    {
        match self {
            NetworkID::Mainnet => MAINNET_ID_BYTE,
            NetworkID::Testnet => TESTNET_ID_BYTE,
        }
    }
}

/// A network ID is found again from its byte, and a byte that names a
/// network is the byte of that network.
pub proof fn lemma_network_id_round_trip(id: NetworkID, network_id_byte: u8)
    ensures
        network_id_of(id.spec_byte()) == Some(id),
        network_id_of(network_id_byte) is Some ==> network_id_of(network_id_byte)->0.spec_byte()
            == network_id_byte,
{
}

} // verus!

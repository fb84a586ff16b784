//! The wallet address of a given public key.

use vstd::prelude::*;

use crate::util::constants::{
    network_id_of, NetworkID, WALLET_ADDR_INDEX_NETWORK_ID, WALLET_ADDR_SIZE,
    WALLET_ADDR_SIZE_CHECKSUM, WALLET_ADDR_SIZE_UNDERLYING,
};
use crate::util::errors::Error;
use crate::util::types::addr::{
    address_of, base58_decoded, base58_of, checksum_bytes, derive_address, underlying_bytes, Addr,
};
use crate::util::types::addr::Error as AddrError;

verus! {

/// A 25-byte wallet address, comprised of a one-byte network ID, a 20-byte
/// address, and a 4-byte checksum.
#[derive(Clone, Copy, Debug)]
pub struct WalletAddr {
    /// 25-byte wallet address, comprised of network ID byte (1), address
    /// (20), checksum (4).
    bytes: [u8; WALLET_ADDR_SIZE],
}

impl View for WalletAddr {
    type V = Seq<u8>;

    closed spec fn view(&self) -> Seq<u8> {
        self.bytes@
    }
}

impl WalletAddr {
    /// Every address is 25 bytes long.
    pub proof fn lemma_len(self)
        ensures
            self@.len() == WALLET_ADDR_SIZE,
    {
    }

    /// Create a wallet address from two 32-byte integers, the coordinates of
    /// a public key, and a network ID.
    pub fn new(x: [u8; 32], y: [u8; 32], network_id: NetworkID) -> (result: Result<
        WalletAddr,
        Error,
    >)
        ensures
            result is Ok,
            result->Ok_0@ == address_of(x@, y@, network_id.spec_byte()),
    {
        Ok(WalletAddr { bytes: derive_address(&x, &y, network_id.byte()) })
    }

    /// Get the network ID of this wallet address.
    pub fn network_id(&self) -> (result: Result<NetworkID, Error>)
        ensures
            match result {
                Ok(id) => network_id_of(self@[0]) == Some(id),
                Err(err) => network_id_of(self@[0]) is None && err == Error::InvalidNetworkIDByte(
                    self@[0],
                ),
            },
    {
        NetworkID::new(self.bytes[WALLET_ADDR_INDEX_NETWORK_ID])
    }

    /// Get the 20 underlying bytes of this wallet address.
    pub fn get_underlying(&self) -> (underlying: [u8; WALLET_ADDR_SIZE_UNDERLYING])
        ensures
            underlying@ == self@.subrange(1, 21),
    {
        underlying_bytes(&self.bytes)
    }

    /// Get the 4-byte checksum of this wallet address.
    pub fn get_checksum(&self) -> (checksum: [u8; WALLET_ADDR_SIZE_CHECKSUM])
        ensures
            checksum@ == self@.subrange(21, 25),
    {
        checksum_bytes(&self.bytes)
    }

    /// Base58-encode a wallet address to a string.
    pub fn encode(&self) -> (text: String)
        ensures
            text@ == base58_of(self@),
    {
        Addr::from_bytes(self.bytes).encode()
    }

    /// Base58-decode a string to a wallet address. The text must be Base58
    /// and stand for exactly 25 bytes.
    pub fn decode(text: &str) -> (result: Result<WalletAddr, AddrError>)
        ensures
            match result {
                Ok(addr) => base58_decoded(text@) == Some(addr@),
                Err(AddrError::Base58DecodeError(_)) => base58_decoded(text@) is None,
                Err(AddrError::IntoArrayError(bytes)) => base58_decoded(text@) == Some(bytes@)
                    && bytes@.len() != WALLET_ADDR_SIZE,
                Err(AddrError::InvalidNetworkID(_)) => false,
            },
    {
        match Addr::decode(text) {
            Ok(addr) => Ok(WalletAddr { bytes: addr.to_bytes() }),
            Err(err) => Err(err),
        }
    }

    /// Return the 25 bytes of this wallet address.
    pub fn to_bytes(&self) -> (bytes: [u8; WALLET_ADDR_SIZE])
        ensures
            bytes@ == self@,
    {
        self.bytes
    }
}

impl std::str::FromStr for WalletAddr {
    type Err = AddrError;

    fn from_str(s: &str) -> (result: Result<WalletAddr, AddrError>)
        ensures
            match result {
                Ok(addr) => base58_decoded(s@) == Some(addr@),
                Err(AddrError::Base58DecodeError(_)) => base58_decoded(s@) is None,
                Err(AddrError::IntoArrayError(bytes)) => base58_decoded(s@) == Some(bytes@)
                    && bytes@.len() != WALLET_ADDR_SIZE,
                Err(AddrError::InvalidNetworkID(_)) => false,
            },
    {
        WalletAddr::decode(s)
    }
}

} // verus!

//! Wallet addresses: a network ID byte, the 20-byte hash of a public key and
//! a 4-byte checksum. Their text form is Base58, which the `bs58` crate
//! encodes and decodes; fresh key material comes from the `rand` crate.

use bs58::decode::Error as Base58Error;
use rand::RngCore;
use vstd::prelude::*;
use vstd::string::StringExecFns;

use crate::util::bytes::push_bytes;
use crate::util::constants::{
    network_id_of, NetworkID, MAINNET_ID_BYTE, TESTNET_ID_BYTE, WALLET_ADDR_SIZE,
    WALLET_ADDR_SIZE_CHECKSUM, WALLET_ADDR_SIZE_UNDERLYING,
};
use crate::util::hashes::{
    double_sha256, double_sha256_of, ripemd160, ripemd160_of, sha256, sha256_of,
};
use crate::util::text::{decimal_of, decimal_text, list_of, list_text};

verus! {

/// The size of a wallet address, in bytes.
pub const ADDR_SIZE: usize = WALLET_ADDR_SIZE;

/// The size of a wallet address's underlying bytes.
pub const ADDR_SIZE_UNDERLYING: usize = WALLET_ADDR_SIZE_UNDERLYING;

/// The size of a wallet address checksum, in bytes.
pub const ADDR_SIZE_CHECKSUM: usize = WALLET_ADDR_SIZE_CHECKSUM;

/// The Base58 text of `bytes`, as `bs58::encode` gives it.
pub uninterp spec fn base58_of(bytes: Seq<u8>) -> Seq<char>;

/// The bytes that the Base58 text `text` stands for, as `bs58::decode`
/// gives them, if the text is Base58 at all.
pub uninterp spec fn base58_decoded(text: Seq<char>) -> Option<Seq<u8>>;

/// Trusted: `bs58::decode::Error`, the error of `bs58::decode`, declared so
/// that an `Error` can carry it. Nothing is known of what it holds.
#[verifier::external_type_specification]
#[verifier::external_body]
pub struct ExBase58Error(Base58Error);

/// The public key with coordinates `x` and `y`, in uncompressed form: the
/// marker byte 0x04, then `x`, then `y`.
pub open spec fn public_key_bytes(x: Seq<u8>, y: Seq<u8>) -> Seq<u8> {
    seq![0x04u8] + x + y
}

/// The part of an address that the checksum covers: the network ID byte and
/// the RIPEMD-160 hash of the SHA-256 hash of the public key.
pub open spec fn address_payload(x: Seq<u8>, y: Seq<u8>, network_id_byte: u8) -> Seq<u8> {
    seq![network_id_byte] + ripemd160_of(sha256_of(public_key_bytes(x, y)))
}

/// The 25 bytes of the address of a public key: the payload, then the first
/// four bytes of the double SHA-256 hash of the payload.
pub open spec fn address_of(x: Seq<u8>, y: Seq<u8>, network_id_byte: u8) -> Seq<u8> {
    address_payload(x, y, network_id_byte) + double_sha256_of(
        address_payload(x, y, network_id_byte),
    ).subrange(0, 4)
}

/// Compute the bytes of the address of the public key with coordinates `x`
/// and `y` on the network with the given ID byte.
pub fn derive_address(x: &[u8; 32], y: &[u8; 32], network_id_byte: u8) -> (bytes: [u8; ADDR_SIZE])
    ensures
        bytes@ == address_of(x@, y@, network_id_byte),
{
    let mut key = Vec::<u8>::new();
    key.push(0x04u8);
    push_bytes(&mut key, x.as_slice());
    push_bytes(&mut key, y.as_slice());
    assert(key@ == public_key_bytes(x@, y@));
    let key_hash = sha256(key.as_slice());
    let hash = ripemd160(key_hash.as_slice());
    let mut payload = Vec::<u8>::new();
    payload.push(network_id_byte);
    push_bytes(&mut payload, hash.as_slice());
    assert(payload@ == address_payload(x@, y@, network_id_byte));
    let check = double_sha256(payload.as_slice());
    let mut bytes = [0u8; ADDR_SIZE];
    let mut i: usize = 0;
    while i < 21
        invariant
            i <= 21,
            payload@.len() == 21,
            forall|k: int| 0 <= k < i ==> bytes@[k] == payload@[k],
        decreases 21 - i,
    {
        bytes[i] = payload[i];
        i = i + 1;
    }
    let mut j: usize = 0;
    while j < 4
        invariant
            j <= 4,
            payload@.len() == 21,
            forall|k: int| 0 <= k < 21 ==> bytes@[k] == payload@[k],
            forall|k: int| 0 <= k < j ==> bytes@[21 + k] == check@[k],
        decreases 4 - j,
    {
        bytes[21 + j] = check[j];
        j = j + 1;
    }
    assert(bytes@ =~= address_of(x@, y@, network_id_byte));
    bytes
}

/// Return the 20 underlying bytes of the 25 bytes of an address.
pub fn underlying_bytes(bytes: &[u8; ADDR_SIZE]) -> (underlying: [u8; ADDR_SIZE_UNDERLYING])
    ensures
        underlying@ == bytes@.subrange(1, 21),
{
    let mut underlying = [0u8; ADDR_SIZE_UNDERLYING];
    let mut i: usize = 0;
    while i < 20
        invariant
            i <= 20,
            forall|k: int| 0 <= k < i ==> underlying@[k] == bytes@[1 + k],
        decreases 20 - i,
    {
        underlying[i] = bytes[1 + i];
        i = i + 1;
    }
    assert(underlying@ =~= bytes@.subrange(1, 21));
    underlying
}

/// Return the 4 checksum bytes of the 25 bytes of an address.
pub fn checksum_bytes(bytes: &[u8; ADDR_SIZE]) -> (checksum: [u8; ADDR_SIZE_CHECKSUM])
    ensures
        checksum@ == bytes@.subrange(21, 25),
{
    let mut checksum = [0u8; ADDR_SIZE_CHECKSUM];
    let mut i: usize = 0;
    while i < 4
        invariant
            i <= 4,
            forall|k: int| 0 <= k < i ==> checksum@[k] == bytes@[21 + k],
        decreases 4 - i,
    {
        checksum[i] = bytes[21 + i];
        i = i + 1;
    }
    assert(checksum@ =~= bytes@.subrange(21, 25));
    checksum
}

/// Trusted: `bs58::encode(..).into_string()`, the Base58 text of the bytes
/// in the default alphabet. The contract only names that text.
#[verifier::external_body]
fn base58_encode(bytes: &[u8; ADDR_SIZE]) -> (text: String)
    ensures
        text@ == base58_of(bytes@),
{
    bs58::encode(bytes).into_string()
}

/// Trusted: `bs58::decode(..).into_vec()`, which returns the bytes that a
/// Base58 text stands for, or an error if the text holds a character outside
/// the default alphabet. The contract only names the decoded bytes.
#[verifier::external_body]
fn base58_decode(text: &str) -> (result: Result<Vec<u8>, Base58Error>)
    ensures
        match result {
            Ok(bytes) => base58_decoded(text@) == Some(bytes@),
            Err(_) => base58_decoded(text@) is None,
        },
{
    bs58::decode(text).into_vec()
}

/// Trusted: `try_fill_bytes` of `rand::thread_rng()`, which fills the buffer
/// with random bytes and reports whether the generator succeeded. Nothing is
/// promised of the bytes. The generator is seeded by the system when a
/// thread first uses it, and gives up the thread if the system has no
/// entropy to offer.
#[verifier::external_body]
fn fill_random(buf: &mut [u8; 32]) -> (filled: bool) {
    rand::thread_rng().try_fill_bytes(buf).is_ok()
}

/// The custom error type for `Addr`.
#[derive(Debug)]
pub enum Error {
    /// Indicates an error decoding a string using Base58.
    Base58DecodeError(Base58Error),
    /// Indicates an error converting a `Vec<u8>` into an array.
    IntoArrayError(Vec<u8>),
    /// Indicates an invalid network ID byte.
    InvalidNetworkID(u8),
}

/// Trusted: the `Display` of `bs58::decode::Error`, which says in words what
/// is wrong with the text. Nothing is promised of the words.
#[verifier::external_body]
fn base58_error_text(err: &Base58Error) -> (text: String) {
    format!("{}", err)
}

impl Error {
    /// The text that describes this error, but for the words of a Base58
    /// error, which follow it.
    pub open spec fn spec_text(self) -> Seq<char> {
        match self {
            Error::Base58DecodeError(_) => "Base58DecodeError: "@,
            Error::IntoArrayError(bytes) => "IntoArrayError: "@ + list_of(bytes@),
            Error::InvalidNetworkID(byte) => "InvalidNetworkID: "@ + decimal_of(byte as nat),
        }
    }

    /// Return the text that describes this error.
    pub fn to_string(&self) -> (text: String)
        ensures
            self is Base58DecodeError ==> self.spec_text().is_prefix_of(text@),
            !(self is Base58DecodeError) ==> text@ == self.spec_text(),
    {
        match self {
            Error::Base58DecodeError(err) => {
                let mut text = "Base58DecodeError: ".to_owned();
                text.append(base58_error_text(err).as_str());
                text
            },
            Error::IntoArrayError(bytes) => {
                let mut text = "IntoArrayError: ".to_owned();
                text.append(list_text(bytes).as_str());
                text
            },
            Error::InvalidNetworkID(byte) => {
                let mut text = "InvalidNetworkID: ".to_owned();
                text.append(decimal_text(*byte as u64).as_str());
                text
            },
        }
    }
}

/// A 25-byte wallet address, comprised of a one-byte network ID, a 20-byte
/// address, and a 4-byte checksum.
#[derive(Clone, Copy, Debug)]
pub struct Addr {
    /// 25-byte wallet address, comprised of network ID byte (1), address
    /// (20), checksum (4).
    bytes: [u8; ADDR_SIZE],
}

impl View for Addr {
    type V = Seq<u8>;

    closed spec fn view(&self) -> Seq<u8> {
        self.bytes@
    }
}

impl Addr {
    /// Every address is 25 bytes long.
    pub proof fn lemma_len(self)
        ensures
            self@.len() == ADDR_SIZE,
    {
    }

    /// Create the wallet address of a fresh random public key on the given
    /// network.
    pub fn new(network_id: NetworkID) -> (result: Result<Addr, Error>)
        ensures
            result is Ok,
            exists|x: Seq<u8>, y: Seq<u8>|
                x.len() == 32 && y.len() == 32 && result->Ok_0@ == #[trigger] address_of(
                    x,
                    y,
                    network_id.spec_byte(),
                ),
    {
        let mut x = [0u8; 32];
        let mut y = [0u8; 32];
        let _ = fill_random(&mut x);
        let _ = fill_random(&mut y);
        Ok(Addr::from_public_key(&x, &y, network_id))
    }

    /// Create the wallet address of the public key with coordinates `x` and
    /// `y` on the given network.
    pub fn from_public_key(x: &[u8; 32], y: &[u8; 32], network_id: NetworkID) -> (addr: Addr)
        ensures
            addr@ == address_of(x@, y@, network_id.spec_byte()),
    {
        Addr { bytes: derive_address(x, y, network_id.byte()) }
    }

    /// Get the network ID of this wallet address.
    pub fn network_id(&self) -> (result: Result<NetworkID, Error>)
        ensures
            match result {
                Ok(id) => network_id_of(self@[0]) == Some(id),
                Err(err) => network_id_of(self@[0]) is None && err == Error::InvalidNetworkID(
                    self@[0],
                ),
            },
    {
        let byte = self.bytes[0];
        if byte == MAINNET_ID_BYTE {
            Ok(NetworkID::Mainnet)
        } else if byte == TESTNET_ID_BYTE {
            Ok(NetworkID::Testnet)
        } else {
            Err(Error::InvalidNetworkID(byte))
        }
    }

    /// Get the 20 underlying bytes of this wallet address.
    pub fn get_underlying(&self) -> (result: Result<[u8; ADDR_SIZE_UNDERLYING], Error>)
        ensures
            result is Ok,
            result->Ok_0@ == self@.subrange(1, 21),
    {
        Ok(underlying_bytes(&self.bytes))
    }

    /// Get the 4-byte checksum of this wallet address.
    pub fn get_checksum(&self) -> (result: Result<[u8; ADDR_SIZE_CHECKSUM], Error>)
        ensures
            result is Ok,
            result->Ok_0@ == self@.subrange(21, 25),
    {
        Ok(checksum_bytes(&self.bytes))
    }

    /// Make a wallet address of its 25 bytes.
    pub fn from_bytes(bytes: [u8; ADDR_SIZE]) -> (addr: Addr)
        ensures
            addr@ == bytes@,
    {
        Addr { bytes }
    }

    /// Return the 25 bytes of this wallet address.
    pub fn to_bytes(&self) -> (bytes: [u8; ADDR_SIZE])
        ensures
            bytes@ == self@,
    {
        self.bytes
    }

    /// Base58-encode a wallet address to a string.
    pub fn encode(&self) -> (text: String)
        ensures
            text@ == base58_of(self@),
    {
        base58_encode(&self.bytes)
    }

    /// Base58-decode a string to a wallet address. The text must be Base58
    /// and stand for exactly 25 bytes.
    pub fn decode(text: &str) -> (result: Result<Addr, Error>)
        ensures
            match result {
                Ok(addr) => base58_decoded(text@) == Some(addr@),
                Err(Error::Base58DecodeError(_)) => base58_decoded(text@) is None,
                Err(Error::IntoArrayError(bytes)) => base58_decoded(text@) == Some(bytes@)
                    && bytes@.len() != ADDR_SIZE,
                Err(Error::InvalidNetworkID(_)) => false,
            },
    {
        match base58_decode(text) {
            Ok(decoded) => Addr::from_decoded(decoded),
            Err(err) => Err(Error::Base58DecodeError(err)),
        }
    }

    /// Make an address of decoded bytes, which must be exactly 25.
    pub fn from_decoded(decoded: Vec<u8>) -> (result: Result<Addr, Error>)
        ensures
            match result {
                Ok(addr) => addr@ == decoded@,
                Err(Error::IntoArrayError(bytes)) => bytes@ == decoded@ && decoded@.len()
                    != ADDR_SIZE,
                Err(_) => false,
            },
    {
        if decoded.len() != ADDR_SIZE {
            return Err(Error::IntoArrayError(decoded));
        }
        let mut bytes = [0u8; ADDR_SIZE];
        let mut i: usize = 0;
        while i < ADDR_SIZE
            invariant
                i <= ADDR_SIZE,
                decoded@.len() == ADDR_SIZE,
                forall|k: int| 0 <= k < i ==> bytes@[k] == decoded@[k],
            decreases ADDR_SIZE - i,
        {
            bytes[i] = decoded[i];
            i = i + 1;
        }
        assert(bytes@ =~= decoded@);
        Ok(Addr { bytes })
    }
}

impl std::str::FromStr for Addr {
    type Err = Error;

    fn from_str(s: &str) -> (result: Result<Addr, Error>)
        ensures
            match result {
                Ok(addr) => base58_decoded(s@) == Some(addr@),
                Err(Error::Base58DecodeError(_)) => base58_decoded(s@) is None,
                Err(Error::IntoArrayError(bytes)) => base58_decoded(s@) == Some(bytes@)
                    && bytes@.len() != ADDR_SIZE,
                Err(Error::InvalidNetworkID(_)) => false,
            },
    {
        Addr::decode(s)
    }
}

/// The layout of an address: the network ID byte, then the underlying
/// bytes, then the checksum, which is the start of the double SHA-256 hash
/// of what comes before it.
pub proof fn lemma_address_layout(x: Seq<u8>, y: Seq<u8>, network_id_byte: u8)
    requires
        ripemd160_of(sha256_of(public_key_bytes(x, y))).len() == ADDR_SIZE_UNDERLYING,
        double_sha256_of(address_payload(x, y, network_id_byte)).len() == 32,
    ensures
        address_of(x, y, network_id_byte).len() == ADDR_SIZE,
        address_of(x, y, network_id_byte)[0] == network_id_byte,
        address_of(x, y, network_id_byte).subrange(1, 21) == ripemd160_of(
            sha256_of(public_key_bytes(x, y)),
        ),
        address_of(x, y, network_id_byte).subrange(21, 25) == double_sha256_of(
            address_of(x, y, network_id_byte).subrange(0, 21),
        ).subrange(0, 4),
{
    let payload = address_payload(x, y, network_id_byte);
    let addr = address_of(x, y, network_id_byte);
    assert(addr.subrange(0, 21) =~= payload);
    assert(addr.subrange(1, 21) =~= ripemd160_of(sha256_of(public_key_bytes(x, y))));
    assert(addr.subrange(21, 25) =~= double_sha256_of(payload).subrange(0, 4));
}

} // verus!

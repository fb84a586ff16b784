//! Transaction outputs.

use vstd::prelude::*;

use crate::util::bytes::{le_bytes, lemma_le_bytes_len, push_bytes, push_le};
use crate::util::constants::RIPEMD160_HASH_SIZE;

verus! {

/// What a transaction output holds, as plain values.
pub struct TxoView {
    pub value: u64,
    pub pubkey_hash: Seq<u8>,
}

impl TxoView {
    /// The serialized form: the value as 8 little-endian bytes, then the
    /// recipient's public key hash.
    pub open spec fn bytes(self) -> Seq<u8> {
        le_bytes(self.value as nat, 8) + self.pubkey_hash
    }

    /// The public key hash is 20 bytes long.
    pub open spec fn wf(self) -> bool {
        self.pubkey_hash.len() == 20
    }
}

/// The serialized length of a transaction output.
pub const TXO_ENCODED_LEN: u64 = 28;

/// A well-formed output serializes to `TXO_ENCODED_LEN` bytes.
pub proof fn lemma_txo_bytes_len(t: TxoView)
    requires
        t.wf(),
    ensures
        t.bytes().len() == TXO_ENCODED_LEN,
{
    lemma_le_bytes_len(t.value as nat, 8);
}

/// A transaction output.
#[derive(Clone, Copy, Debug)]
pub struct Txo {
    /// The value of this transaction output.
    value: u64,
    /// RIPEMD160-SHA256 hash of the recipient's public key.
    pubkey_hash: [u8; RIPEMD160_HASH_SIZE],
}

impl View for Txo {
    type V = TxoView;

    closed spec fn view(&self) -> TxoView {
        TxoView { value: self.value, pubkey_hash: self.pubkey_hash@ }
    }
}

impl Txo {
    /// Initialize a new transaction output from the provided values.
    pub fn new(value: u64, pubkey_hash: [u8; RIPEMD160_HASH_SIZE]) -> (txo: Txo)
        ensures
            txo@ == (TxoView { value, pubkey_hash: pubkey_hash@ }),
    {
        Txo { value, pubkey_hash }
    }

    /// Return the value of this output.
    pub fn value(&self) -> (value: u64)
        ensures
            value == self@.value,
    {
        self.value
    }

    /// Return the hash of the recipient's public key.
    pub fn pubkey_hash(&self) -> (hash: [u8; RIPEMD160_HASH_SIZE])
        ensures
            hash@ == self@.pubkey_hash,
    {
        self.pubkey_hash
    }

    /// Every output is well formed.
    pub proof fn lemma_wf(self)
        ensures
            self@.wf(),
    {
    }

    /// Append the serialized form of this output to `buf`.
    pub fn serialize_into(&self, buf: &mut Vec<u8>)
        ensures
            final(buf)@ == old(buf)@ + self@.bytes(),
    {
        push_le(buf, self.value, 8);
        push_bytes(buf, self.pubkey_hash.as_slice());
        assert(buf@ == old(buf)@ + self@.bytes());
    }
}

} // verus!

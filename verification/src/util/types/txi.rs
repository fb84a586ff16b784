//! Transaction inputs.

use vstd::prelude::*;

use crate::util::bytes::{le_bytes, lemma_le_bytes_len, push_bytes, push_le};
use crate::util::constants::SHA256_HASH_SIZE;

verus! {

/// What a transaction input holds, as plain values.
pub struct TxiView {
    pub prev_txn_hash: Seq<u8>,
    pub prev_txo_index: nat,
    pub prev_txn_sig: Seq<u8>,
}

impl TxiView {
    /// The serialized form: the hash, the index as 8 little-endian bytes,
    /// the signature.
    pub open spec fn bytes(self) -> Seq<u8> {
        self.prev_txn_hash + le_bytes(self.prev_txo_index, 8) + self.prev_txn_sig
    }

    /// Hash and signature are 32 bytes long.
    pub open spec fn wf(self) -> bool {
        self.prev_txn_hash.len() == 32 && self.prev_txn_sig.len() == 32
    }
}

/// The serialized length of a transaction input.
pub const TXI_ENCODED_LEN: u64 = 72;

/// A well-formed input serializes to `TXI_ENCODED_LEN` bytes.
pub proof fn lemma_txi_bytes_len(t: TxiView)
    requires
        t.wf(),
    ensures
        t.bytes().len() == TXI_ENCODED_LEN,
{
    lemma_le_bytes_len(t.prev_txo_index, 8);
}

/// A transaction input.
#[derive(Clone, Copy, Debug)]
pub struct Txi {
    /// Previous transaction hash.
    prev_txn_hash: [u8; SHA256_HASH_SIZE],
    /// Previous transaction output index.
    prev_txo_index: usize,
    /// Previous transaction output owner's digital signature.
    prev_txn_sig: [u8; SHA256_HASH_SIZE],
}

impl View for Txi {
    type V = TxiView;

    closed spec fn view(&self) -> TxiView {
        TxiView {
            prev_txn_hash: self.prev_txn_hash@,
            prev_txo_index: self.prev_txo_index as nat,
            prev_txn_sig: self.prev_txn_sig@,
        }
    }
}

impl Txi {
    /// Initialize a new transaction input from the provided values.
    pub fn new(
        prev_txn_hash: [u8; SHA256_HASH_SIZE],
        prev_txo_index: usize,
        prev_txn_sig: [u8; SHA256_HASH_SIZE],
    ) -> (txi: Txi)
        ensures
            txi@ == (TxiView {
                prev_txn_hash: prev_txn_hash@,
                prev_txo_index: prev_txo_index as nat,
                prev_txn_sig: prev_txn_sig@,
            }),
    {
        Txi { prev_txn_hash, prev_txo_index, prev_txn_sig }
    }

    /// Return the hash of the transaction whose output this input spends.
    pub fn prev_txn_hash(&self) -> (hash: [u8; SHA256_HASH_SIZE])
        ensures
            hash@ == self@.prev_txn_hash,
    {
        self.prev_txn_hash
    }

    /// Return the index of the output that this input spends.
    pub fn prev_txo_index(&self) -> (index: usize)
        ensures
            index == self@.prev_txo_index,
    {
        self.prev_txo_index
    }

    /// Return the signature of the owner of the output that this input
    /// spends.
    pub fn prev_txn_sig(&self) -> (sig: [u8; SHA256_HASH_SIZE])
        ensures
            sig@ == self@.prev_txn_sig,
    {
        self.prev_txn_sig
    }

    /// Every input is well formed.
    pub proof fn lemma_wf(self)
        ensures
            self@.wf(),
    {
    }

    /// Append the serialized form of this input to `buf`.
    pub fn serialize_into(&self, buf: &mut Vec<u8>)
        ensures
            final(buf)@ == old(buf)@ + self@.bytes(),
    {
        push_bytes(buf, self.prev_txn_hash.as_slice());
        push_le(buf, self.prev_txo_index as u64, 8);
        push_bytes(buf, self.prev_txn_sig.as_slice());
        assert(buf@ == old(buf)@ + self@.bytes());
    }
}

} // verus!

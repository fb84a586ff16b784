//! Blocks and the verification of their proof of work.

use vstd::prelude::*;

use crate::util::bytes::{le_bytes, lemma_le_bytes_len, push_le};
use crate::util::constants::SHA256_HASH_SIZE;
use crate::util::hashes::{double_sha256, double_sha256_of, hashable_len, HASH_INPUT_LIMIT};
use crate::util::types::header::{
    compact_target, compact_valid, decode_target, Header, HeaderView,
};
use crate::util::types::txn::{
    serialize_txns, txn_views, txns_bytes, txns_encoded_len_below, Txn, TxnView,
};
use crate::util::uint256::{be_value, lemma_be_value_fits, uint256_limit, Uint256};

verus! {

/// The bytes that are hashed for the proof of work: the serialized
/// transactions followed by the nonce as 4 little-endian bytes.
pub open spec fn pow_preimage(txns: Seq<TxnView>, nonce: u32) -> Seq<u8> {
    txns_bytes(txns) + le_bytes(nonce as nat, 4)
}

/// The proof-of-work digest: the double SHA-256 of the preimage.
pub open spec fn pow_digest_of(txns: Seq<TxnView>, nonce: u32) -> Seq<u8> {
    double_sha256_of(pow_preimage(txns, nonce))
}

/// Whether the proof-of-work preimage of `txns` is short enough to be hashed.
pub open spec fn pow_hashable(txns: Seq<TxnView>) -> bool {
    hashable_len(txns_bytes(txns).len() + 4)
}

/// Whether `digest`, read as a big-endian integer, is at most `target`.
pub open spec fn meets_target(digest: Seq<u8>, target: nat) -> bool {
    be_value(digest) <= target
}

/// Whether `digest` meets the target that `bits` encodes. Bits that encode no
/// target are met by no digest.
pub open spec fn meets_compact_target(digest: Seq<u8>, bits: u32) -> bool {
    compact_valid(bits) && meets_target(digest, compact_target(bits))
}

/// Error type for `Block`.
#[derive(Clone, Copy, Debug, PartialEq, Eq, Structural)]
pub enum Error {
    /// The proof-of-work digest exceeds the block's own target.
    NonceFailedVerification,
}

impl Error {
    /// The text that describes this error.
    pub open spec fn spec_text(self) -> Seq<char> {
        match self {
            Error::NonceFailedVerification => "NonceFailedVerification"@,
        }
    }

    /// Return the text that describes this error.
    pub fn to_string(&self) -> (text: String)
        ensures
            text@ == self.spec_text(),
    {
        match self {
            Error::NonceFailedVerification => "NonceFailedVerification".to_owned(),
        }
    }
}

/// Whether `digest`, read as a 256-bit big-endian integer, is at most
/// `target`.
pub fn digest_meets_target(digest: &[u8; SHA256_HASH_SIZE], target: &Uint256) -> (met: bool)
    ensures
        met == meets_target(digest@, target@),
{
    Uint256::from_be_bytes(digest).le(target)
}

/// Check a proof-of-work digest against a compact target.
pub fn check_proof_of_work(digest: &[u8; SHA256_HASH_SIZE], bits: u32) -> (result: Result<
    (),
    Error,
>)
    ensures
        result is Ok <==> meets_compact_target(digest@, bits),
        result is Err ==> result == Err::<(), Error>(Error::NonceFailedVerification),
{
    match decode_target(bits) {
        Some(target) => {
            if digest_meets_target(digest, &target) {
                Ok(())
            } else {
                Err(Error::NonceFailedVerification)
            }
        },
        None => Err(Error::NonceFailedVerification),
    }
}

/// Return the proof-of-work digest of `txns` under `nonce`.
pub fn pow_digest(txns: &Vec<Txn>, nonce: u32) -> (digest: [u8; SHA256_HASH_SIZE])
    requires
        pow_hashable(txn_views(txns@)),
    ensures
        digest@ == pow_digest_of(txn_views(txns@), nonce),
{
    let mut preimage = serialize_txns(txns);
    push_le(&mut preimage, nonce as u64, 4);
    proof {
        lemma_le_bytes_len(nonce as nat, 4);
    }
    double_sha256(preimage.as_slice())
}

/// Whether the proof-of-work preimage of `txns` is short enough to be hashed.
pub fn txns_hashable(txns: &Vec<Txn>) -> (fits: bool)
    ensures
        fits == pow_hashable(txn_views(txns@)),
{
    txns_encoded_len_below(txns, HASH_INPUT_LIMIT - 4).is_some()
}

/// What a block holds, as plain values.
pub struct BlockView {
    pub header: HeaderView,
    pub txn_count: u32,
    pub txns: Seq<TxnView>,
}

impl BlockView {
    /// The block digest, which is the digest of its header.
    pub open spec fn digest(self) -> Seq<u8> {
        self.header.digest()
    }

    /// The proof-of-work digest of the block's transactions under its nonce.
    pub open spec fn pow_digest(self) -> Seq<u8> {
        pow_digest_of(self.txns, self.header.nonce)
    }

    /// Whether the proof-of-work preimage is short enough to be hashed.
    pub open spec fn hashable(self) -> bool {
        pow_hashable(self.txns)
    }

    /// Whether the proof-of-work digest meets the target of the block's own
    /// header.
    pub open spec fn nonce_valid(self) -> bool {
        meets_compact_target(self.pow_digest(), self.header.bits)
    }

    /// The genesis block: the genesis header and no transactions.
    pub open spec fn genesis() -> BlockView {
        BlockView { header: HeaderView::genesis(), txn_count: 0, txns: Seq::empty() }
    }
}

/// The nonce of a block whose bits encode a target is valid exactly when the
/// double SHA-256 of the serialized transactions followed by the
/// little-endian nonce, read as a big-endian integer, does not exceed that
/// target.
pub proof fn lemma_nonce_valid(block: BlockView)
    requires
        compact_valid(block.header.bits),
    ensures
        block.nonce_valid() <==> be_value(
            double_sha256_of(txns_bytes(block.txns) + le_bytes(block.header.nonce as nat, 4)),
        ) <= compact_target(block.header.bits),
{
}

/// The largest target is met by every digest: at that target any nonce
/// will do.
pub proof fn lemma_largest_target_met(digest: Seq<u8>)
    requires
        digest.len() == 32,
    ensures
        meets_target(digest, (uint256_limit() - 1) as nat),
{
    lemma_be_value_fits(digest);
}

/// A block.
#[derive(Clone, Debug)]
pub struct Block {
    header: Header,
    txn_count: u32,
    txns: Vec<Txn>,
}

impl View for Block {
    type V = BlockView;

    closed spec fn view(&self) -> BlockView {
        BlockView { header: self.header@, txn_count: self.txn_count, txns: txn_views(self.txns@) }
    }
}

impl Block {
    /// Initialize a new block from the given values.
    pub fn new(header: Header, txn_count: u32, txns: Vec<Txn>) -> (block: Block)
        ensures
            block@ == (BlockView { header: header@, txn_count, txns: txn_views(txns@) }),
    {
        Block { header, txn_count, txns }
    }

    /// Return the genesis block.
    pub fn genesis() -> (block: Block)
        ensures
            block@ == BlockView::genesis(),
    {
        let block = Block { header: Header::genesis(), txn_count: 0, txns: Vec::new() };
        assert(txn_views(block.txns@) == Seq::<TxnView>::empty());
        block
    }

    /// Every block's header is well formed.
    pub proof fn lemma_wf(self)
        ensures
            self@.header.wf(),
    {
        self.header.lemma_wf();
    }

    /// Return this block's header.
    pub fn header(&self) -> (header: &Header)
        ensures
            header@ == self@.header,
    {
        &self.header
    }

    /// Return this block's declared transaction count.
    pub fn txn_count(&self) -> (count: u32)
        ensures
            count == self@.txn_count,
    {
        self.txn_count
    }

    /// Return this block's transactions.
    pub fn txns(&self) -> (txns: &Vec<Txn>)
        ensures
            txn_views(txns@) == self@.txns,
    {
        &self.txns
    }

    /// Return the double-SHA-256 hash of this block's `header`.
    pub fn hash(&self) -> (digest: [u8; SHA256_HASH_SIZE])
        ensures
            digest@ == self@.digest(),
    {
        self.header.hash()
    }

    /// Return this block's `prev_block_hash`.
    pub fn prev_block_hash(&self) -> (hash: [u8; SHA256_HASH_SIZE])
        ensures
            hash@ == self@.header.prev_block_hash,
    {
        self.header.prev_block_hash()
    }

    /// Whether this block's proof-of-work preimage is short enough to be
    /// hashed.
    pub fn is_hashable(&self) -> (fits: bool)
        ensures
            fits == self@.hashable(),
    {
        txns_hashable(&self.txns)
    }

    /// Verify that this block's nonce is valid: that the proof-of-work digest
    /// of its transactions and nonce does not exceed the target decoded from
    /// its own header.
    pub fn verify_nonce(&self) -> (result: Result<(), Error>)
        requires
            self@.hashable(),
        ensures
            result is Ok <==> self@.nonce_valid(),
            result is Err ==> result == Err::<(), Error>(Error::NonceFailedVerification),
    {
        let digest = pow_digest(&self.txns, self.header.nonce());
        check_proof_of_work(&digest, self.header.bits())
    }
}

impl Default for Block {
    /// The genesis block.
    fn default() -> (block: Block)
        ensures
            block@ == BlockView::genesis(),
    {
        Block::genesis()
    }
}

} // verus!

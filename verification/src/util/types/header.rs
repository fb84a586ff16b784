//! Block headers and the compact encoding of the difficulty target.

use vstd::arithmetic::power::lemma_pow_positive;
use vstd::arithmetic::power2::pow2;
use vstd::prelude::*;

use crate::util::bytes::{le_bytes, lemma_le_bytes_len, push_bytes, push_le};
use crate::util::constants::SHA256_HASH_SIZE;
use crate::util::hashes::{double_sha256, double_sha256_of};
use crate::util::uint256::{lemma_view_injective, uint256_limit, Uint256};

verus! {

/// The exponent of a compact target: the most significant byte of `bits`.
pub open spec fn compact_exponent(bits: u32) -> nat {
    (bits / 0x100_0000) as nat
}

/// The coefficient of a compact target: the three bytes that follow the
/// exponent, with the first of those three forced to zero. What counts is
/// therefore the two least significant bytes of `bits`; the byte between
/// them and the exponent is read by nothing.
pub open spec fn compact_coefficient(bits: u32) -> nat {
    (bits % 0x1_0000) as nat
}

/// The target that `bits` encodes: the coefficient times 2^(8 * (exponent - 3)).
/// A zero coefficient encodes the target 0 whatever the exponent. With any
/// other coefficient, exponents below 3 encode nothing; the function is 0
/// there.
pub open spec fn compact_target(bits: u32) -> nat {
    if compact_exponent(bits) >= 3 {
        compact_coefficient(bits) * pow2((8 * (compact_exponent(bits) - 3)) as nat)
    } else {
        0
    }
}

/// Whether `bits` encodes a target: the coefficient is zero, or the exponent
/// is at least 3 and the target fits in 256 bits.
pub open spec fn compact_valid(bits: u32) -> bool {
    compact_coefficient(bits) == 0 || (compact_exponent(bits) >= 3 && compact_target(bits)
        < uint256_limit())
}

/// A zero coefficient encodes the target 0: in particular the all-zero bits
/// of the genesis header do.
pub proof fn lemma_zero_coefficient(bits: u32)
    requires
        compact_coefficient(bits) == 0,
    ensures
        compact_valid(bits),
        compact_target(bits) == 0,
{
    if compact_exponent(bits) >= 3 {
        let shift = (8 * (compact_exponent(bits) - 3)) as nat;
        assert(compact_coefficient(bits) * pow2(shift) == 0) by (nonlinear_arith)
            requires
                compact_coefficient(bits) == 0,
        ;
    }
}

/// Decode a compact target. Returns the target exactly when `bits` is a valid
/// encoding.
pub fn decode_target(bits: u32) -> (target: Option<Uint256>)
    ensures
        target is Some <==> compact_valid(bits),
        target is Some ==> target->0@ == compact_target(bits),
{
    let exponent: u32 = bits / 0x100_0000;
    let coefficient: u32 = bits % 0x1_0000;
    if coefficient == 0 {
        proof {
            lemma_zero_coefficient(bits);
        }
        return Some(Uint256::from_u128(0));
    }
    if exponent < 3 {
        return None;
    }
    let shift: u32 = 8 * (exponent - 3);
    proof {
        lemma_pow_positive(2, shift as nat);
    }
    match Uint256::from_u128(2).checked_pow(shift) {
        Some(power) => {
            assert(power@ == pow2(shift as nat));
            Uint256::from_u128(coefficient as u128).checked_mul(power)
        },
        None => {
            assert(compact_target(bits) >= uint256_limit()) by (nonlinear_arith)
                requires
                    compact_target(bits) == compact_coefficient(bits) * pow2(shift as nat),
                    compact_coefficient(bits) >= 1,
                    pow2(shift as nat) >= uint256_limit(),
            ;
            None
        },
    }
}

/// Decoding is a function of `bits` alone: any two results that meet the
/// contract of `decode_target` on the same `bits` are the same value.
pub proof fn lemma_decode_target_deterministic(
    bits: u32,
    first: Option<Uint256>,
    second: Option<Uint256>,
)
    requires
        first is Some <==> compact_valid(bits),
        first is Some ==> first->0@ == compact_target(bits),
        second is Some <==> compact_valid(bits),
        second is Some ==> second->0@ == compact_target(bits),
    ensures
        first == second,
{
    if first is Some {
        lemma_view_injective(first->0, second->0);
    }
}

/// What a header holds, as plain values.
pub struct HeaderView {
    pub version: u32,
    pub prev_block_hash: Seq<u8>,
    pub merkle_root: Seq<u8>,
    pub timestamp: u32,
    pub bits: u32,
    pub nonce: u32,
}

impl HeaderView {
    /// The canonical 80-byte serialization: every field in declared order,
    /// integers little-endian.
    pub open spec fn bytes(self) -> Seq<u8> {
        le_bytes(self.version as nat, 4) + self.prev_block_hash + self.merkle_root + le_bytes(
            self.timestamp as nat,
            4,
        ) + le_bytes(self.bits as nat, 4) + le_bytes(self.nonce as nat, 4)
    }

    /// The header digest: the double SHA-256 of the serialization.
    pub open spec fn digest(self) -> Seq<u8> {
        double_sha256_of(self.bytes())
    }

    /// Both hashes are 32 bytes long.
    pub open spec fn wf(self) -> bool {
        self.prev_block_hash.len() == 32 && self.merkle_root.len() == 32
    }

    /// The genesis header: every field zero.
    pub open spec fn genesis() -> HeaderView {
        HeaderView {
            version: 0,
            prev_block_hash: Seq::new(32, |i: int| 0u8),
            merkle_root: Seq::new(32, |i: int| 0u8),
            timestamp: 0,
            bits: 0,
            nonce: 0,
        }
    }
}

/// The serialization of a well-formed header is 80 bytes long.
pub proof fn lemma_header_bytes_len(h: HeaderView)
    requires
        h.wf(),
    ensures
        h.bytes().len() == 80,
{
    lemma_le_bytes_len(h.version as nat, 4);
    lemma_le_bytes_len(h.timestamp as nat, 4);
    lemma_le_bytes_len(h.bits as nat, 4);
    lemma_le_bytes_len(h.nonce as nat, 4);
}

/// A block header.
#[derive(Clone, Copy, Debug)]
pub struct Header {
    version: u32,
    prev_block_hash: [u8; SHA256_HASH_SIZE],
    merkle_root: [u8; SHA256_HASH_SIZE],
    timestamp: u32,
    bits: u32,
    nonce: u32,
}

impl View for Header {
    type V = HeaderView;

    closed spec fn view(&self) -> HeaderView {
        HeaderView {
            version: self.version,
            prev_block_hash: self.prev_block_hash@,
            merkle_root: self.merkle_root@,
            timestamp: self.timestamp,
            bits: self.bits,
            nonce: self.nonce,
        }
    }
}

impl Header {
    /// Initialize a new header from the provided values.
    pub fn new(
        version: u32,
        prev_block_hash: [u8; SHA256_HASH_SIZE],
        merkle_root: [u8; SHA256_HASH_SIZE],
        timestamp: u32,
        bits: u32,
        nonce: u32,
    ) -> (header: Header)
        ensures
            header@ == (HeaderView {
                version,
                prev_block_hash: prev_block_hash@,
                merkle_root: merkle_root@,
                timestamp,
                bits,
                nonce,
            }),
    {
        Header { version, prev_block_hash, merkle_root, timestamp, bits, nonce }
    }

    /// Return the genesis block header.
    pub fn genesis() -> (header: Header)
        ensures
            header@ == HeaderView::genesis(),
    {
        let header = Header {
            version: 0,
            prev_block_hash: [0u8; SHA256_HASH_SIZE],
            merkle_root: [0u8; SHA256_HASH_SIZE],
            timestamp: 0,
            bits: 0,
            nonce: 0,
        };
        assert(header.prev_block_hash@ =~= HeaderView::genesis().prev_block_hash);
        assert(header.merkle_root@ =~= HeaderView::genesis().merkle_root);
        header
    }

    /// Every header is well formed.
    pub proof fn lemma_wf(self)
        ensures
            self@.wf(),
    {
    }

    /// Return the double-SHA-256 hash of this header.
    pub fn hash(&self) -> (digest: [u8; SHA256_HASH_SIZE])
        ensures
            digest@ == self@.digest(),
    {
        let mut header_bytes = Vec::<u8>::new();
        push_le(&mut header_bytes, self.version as u64, 4);
        push_bytes(&mut header_bytes, self.prev_block_hash.as_slice());
        push_bytes(&mut header_bytes, self.merkle_root.as_slice());
        push_le(&mut header_bytes, self.timestamp as u64, 4);
        push_le(&mut header_bytes, self.bits as u64, 4);
        push_le(&mut header_bytes, self.nonce as u64, 4);
        proof {
            assert(header_bytes@ == self@.bytes());
            lemma_header_bytes_len(self@);
        }
        double_sha256(header_bytes.as_slice())
    }

    /// Return the target from this header's `bits` field.
    pub fn target(&self) -> (target: Uint256)
        requires
            compact_valid(self@.bits),
        ensures
            target@ == compact_target(self@.bits),
    {
        decode_target(self.bits).unwrap()
    }

    /// Return the target from this header's `bits` field, if they encode one.
    pub fn checked_target(&self) -> (target: Option<Uint256>)
        ensures
            target is Some <==> compact_valid(self@.bits),
            target is Some ==> target->0@ == compact_target(self@.bits),
    {
        decode_target(self.bits)
    }

    /// Return this header's `version`.
    pub fn version(&self) -> (version: u32)
        ensures
            version == self@.version,
    {
        self.version
    }

    /// Return this header's `merkle_root`.
    pub fn merkle_root(&self) -> (root: [u8; SHA256_HASH_SIZE])
        ensures
            root@ == self@.merkle_root,
    {
        self.merkle_root
    }

    /// Return this header's `timestamp`.
    pub fn timestamp(&self) -> (timestamp: u32)
        ensures
            timestamp == self@.timestamp,
    {
        self.timestamp
    }

    /// Return this header's `nonce`.
    pub fn nonce(&self) -> (nonce: u32)
        ensures
            nonce == self@.nonce,
    {
        self.nonce
    }

    /// Return this header's `bits`.
    pub fn bits(&self) -> (bits: u32)
        ensures
            bits == self@.bits,
    {
        self.bits
    }

    /// Return this header's `prev_block_hash`.
    pub fn prev_block_hash(&self) -> (hash: [u8; SHA256_HASH_SIZE])
        ensures
            hash@ == self@.prev_block_hash,
    {
        self.prev_block_hash
    }
}

impl Default for Header {
    /// The all-zero header, which is also the genesis header.
    fn default() -> (header: Header)
        ensures
            header@ == HeaderView::genesis(),
    {
        Header::genesis()
    }
}

} // verus!

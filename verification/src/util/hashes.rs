//! Hash primitives. The digests themselves are computed by the `crypto`
//! crate; this module names their results so that contracts can speak of them.

use crypto::digest::Digest;
use crypto::ripemd160::Ripemd160;
use crypto::sha2::Sha256;
use vstd::prelude::*;

use crate::util::constants::{RIPEMD160_HASH_SIZE, SHA256_HASH_SIZE};

verus! {

/// The SHA-256 digest of `input`, as `crypto::sha2::Sha256` computes it.
pub uninterp spec fn sha256_of(input: Seq<u8>) -> Seq<u8>;

/// The RIPEMD-160 digest of `input`, as `crypto::ripemd160::Ripemd160`
/// computes it.
pub uninterp spec fn ripemd160_of(input: Seq<u8>) -> Seq<u8>;

/// The digests count the message length in bits in a 64-bit counter, so a
/// message must be shorter than 2^61 bytes.
pub const HASH_INPUT_LIMIT: u64 = 0x2000_0000_0000_0000;

/// Whether a message of `len` bytes can be hashed.
pub open spec fn hashable_len(len: nat) -> bool {
    len < HASH_INPUT_LIMIT
}

/// SHA-256 applied twice.
pub open spec fn double_sha256_of(input: Seq<u8>) -> Seq<u8> {
    sha256_of(sha256_of(input))
}

/// Return the RIPEMD-160 hash of the input bytes.
///
/// Trusted: feeds `input` to `crypto::ripemd160::Ripemd160` through
/// `Digest::input` and reads the 20-byte digest with `Digest::result`. The
/// contract only names that digest; the length bound excludes the inputs on
/// which the crate's bit counter overflows.
#[verifier::external_body]
pub fn ripemd160(input: &[u8]) -> (output: [u8; RIPEMD160_HASH_SIZE])
    requires
        hashable_len(input@.len()),
    ensures
        output@ == ripemd160_of(input@),
{
    let mut hasher = Ripemd160::new();
    let mut output = [0u8; RIPEMD160_HASH_SIZE];
    hasher.input(input);
    hasher.result(&mut output);
    output
}

/// Return the SHA-256 hash of the input bytes.
///
/// Trusted: feeds `input` to `crypto::sha2::Sha256` through `Digest::input`
/// and reads the 32-byte digest with `Digest::result`. The contract only
/// names that digest; the length bound excludes the inputs on which the
/// crate's bit counter overflows.
#[verifier::external_body]
pub fn sha256(input: &[u8]) -> (output: [u8; SHA256_HASH_SIZE])
    requires
        hashable_len(input@.len()),
    ensures
        output@ == sha256_of(input@),
{
    let mut hasher = Sha256::new();
    let mut output = [0u8; SHA256_HASH_SIZE];
    hasher.input(input);
    hasher.result(&mut output);
    output
}

/// Return the double-SHA-256 hash of the input bytes.
pub fn double_sha256(input: &[u8]) -> (output: [u8; SHA256_HASH_SIZE])
    requires
        hashable_len(input@.len()),
    ensures
        output@ == double_sha256_of(input@),
{
    let first = sha256(input);
    sha256(first.as_slice())
}

} // verus!

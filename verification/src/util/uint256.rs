//! A 256-bit unsigned integer held as two 128-bit words. Multiplication,
//! exponentiation, division and the reading of big-endian bytes are done by
//! the `ethnum` crate.

use vstd::arithmetic::power::pow;
use vstd::arithmetic::power2::{lemma2_to64, lemma_pow2_adds, pow2};
use vstd::prelude::*;

verus! {

/// 2^128, the weight of the high word.
pub open spec fn word_base() -> nat {
    0x1_0000_0000_0000_0000_0000_0000_0000_0000nat
}

/// 2^256, one more than the largest value a `Uint256` holds.
pub open spec fn uint256_limit() -> nat {
    0x1_0000_0000_0000_0000_0000_0000_0000_0000_0000_0000_0000_0000_0000_0000_0000_0000nat
}

/// The number that a byte string denotes when read most significant byte
/// first.
pub open spec fn be_value(bytes: Seq<u8>) -> nat
    decreases bytes.len(),
{
    if bytes.len() == 0 {
        0
    } else {
        be_value(bytes.drop_last()) * 256 + bytes.last() as nat
    }
}

/// A 256-bit unsigned integer.
#[derive(Clone, Copy, Debug, PartialEq, Eq, Structural)]
pub struct Uint256 {
    /// The most significant 128 bits.
    pub hi: u128,
    /// The least significant 128 bits.
    pub lo: u128,
}

impl View for Uint256 {
    type V = nat;

    open spec fn view(&self) -> nat {
        self.hi as nat * word_base() + self.lo as nat
    }
}

/// Trusted: `ethnum::U256::from_be_bytes`, which reads 32 bytes as an integer
/// in big-endian order; `into_words` then splits it into its high and low
/// 128-bit words.
#[verifier::external_body]
fn u256_from_be_bytes(bytes: &[u8; 32]) -> (r: Uint256)
    ensures
        r@ == be_value(bytes@),
{
    let (hi, lo) = ethnum::U256::from_be_bytes(*bytes).into_words();
    Uint256 { hi, lo }
}

/// Trusted: `ethnum::U256::checked_mul`, which returns the product, or `None`
/// if it does not fit in 256 bits.
#[verifier::external_body]
fn u256_checked_mul(a: Uint256, b: Uint256) -> (r: Option<Uint256>)
    ensures
        match r {
            Some(p) => p@ == a@ * b@,
            None => a@ * b@ >= uint256_limit(),
        },
{
    let x = ethnum::U256::from_words(a.hi, a.lo);
    let y = ethnum::U256::from_words(b.hi, b.lo);
    match x.checked_mul(y) {
        Some(p) => {
            let (hi, lo) = p.into_words();
            Some(Uint256 { hi, lo })
        },
        None => None,
    }
}

/// Trusted: `ethnum::U256::checked_pow`, which returns `base` raised to
/// `exp`, or `None` if that does not fit in 256 bits.
#[verifier::external_body]
fn u256_checked_pow(base: Uint256, exp: u32) -> (r: Option<Uint256>)
    ensures
        match r {
            Some(p) => p@ == pow(base@ as int, exp as nat),
            None => pow(base@ as int, exp as nat) >= uint256_limit(),
        },
{
    match ethnum::U256::from_words(base.hi, base.lo).checked_pow(exp) {
        Some(p) => {
            let (hi, lo) = p.into_words();
            Some(Uint256 { hi, lo })
        },
        None => None,
    }
}

/// Trusted: the `/` of `ethnum::U256`, which truncates the quotient and
/// panics only on a zero divisor.
#[verifier::external_body]
fn u256_div(a: Uint256, b: Uint256) -> (r: Uint256)
    requires
        b@ != 0,
    ensures
        r@ == a@ / b@,
{
    let x = ethnum::U256::from_words(a.hi, a.lo);
    let y = ethnum::U256::from_words(b.hi, b.lo);
    let (hi, lo) = (x / y).into_words();
    Uint256 { hi, lo }
}

impl Uint256 {
    /// The integer with the given high and low words.
    pub fn from_words(hi: u128, lo: u128) -> (r: Uint256)
        ensures
            r.hi == hi,
            r.lo == lo,
            r@ == hi as nat * word_base() + lo as nat,
    {
        Uint256 { hi, lo }
    }

    /// The integer `value`.
    pub fn from_u128(value: u128) -> (r: Uint256)
        ensures
            r@ == value,
    {
        Uint256 { hi: 0, lo: value }
    }

    /// The largest 256-bit integer, 2^256 - 1.
    pub fn max_value() -> (r: Uint256)
        ensures
            r@ == uint256_limit() - 1,
    {
        Uint256 { hi: u128::MAX, lo: u128::MAX }
    }

    /// The integer that `bytes` denote in big-endian order.
    pub fn from_be_bytes(bytes: &[u8; 32]) -> (r: Uint256)
        ensures
            r@ == be_value(bytes@),
    {
        u256_from_be_bytes(bytes)
    }

    /// `self * rhs`, or `None` if the product does not fit in 256 bits.
    pub fn checked_mul(self, rhs: Uint256) -> (r: Option<Uint256>)
        ensures
            r is Some <==> self@ * rhs@ < uint256_limit(),
            r is Some ==> r->0@ == self@ * rhs@,
    {
        let r = u256_checked_mul(self, rhs);
        proof {
            if let Some(p) = r {
                lemma_below_limit(p);
            }
        }
        r
    }

    /// `self` raised to `exp`, or `None` if the power does not fit in 256
    /// bits.
    pub fn checked_pow(self, exp: u32) -> (r: Option<Uint256>)
        ensures
            r is Some <==> pow(self@ as int, exp as nat) < uint256_limit(),
            r is Some ==> r->0@ == pow(self@ as int, exp as nat),
    {
        let r = u256_checked_pow(self, exp);
        proof {
            if let Some(p) = r {
                lemma_below_limit(p);
            }
        }
        r
    }

    /// `self / rhs`, truncated.
    pub fn div(self, rhs: Uint256) -> (r: Uint256)
        requires
            rhs@ != 0,
        ensures
            r@ == self@ / rhs@,
    {
        u256_div(self, rhs)
    }

    /// `self / rhs`, or `None` if `rhs` is zero.
    pub fn checked_div(self, rhs: Uint256) -> (r: Option<Uint256>)
        ensures
            r is Some <==> rhs@ != 0,
            r is Some ==> r->0@ == self@ / rhs@,
    {
        if rhs.hi == 0 && rhs.lo == 0 {
            None
        } else {
            Some(self.div(rhs))
        }
    }

    /// Whether `self <= other` as integers.
    pub fn le(&self, other: &Uint256) -> (b: bool)
        ensures
            b == (self@ <= other@),
    {
        self.hi < other.hi || (self.hi == other.hi && self.lo <= other.lo)
    }

    /// Whether `self > other` as integers.
    pub fn gt(&self, other: &Uint256) -> (b: bool)
        ensures
            b == (self@ > other@),
    {
        !self.le(other)
    }
}

/// Every `Uint256` denotes a number below 2^256.
pub proof fn lemma_below_limit(x: Uint256)
    ensures
        x@ < uint256_limit(),
{
}

/// Two `Uint256` values that denote the same number are the same value.
pub proof fn lemma_view_injective(x: Uint256, y: Uint256)
    requires
        x@ == y@,
    ensures
        x == y,
{
}

/// 2^256 as a power of two.
pub proof fn lemma_uint256_limit_is_pow2()
    ensures
        pow2(128) == word_base(),
        pow2(256) == uint256_limit(),
{
    lemma2_to64();
    lemma_pow2_adds(64, 64);
    lemma_pow2_adds(128, 128);
    assert(pow2(128) == word_base()) by (nonlinear_arith)
        requires
            pow2(128) == pow2(64) * pow2(64),
            pow2(64) == 0x1_0000_0000_0000_0000,
    ;
    assert(pow2(256) == uint256_limit()) by (nonlinear_arith)
        requires
            pow2(256) == pow2(128) * pow2(128),
            pow2(128) == 0x1_0000_0000_0000_0000_0000_0000_0000_0000,
    ;
}

/// A string of n bytes denotes a number below 2^(8n).
pub proof fn lemma_be_value_bound(bytes: Seq<u8>)
    ensures
        be_value(bytes) < pow2(8 * bytes.len()),
    decreases bytes.len(),
{
    lemma2_to64();
    if bytes.len() > 0 {
        let rest = bytes.drop_last();
        lemma_be_value_bound(rest);
        lemma_pow2_adds(8 * rest.len(), 8);
        assert(8 * rest.len() + 8 == 8 * bytes.len());
        assert(be_value(bytes) < pow2(8 * rest.len()) * pow2(8)) by (nonlinear_arith)
            requires
                be_value(bytes) == be_value(rest) * 256 + bytes.last() as nat,
                (bytes.last() as nat) < 256,
                be_value(rest) < pow2(8 * rest.len()),
                pow2(8) == 256,
        ;
    }
}

/// 32 bytes denote a number that fits in 256 bits.
pub proof fn lemma_be_value_fits(bytes: Seq<u8>)
    requires
        bytes.len() == 32,
    ensures
        be_value(bytes) < uint256_limit(),
{
    lemma_be_value_bound(bytes);
    lemma_uint256_limit_is_pow2();
}

} // verus!

//! Byte-level encodings shared by the header and transaction formats.

use vstd::prelude::*;

verus! {

/// The `width` least significant bytes of `value`, least significant first.
pub open spec fn le_bytes(value: nat, width: nat) -> Seq<u8>
    decreases width,
{
    if width == 0 {
        Seq::empty()
    } else {
        seq![(value % 256) as u8] + le_bytes(value / 256, (width - 1) as nat)
    }
}

/// `le_bytes` yields exactly `width` bytes.
pub proof fn lemma_le_bytes_len(value: nat, width: nat)
    ensures
        le_bytes(value, width).len() == width,
    decreases width,
{
    if width > 0 {
        lemma_le_bytes_len(value / 256, (width - 1) as nat);
    }
}

/// Append the `width` low bytes of `value` to `buf`, least significant first.
pub fn push_le(buf: &mut Vec<u8>, value: u64, width: usize)
    requires
        width <= 8,
    ensures
        final(buf)@ == old(buf)@ + le_bytes(value as nat, width as nat),
{
    let mut rest: u64 = value;
    let mut i: usize = 0;
    while i < width
        invariant
            i <= width,
            buf@ + le_bytes(rest as nat, (width - i) as nat) == old(buf)@ + le_bytes(
                value as nat,
                width as nat,
            ),
        decreases width - i,
    {
        let ghost before = buf@;
        let byte: u8 = (rest % 256) as u8;
        buf.push(byte);
        proof {
            let tail = le_bytes((rest / 256) as nat, (width - i - 1) as nat);
            assert(le_bytes(rest as nat, (width - i) as nat) == seq![byte] + tail);
            assert(buf@ + tail == before + (seq![byte] + tail));
        }
        rest = rest / 256;
        i = i + 1;
    }
    assert(buf@ + le_bytes(rest as nat, 0) == buf@);
}

/// Append `bytes` to `buf`.
pub fn push_bytes(buf: &mut Vec<u8>, bytes: &[u8])
    ensures
        final(buf)@ == old(buf)@ + bytes@,
{
    let mut i: usize = 0;
    while i < bytes.len()
        invariant
            i <= bytes@.len(),
            buf@ == old(buf)@ + bytes@.take(i as int),
        decreases bytes@.len() - i,
    {
        buf.push(bytes[i]);
        assert(bytes@.take(i + 1) == bytes@.take(i as int).push(bytes@[i as int]));
        i = i + 1;
    }
    assert(bytes@.take(i as int) == bytes@);
}

/// Whether two byte strings hold the same bytes.
pub fn bytes_eq(a: &[u8], b: &[u8]) -> (same: bool)
    ensures
        same == (a@ == b@),
{
    if a.len() != b.len() {
        return false;
    }
    let mut i: usize = 0;
    while i < a.len()
        invariant
            i <= a@.len(),
            a@.len() == b@.len(),
            a@.take(i as int) == b@.take(i as int),
        decreases a@.len() - i,
    {
        if a[i] != b[i] {
            return false;
        }
        assert(a@.take(i + 1) == a@.take(i as int).push(a@[i as int]));
        assert(b@.take(i + 1) == b@.take(i as int).push(b@[i as int]));
        i = i + 1;
    }
    assert(a@.take(i as int) == a@);
    assert(b@.take(i as int) == b@);
    true
}

} // verus!

//! Fixed-width big-endian encoding of 64-bit words, and why it keeps order.

use vstd::prelude::*;
use crate::order::{lex_from, lex_order, sign};

verus! {

/// The byte of `x` that starts `shift` bits above its lowest bit.
pub open spec fn byte_at(x: u64, shift: u64) -> u8 {
    ((x >> shift) & 0xff) as u8
}

/// The eight bytes of `x`, most significant first.
pub open spec fn be_bytes(x: u64) -> Seq<u8> {
    seq![
        byte_at(x, 56),
        byte_at(x, 48),
        byte_at(x, 40),
        byte_at(x, 32),
        byte_at(x, 24),
        byte_at(x, 16),
        byte_at(x, 8),
        byte_at(x, 0),
    ]
}

/// The word whose bytes, most significant first, are `b0` to `b7`.
pub open spec fn word_of(b0: u8, b1: u8, b2: u8, b3: u8, b4: u8, b5: u8, b6: u8, b7: u8) -> u64 {
    (b0 as u64) << 56 | (b1 as u64) << 48 | (b2 as u64) << 40 | (b3 as u64) << 32 | (b4 as u64)
        << 24 | (b5 as u64) << 16 | (b6 as u64) << 8 | (b7 as u64)
}

/// The word that the first eight bytes of `s` spell, most significant first.
pub open spec fn be_value(s: Seq<u8>) -> u64
    recommends
        s.len() >= 8,
{
    word_of(s[0], s[1], s[2], s[3], s[4], s[5], s[6], s[7])
}

fn take_byte(x: u64, shift: u64) -> (b: u8)
    requires
        shift < 64,
    ensures
        b == byte_at(x, shift),
{
    let m: u64 = (x >> shift) & 0xff;
    assert(m <= 0xff) by (bit_vector)
        requires
            m == (x >> shift) & 0xff,
    ;
    m as u8
}

/// Appends the eight bytes of `x`, most significant first, to `out`.
pub fn push_be(out: &mut Vec<u8>, x: u64)
    ensures
        final(out)@ == old(out)@ + be_bytes(x),
{
    out.push(take_byte(x, 56));
    out.push(take_byte(x, 48));
    out.push(take_byte(x, 40));
    out.push(take_byte(x, 32));
    out.push(take_byte(x, 24));
    out.push(take_byte(x, 16));
    out.push(take_byte(x, 8));
    out.push(take_byte(x, 0));
    assert(out@ =~= old(out)@ + be_bytes(x));
}

/// Reads the word that the eight bytes of `bytes` from `at` on spell.
pub(crate) fn read_be(bytes: &[u8], at: usize) -> (x: u64)
    requires
        at + 8 <= bytes.len(),
    ensures
        x == be_value(bytes@.subrange(at as int, at + 8)),
{
    let b0: u64 = bytes[at] as u64;
    let b1: u64 = bytes[at + 1] as u64;
    let b2: u64 = bytes[at + 2] as u64;
    let b3: u64 = bytes[at + 3] as u64;
    let b4: u64 = bytes[at + 4] as u64;
    let b5: u64 = bytes[at + 5] as u64;
    let b6: u64 = bytes[at + 6] as u64;
    let b7: u64 = bytes[at + 7] as u64;
    b0 << 56 | b1 << 48 | b2 << 40 | b3 << 32 | b4 << 24 | b5 << 16 | b6 << 8 | b7
}

/// The bytes of a word are its digits in base 256, the highest first.
pub proof fn lemma_bytes_are_digits(x: u64)
    by (bit_vector)
    ensures
        byte_at(x, 56) == x / 0x100_0000_0000_0000,
        byte_at(x, 48) == (x / 0x1_0000_0000_0000) % 256,
        byte_at(x, 40) == (x / 0x100_0000_0000) % 256,
        byte_at(x, 32) == (x / 0x1_0000_0000) % 256,
        byte_at(x, 24) == (x / 0x100_0000) % 256,
        byte_at(x, 16) == (x / 0x1_0000) % 256,
        byte_at(x, 8) == (x / 0x100) % 256,
        byte_at(x, 0) == x % 256,
{
}

/// Reading back the bytes of a word gives the word.
pub proof fn lemma_be_value_of_bytes(x: u64)
    ensures
        be_value(be_bytes(x)) == x,
{
    assert(word_of(
        byte_at(x, 56),
        byte_at(x, 48),
        byte_at(x, 40),
        byte_at(x, 32),
        byte_at(x, 24),
        byte_at(x, 16),
        byte_at(x, 8),
        byte_at(x, 0),
    ) == x) by (bit_vector);
}

/// Writing out the word that eight bytes spell gives those bytes again.
pub proof fn lemma_be_bytes_of_value(s: Seq<u8>)
    requires
        s.len() == 8,
    ensures
        be_bytes(be_value(s)) == s,
{
    let (b0, b1, b2, b3, b4, b5, b6, b7) = (s[0], s[1], s[2], s[3], s[4], s[5], s[6], s[7]);
    assert({
        let x = word_of(b0, b1, b2, b3, b4, b5, b6, b7);
        &&& byte_at(x, 56) == b0
        &&& byte_at(x, 48) == b1
        &&& byte_at(x, 40) == b2
        &&& byte_at(x, 32) == b3
        &&& byte_at(x, 24) == b4
        &&& byte_at(x, 16) == b5
        &&& byte_at(x, 8) == b6
        &&& byte_at(x, 0) == b7
    }) by (bit_vector);
    assert(be_bytes(be_value(s)) =~= s);
}

/// Big-endian bytes compare as the words they encode do.
pub proof fn lemma_be_keeps_order(x: u64, y: u64)
    ensures
        lex_order(be_bytes(x), be_bytes(y)) == sign(x - y),
{
    let a = be_bytes(x);
    let b = be_bytes(y);
    assert(x < y <==> (byte_at(x, 56) < byte_at(y, 56) || (byte_at(x, 56) == byte_at(y, 56) && (
    byte_at(x, 48) < byte_at(y, 48) || (byte_at(x, 48) == byte_at(y, 48) && (byte_at(x, 40)
        < byte_at(y, 40) || (byte_at(x, 40) == byte_at(y, 40) && (byte_at(x, 32) < byte_at(y, 32)
        || (byte_at(x, 32) == byte_at(y, 32) && (byte_at(x, 24) < byte_at(y, 24) || (byte_at(
        x,
        24,
    ) == byte_at(y, 24) && (byte_at(x, 16) < byte_at(y, 16) || (byte_at(x, 16) == byte_at(y, 16)
        && (byte_at(x, 8) < byte_at(y, 8) || (byte_at(x, 8) == byte_at(y, 8) && byte_at(x, 0)
        < byte_at(y, 0)))))))))))))))) by (bit_vector);
    assert(x == y <==> (byte_at(x, 56) == byte_at(y, 56) && byte_at(x, 48) == byte_at(y, 48)
        && byte_at(x, 40) == byte_at(y, 40) && byte_at(x, 32) == byte_at(y, 32) && byte_at(x, 24)
        == byte_at(y, 24) && byte_at(x, 16) == byte_at(y, 16) && byte_at(x, 8) == byte_at(y, 8)
        && byte_at(x, 0) == byte_at(y, 0))) by (bit_vector);
    reveal_with_fuel(lex_from, 9);
    assert(a.len() == 8 && b.len() == 8);
}

} // verus!

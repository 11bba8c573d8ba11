//! The key codec: typed values to byte strings whose lexicographic order is
//! the natural order of the values.

use vstd::prelude::*;
use vstd::utf8::{decode_utf8, encode_utf8, valid_utf8};
use crate::big_endian::{
    be_bytes,
    be_value,
    lemma_be_bytes_of_value,
    lemma_be_keeps_order,
    lemma_be_value_of_bytes,
    push_be,
    read_be,
};
use crate::error::StoreError;
use crate::order::{lex_from, lex_order, sign};
use crate::text_order::{lemma_utf8_keeps_order, text_order};
use crate::value::{copy_bytes, text_from_utf8, Kind, Typed, TypedValue};

verus! {

/// The value of the top bit of a 64-bit word.
pub const SIGN_BIT: u64 = 0x8000_0000_0000_0000;

/// The word that stands for the signed integer `i` in a key: `i` moved up by
/// 2^63, so that the least integer becomes 0.
pub open spec fn signed_key_word(i: i64) -> u64 {
    (i + 0x8000_0000_0000_0000) as u64
}

/// Whether the bit pattern `bits` is a NaN: all exponent bits set and a
/// mantissa that is not zero.
pub open spec fn is_nan(bits: u64) -> bool {
    (if bits >= SIGN_BIT {
        bits - SIGN_BIT
    } else {
        bits as int
    }) > 0x7ff0_0000_0000_0000
}

/// Where the float with bit pattern `bits` stands among the floats: its
/// magnitude bits read as an integer, negated where the sign bit is set.
/// Floats that are no NaN are ordered as their ranks are, and the two zeros
/// share rank 0.
pub open spec fn float_rank(bits: u64) -> int {
    if bits >= SIGN_BIT {
        -(bits - SIGN_BIT)
    } else {
        bits as int
    }
}

/// The word that stands for a float in a key: a pattern with the sign bit set
/// is complemented, any other gets the sign bit set.
pub open spec fn float_key_word(bits: u64) -> u64 {
    if bits >= SIGN_BIT {
        (0xffff_ffff_ffff_ffff - bits) as u64
    } else {
        (bits + SIGN_BIT) as u64
    }
}

/// The key bytes of a value, or `None` for a value that cannot be a key.
pub open spec fn key_of(v: Typed) -> Option<Seq<u8>> {
    match v {
        Typed::Unsigned(x) => Some(be_bytes(x)),
        Typed::Signed(i) => Some(be_bytes(signed_key_word(i))),
        Typed::Float(bits) => Some(be_bytes(float_key_word(bits))),
        Typed::Bool(b) => Some(
            seq![if b {
                1u8
            } else {
                0u8
            }],
        ),
        Typed::Text(s) => Some(encode_utf8(s)),
        Typed::Bytes(b) => Some(b),
        Typed::Opaque(_) => None,
    }
}

/// Flips the sign bit of `i`'s two's complement pattern.
pub fn signed_to_key_word(i: i64) -> (w: u64)
    ensures
        w == signed_key_word(i),
{
    let w: u64 = (i as u64) ^ 0x8000_0000_0000_0000u64;
    assert(w == (i + 0x8000_0000_0000_0000) as u64) by (bit_vector)
        requires
            w == (i as u64) ^ 0x8000_0000_0000_0000u64,
    ;
    w
}

/// Applies the order-preserving transform to a float's bit pattern.
pub fn float_to_key_word(bits: u64) -> (w: u64)
    ensures
        w == float_key_word(bits),
{
    if bits & 0x8000_0000_0000_0000u64 != 0 {
        assert(bits >= 0x8000_0000_0000_0000u64 && !bits == (0xffff_ffff_ffff_ffff - bits) as u64)
            by (bit_vector)
            requires
                bits & 0x8000_0000_0000_0000u64 != 0,
        ;
        !bits
    } else {
        assert(bits < 0x8000_0000_0000_0000u64 && bits | 0x8000_0000_0000_0000u64 == (bits
            + 0x8000_0000_0000_0000u64) as u64) by (bit_vector)
            requires
                bits & 0x8000_0000_0000_0000u64 == 0,
        ;
        bits | 0x8000_0000_0000_0000u64
    }
}

/// Encodes a value as a key.
///
/// Fails with `UnsupportedKeyType` exactly on an opaque value; on every other
/// value the result is the key that [`key_of`] describes.
pub fn encode_key(value: &TypedValue) -> (r: Result<Vec<u8>, StoreError>)
    ensures
        match key_of(value@) {
            Some(key) => r is Ok && r->Ok_0@ == key,
            None => r == Err::<Vec<u8>, StoreError>(StoreError::UnsupportedKeyType),
        },
{
    match value {
        TypedValue::Unsigned(x) => {
            let mut out: Vec<u8> = Vec::with_capacity(8);
            push_be(&mut out, *x);
            assert(out@ =~= be_bytes(*x));
            Ok(out)
        },
        TypedValue::Signed(i) => {
            let mut out: Vec<u8> = Vec::with_capacity(8);
            push_be(&mut out, signed_to_key_word(*i));
            assert(out@ =~= be_bytes(signed_key_word(*i)));
            Ok(out)
        },
        TypedValue::Float(bits) => {
            let mut out: Vec<u8> = Vec::with_capacity(8);
            push_be(&mut out, float_to_key_word(*bits));
            assert(out@ =~= be_bytes(float_key_word(*bits)));
            Ok(out)
        },
        TypedValue::Bool(b) => {
            let mut out: Vec<u8> = Vec::with_capacity(1);
            out.push(if *b {
                1u8
            } else {
                0u8
            });
            assert(out@ =~= key_of(value@).unwrap());
            Ok(out)
        },
        TypedValue::Text(s) => Ok(copy_bytes(s.as_str().as_bytes())),
        TypedValue::Bytes(b) => Ok(copy_bytes(b.as_slice())),
        TypedValue::Opaque(_) => Err(StoreError::UnsupportedKeyType),
    }
}

/// The signed integer that the key word `w` stands for.
pub open spec fn signed_of_key_word(w: u64) -> i64 {
    (w - 0x8000_0000_0000_0000) as i64
}

/// The float bit pattern that the key word `w` stands for.
pub open spec fn float_of_key_word(w: u64) -> u64 {
    if w >= SIGN_BIT {
        (w - SIGN_BIT) as u64
    } else {
        (0xffff_ffff_ffff_ffff - w) as u64
    }
}

/// The value of kind `kind` whose key is `key`, or `None` where there is
/// none: where the kind is opaque, the length is not that of the kind, a
/// boolean's byte is neither 0 nor 1, or a text's bytes are not UTF-8.
pub open spec fn value_of_key(kind: Kind, key: Seq<u8>) -> Option<Typed> {
    match kind {
        Kind::Unsigned => if key.len() == 8 {
            Some(Typed::Unsigned(be_value(key)))
        } else {
            None
        },
        Kind::Signed => if key.len() == 8 {
            Some(Typed::Signed(signed_of_key_word(be_value(key))))
        } else {
            None
        },
        Kind::Float => if key.len() == 8 {
            Some(Typed::Float(float_of_key_word(be_value(key))))
        } else {
            None
        },
        Kind::Bool => if key.len() == 1 && key[0] <= 1 {
            Some(Typed::Bool(key[0] == 1))
        } else {
            None
        },
        Kind::Text => if valid_utf8(key) {
            Some(Typed::Text(decode_utf8(key)))
        } else {
            None
        },
        Kind::Bytes => Some(Typed::Bytes(key)),
        Kind::Opaque => None,
    }
}

/// Undoes the flip of the sign bit.
pub fn key_word_to_signed(w: u64) -> (i: i64)
    ensures
        i == signed_of_key_word(w),
{
    let i: i64 = (w ^ 0x8000_0000_0000_0000u64) as i64;
    assert(i == (w - 0x8000_0000_0000_0000) as i64) by (bit_vector)
        requires
            i == (w ^ 0x8000_0000_0000_0000u64) as i64,
    ;
    i
}

/// Undoes the order-preserving transform of a float's bit pattern.
pub fn key_word_to_float(w: u64) -> (bits: u64)
    ensures
        bits == float_of_key_word(w),
{
    if w & 0x8000_0000_0000_0000u64 != 0 {
        assert(w >= 0x8000_0000_0000_0000u64 && w & 0x7fff_ffff_ffff_ffffu64 == (w
            - 0x8000_0000_0000_0000u64) as u64) by (bit_vector)
            requires
                w & 0x8000_0000_0000_0000u64 != 0,
        ;
        w & 0x7fff_ffff_ffff_ffffu64
    } else {
        assert(w < 0x8000_0000_0000_0000u64 && !w == (0xffff_ffff_ffff_ffff - w) as u64)
            by (bit_vector)
            requires
                w & 0x8000_0000_0000_0000u64 == 0,
        ;
        !w
    }
}

/// Reads a key of kind `kind` back into the value it was made from.
///
/// Fails with `UnsupportedKeyType` for the opaque kind, which has no keys,
/// and with `CorruptEncoding` where `key` is the key of no value of that
/// kind; otherwise gives the value that [`value_of_key`] describes.
pub fn decode_key(kind: Kind, key: &[u8]) -> (r: Result<TypedValue, StoreError>)
    ensures
        match value_of_key(kind, key@) {
            Some(v) => r is Ok && r->Ok_0@ == v,
            None => r == Err::<TypedValue, StoreError>(
                if kind == Kind::Opaque {
                    StoreError::UnsupportedKeyType
                } else {
                    StoreError::CorruptEncoding
                },
            ),
        },
{
    match kind {
        Kind::Unsigned | Kind::Signed | Kind::Float => {
            if key.len() != 8 {
                return Err(StoreError::CorruptEncoding);
            }
            let word = read_be(key, 0);
            assert(key@.subrange(0, 8) =~= key@);
            match kind {
                Kind::Unsigned => Ok(TypedValue::Unsigned(word)),
                Kind::Signed => Ok(TypedValue::Signed(key_word_to_signed(word))),
                _ => Ok(TypedValue::Float(key_word_to_float(word))),
            }
        },
        Kind::Bool => {
            if key.len() != 1 || key[0] > 1 {
                return Err(StoreError::CorruptEncoding);
            }
            Ok(TypedValue::Bool(key[0] == 1))
        },
        Kind::Text => match text_from_utf8(copy_bytes(key)) {
            Some(text) => {
                proof {
                    vstd::utf8::encode_utf8_decode_utf8(text@);
                }
                Ok(TypedValue::Text(text))
            },
            None => Err(StoreError::CorruptEncoding),
        },
        Kind::Bytes => Ok(TypedValue::Bytes(copy_bytes(key))),
        Kind::Opaque => Err(StoreError::UnsupportedKeyType),
    }
}

/// Reading back the key of a value gives the value, so two values of one
/// kind never share a key.
pub proof fn lemma_key_round_trip(v: Typed)
    requires
        v.kind() != Kind::Opaque,
    ensures
        key_of(v) is Some,
        value_of_key(v.kind(), key_of(v)->Some_0) == Some(v),
{
    match v {
        Typed::Unsigned(x) => {
            lemma_be_value_of_bytes(x);
        },
        Typed::Signed(i) => {
            lemma_be_value_of_bytes(signed_key_word(i));
        },
        Typed::Float(bits) => {
            lemma_be_value_of_bytes(float_key_word(bits));
        },
        Typed::Bool(b) => {},
        Typed::Text(s) => {
            vstd::utf8::encode_utf8_valid_utf8(s);
            vstd::utf8::encode_utf8_decode_utf8(s);
        },
        Typed::Bytes(b) => {},
        Typed::Opaque(b) => {},
    }
}

/// Bytes that read back as a value of a kind are that value's key.
pub proof fn lemma_read_key_is_the_key(kind: Kind, key: Seq<u8>)
    requires
        value_of_key(kind, key) is Some,
    ensures
        value_of_key(kind, key)->Some_0.kind() == kind,
        key_of(value_of_key(kind, key)->Some_0) == Some(key),
{
    match kind {
        Kind::Unsigned | Kind::Signed | Kind::Float => {
            lemma_be_bytes_of_value(key);
        },
        Kind::Bool => {
            assert(key_of(value_of_key(kind, key)->Some_0)->Some_0 =~= key);
        },
        Kind::Text => {
            vstd::utf8::decode_utf8_encode_utf8(key);
        },
        _ => {},
    }
}

/// The natural order of two values of one kind, as -1, 0 or 1: numbers by
/// value, floats by rank, `false` before `true`, text by code point, bytes
/// lexicographically. Between values of two kinds, and between opaque
/// values, it is not defined.
pub open spec fn compare_semantic(a: Typed, b: Typed) -> int
    recommends
        a.kind() == b.kind(),
{
    match (a, b) {
        (Typed::Unsigned(x), Typed::Unsigned(y)) => sign(x - y),
        (Typed::Signed(x), Typed::Signed(y)) => sign(x - y),
        (Typed::Float(x), Typed::Float(y)) => sign(float_rank(x) - float_rank(y)),
        (Typed::Bool(x), Typed::Bool(y)) => if x == y {
            0
        } else if y {
            -1
        } else {
            1
        },
        (Typed::Text(s), Typed::Text(t)) => text_order(s, t),
        (Typed::Bytes(s), Typed::Bytes(t)) => lex_order(s, t),
        _ => arbitrary(),
    }
}

/// Whether the natural order of `a` and `b` is one that keys can show: both
/// are of one kind that can be a key, and where they are floats, neither is a
/// NaN and they are not the two zeros, which are equal as numbers and differ
/// as keys.
pub open spec fn ordered_pair(a: Typed, b: Typed) -> bool {
    &&& a.kind() == b.kind()
    &&& a.kind() != Kind::Opaque
    &&& match (a, b) {
        (Typed::Float(x), Typed::Float(y)) => !is_nan(x) && !is_nan(y) && (float_rank(x)
            == float_rank(y) ==> x == y),
        _ => true,
    }
}

/// Keys of signed integers compare as the integers do.
pub proof fn lemma_signed_keys_ordered(x: i64, y: i64)
    ensures
        lex_order(be_bytes(signed_key_word(x)), be_bytes(signed_key_word(y))) == sign(x - y),
{
    lemma_be_keeps_order(signed_key_word(x), signed_key_word(y));
}

/// Keys of floats compare as the floats' ranks do, but for the two zeros.
pub proof fn lemma_float_keys_ordered(x: u64, y: u64)
    requires
        float_rank(x) == float_rank(y) ==> x == y,
    ensures
        lex_order(be_bytes(float_key_word(x)), be_bytes(float_key_word(y))) == sign(
            float_rank(x) - float_rank(y),
        ),
{
    lemma_be_keeps_order(float_key_word(x), float_key_word(y));
}

/// The keys of the two zeros are neighbours: that of negative zero comes
/// directly before that of positive zero.
pub proof fn lemma_zero_keys_adjacent()
    ensures
        float_key_word(SIGN_BIT) + 1 == float_key_word(0),
{
}

/// Order preservation: the keys of two values of one kind compare, byte by
/// byte, as the values themselves do.
pub proof fn lemma_keys_keep_order(a: Typed, b: Typed)
    requires
        ordered_pair(a, b),
    ensures
        key_of(a) is Some,
        key_of(b) is Some,
        lex_order(key_of(a)->Some_0, key_of(b)->Some_0) == compare_semantic(a, b),
{
    match (a, b) {
        (Typed::Unsigned(x), Typed::Unsigned(y)) => {
            lemma_be_keeps_order(x, y);
        },
        (Typed::Signed(x), Typed::Signed(y)) => {
            lemma_signed_keys_ordered(x, y);
        },
        (Typed::Float(x), Typed::Float(y)) => {
            lemma_float_keys_ordered(x, y);
        },
        (Typed::Bool(x), Typed::Bool(y)) => {
            reveal_with_fuel(lex_from, 2);
        },
        (Typed::Text(s), Typed::Text(t)) => {
            lemma_utf8_keeps_order(s, t);
        },
        _ => {},
    }
}

} // verus!

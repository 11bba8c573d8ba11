//! The value codec: a typed value as one tag byte and a payload, and back.

use vstd::prelude::*;
use vstd::utf8::{decode_utf8, encode_utf8, valid_utf8};
use crate::big_endian::{
    be_bytes,
    be_value,
    lemma_be_bytes_of_value,
    lemma_be_value_of_bytes,
    push_be,
    read_be,
};
use crate::error::StoreError;
use crate::value::{text_from_utf8, Kind, Typed, TypedValue};

verus! {

/// The tag of an unsigned integer.
pub const TAG_UNSIGNED: u8 = 1;

/// The tag of a signed integer.
pub const TAG_SIGNED: u8 = 2;

/// The tag of a float.
pub const TAG_FLOAT: u8 = 3;

/// The tag of a boolean.
pub const TAG_BOOL: u8 = 4;

/// The tag of a text.
pub const TAG_TEXT: u8 = 5;

/// The tag of raw bytes.
pub const TAG_BYTES: u8 = 6;

/// The tag of an opaque value.
pub const TAG_OPAQUE: u8 = 7;

/// The tag byte that starts the encoding of a value of kind `k`.
pub open spec fn tag_of(k: Kind) -> u8 {
    match k {
        Kind::Unsigned => TAG_UNSIGNED,
        Kind::Signed => TAG_SIGNED,
        Kind::Float => TAG_FLOAT,
        Kind::Bool => TAG_BOOL,
        Kind::Text => TAG_TEXT,
        Kind::Bytes => TAG_BYTES,
        Kind::Opaque => TAG_OPAQUE,
    }
}

/// The two's complement pattern of `i`.
pub open spec fn twos_word(i: i64) -> u64 {
    if i < 0 {
        (i + 0x1_0000_0000_0000_0000) as u64
    } else {
        i as u64
    }
}

/// The signed integer whose two's complement pattern is `w`.
pub open spec fn twos_value(w: u64) -> i64 {
    if w >= 0x8000_0000_0000_0000 {
        (w - 0x1_0000_0000_0000_0000) as i64
    } else {
        w as i64
    }
}

/// What follows the tag in the encoding of `v`: eight big-endian bytes for a
/// number or a float, one byte for a boolean, and the bytes as they are, to
/// the end, for text, raw bytes and opaque values.
pub open spec fn payload_of(v: Typed) -> Seq<u8> {
    match v {
        Typed::Unsigned(x) => be_bytes(x),
        Typed::Signed(i) => be_bytes(twos_word(i)),
        Typed::Float(bits) => be_bytes(bits),
        Typed::Bool(b) => seq![if b {
            1u8
        } else {
            0u8
        }],
        Typed::Text(s) => encode_utf8(s),
        Typed::Bytes(b) => b,
        Typed::Opaque(b) => b,
    }
}

/// The encoding of `v`: its kind's tag, then its payload.
pub open spec fn encoding_of(v: Typed) -> Seq<u8> {
    seq![tag_of(v.kind())] + payload_of(v)
}

/// The value that `bytes` encode, or `None` where they encode none: where
/// they are empty, start with an unknown tag, or carry a payload that is not
/// of the shape that the tag asks for.
pub open spec fn decoding_of(bytes: Seq<u8>) -> Option<Typed> {
    if bytes.len() == 0 {
        None
    } else {
        let payload = bytes.subrange(1, bytes.len() as int);
        let tag = bytes[0];
        if tag == TAG_UNSIGNED {
            if payload.len() == 8 {
                Some(Typed::Unsigned(be_value(payload)))
            } else {
                None
            }
        } else if tag == TAG_SIGNED {
            if payload.len() == 8 {
                Some(Typed::Signed(twos_value(be_value(payload))))
            } else {
                None
            }
        } else if tag == TAG_FLOAT {
            if payload.len() == 8 {
                Some(Typed::Float(be_value(payload)))
            } else {
                None
            }
        } else if tag == TAG_BOOL {
            if payload.len() == 1 && payload[0] <= 1 {
                Some(Typed::Bool(payload[0] == 1))
            } else {
                None
            }
        } else if tag == TAG_TEXT {
            if valid_utf8(payload) {
                Some(Typed::Text(decode_utf8(payload)))
            } else {
                None
            }
        } else if tag == TAG_BYTES {
            Some(Typed::Bytes(payload))
        } else if tag == TAG_OPAQUE {
            Some(Typed::Opaque(payload))
        } else {
            None
        }
    }
}

/// The two's complement pattern of `i`.
pub fn signed_to_word(i: i64) -> (w: u64)
    ensures
        w == twos_word(i),
{
    let w: u64 = i as u64;
    assert(w == if i < 0 {
        (i + 0x1_0000_0000_0000_0000) as u64
    } else {
        i as u64
    }) by (bit_vector)
        requires
            w == i as u64,
    ;
    w
}

/// The signed integer with two's complement pattern `w`.
pub fn word_to_signed(w: u64) -> (i: i64)
    ensures
        i == twos_value(w),
{
    let i: i64 = w as i64;
    assert(i == if w >= 0x8000_0000_0000_0000u64 {
        (w - 0x1_0000_0000_0000_0000) as i64
    } else {
        w as i64
    }) by (bit_vector)
        requires
            i == w as i64,
    ;
    i
}

fn push_all(out: &mut Vec<u8>, bytes: &[u8])
    ensures
        final(out)@ == old(out)@ + bytes@,
{
    let mut i: usize = 0;
    while i < bytes.len()
        invariant
            i <= bytes.len(),
            out@ == old(out)@ + bytes@.subrange(0, i as int),
        decreases bytes.len() - i,
    {
        out.push(bytes[i]);
        assert(out@ =~= old(out)@ + bytes@.subrange(0, i + 1));
        i += 1;
    }
    assert(out@ =~= old(out)@ + bytes@);
}

fn copy_from(bytes: &[u8], start: usize) -> (out: Vec<u8>)
    requires
        start <= bytes.len(),
    ensures
        out@ == bytes@.subrange(start as int, bytes.len() as int),
{
    let mut out: Vec<u8> = Vec::new();
    let mut i: usize = start;
    while i < bytes.len()
        invariant
            start <= i <= bytes.len(),
            out@ == bytes@.subrange(start as int, i as int),
        decreases bytes.len() - i,
    {
        out.push(bytes[i]);
        assert(out@ =~= bytes@.subrange(start as int, i + 1));
        i += 1;
    }
    out
}

/// Encodes a value: one tag byte, then the payload. Every value has an
/// encoding.
pub fn encode_value(value: &TypedValue) -> (out: Vec<u8>)
    ensures
        out@ == encoding_of(value@),
{
    let mut out: Vec<u8> = Vec::new();
    match value {
        TypedValue::Unsigned(x) => {
            out.push(TAG_UNSIGNED);
            push_be(&mut out, *x);
        },
        TypedValue::Signed(i) => {
            out.push(TAG_SIGNED);
            push_be(&mut out, signed_to_word(*i));
        },
        TypedValue::Float(bits) => {
            out.push(TAG_FLOAT);
            push_be(&mut out, *bits);
        },
        TypedValue::Bool(b) => {
            out.push(TAG_BOOL);
            out.push(if *b {
                1u8
            } else {
                0u8
            });
        },
        TypedValue::Text(s) => {
            out.push(TAG_TEXT);
            push_all(&mut out, s.as_str().as_bytes());
        },
        TypedValue::Bytes(b) => {
            out.push(TAG_BYTES);
            push_all(&mut out, b.as_slice());
        },
        TypedValue::Opaque(b) => {
            out.push(TAG_OPAQUE);
            push_all(&mut out, b.as_slice());
        },
    }
    assert(out@ =~= encoding_of(value@));
    out
}

/// Decodes stored bytes.
///
/// Fails with `CorruptEncoding` exactly where the bytes encode no value (see
/// [`decoding_of`]); otherwise gives the value that they encode.
pub fn decode_value(bytes: &[u8]) -> (r: Result<TypedValue, StoreError>)
    ensures
        match decoding_of(bytes@) {
            Some(v) => r is Ok && r->Ok_0@ == v,
            None => r == Err::<TypedValue, StoreError>(StoreError::CorruptEncoding),
        },
{
    if bytes.len() == 0 {
        return Err(StoreError::CorruptEncoding);
    }
    let tag = bytes[0];
    let ghost payload = bytes@.subrange(1, bytes@.len() as int);
    if tag == TAG_UNSIGNED || tag == TAG_SIGNED || tag == TAG_FLOAT {
        if bytes.len() != 9 {
            return Err(StoreError::CorruptEncoding);
        }
        let word = read_be(bytes, 1);
        assert(bytes@.subrange(1, 9) =~= payload);
        if tag == TAG_UNSIGNED {
            Ok(TypedValue::Unsigned(word))
        } else if tag == TAG_SIGNED {
            Ok(TypedValue::Signed(word_to_signed(word)))
        } else {
            Ok(TypedValue::Float(word))
        }
    } else if tag == TAG_BOOL {
        if bytes.len() != 2 || bytes[1] > 1 {
            return Err(StoreError::CorruptEncoding);
        }
        Ok(TypedValue::Bool(bytes[1] == 1))
    } else if tag == TAG_TEXT {
        match text_from_utf8(copy_from(bytes, 1)) {
            Some(text) => {
                proof {
                    vstd::utf8::encode_utf8_decode_utf8(text@);
                }
                Ok(TypedValue::Text(text))
            },
            None => Err(StoreError::CorruptEncoding),
        }
    } else if tag == TAG_BYTES {
        Ok(TypedValue::Bytes(copy_from(bytes, 1)))
    } else if tag == TAG_OPAQUE {
        Ok(TypedValue::Opaque(copy_from(bytes, 1)))
    } else {
        Err(StoreError::CorruptEncoding)
    }
}

/// Decoding what was encoded gives the value back.
pub proof fn lemma_round_trip(v: Typed)
    ensures
        decoding_of(encoding_of(v)) == Some(v),
{
    let bytes = encoding_of(v);
    let payload = bytes.subrange(1, bytes.len() as int);
    assert(payload =~= payload_of(v));
    match v {
        Typed::Unsigned(x) => {
            lemma_be_value_of_bytes(x);
        },
        Typed::Signed(i) => {
            lemma_be_value_of_bytes(twos_word(i));
        },
        Typed::Float(bits) => {
            lemma_be_value_of_bytes(bits);
        },
        Typed::Bool(b) => {},
        Typed::Text(s) => {
            vstd::utf8::encode_utf8_valid_utf8(s);
            vstd::utf8::encode_utf8_decode_utf8(s);
        },
        Typed::Bytes(b) => {},
        Typed::Opaque(b) => {},
    }
}

/// Bytes that decode to a value are that value's encoding, so no two byte
/// strings decode to one value.
pub proof fn lemma_decoded_bytes_are_the_encoding(bytes: Seq<u8>)
    requires
        decoding_of(bytes) is Some,
    ensures
        encoding_of(decoding_of(bytes)->Some_0) == bytes,
{
    let payload = bytes.subrange(1, bytes.len() as int);
    let v = decoding_of(bytes)->Some_0;
    let tag = bytes[0];
    if tag == TAG_UNSIGNED || tag == TAG_SIGNED || tag == TAG_FLOAT {
        lemma_be_bytes_of_value(payload);
    } else if tag == TAG_TEXT {
        vstd::utf8::decode_utf8_encode_utf8(payload);
    }
    assert(payload_of(v) =~= payload);
    assert(encoding_of(v) =~= bytes);
}

/// A decoded value is of the kind that the first byte names: no byte string
/// decodes to a value of another type than its tag's.
pub proof fn lemma_tag_decides_kind(bytes: Seq<u8>)
    requires
        decoding_of(bytes) is Some,
    ensures
        bytes.len() >= 1,
        bytes[0] == tag_of(decoding_of(bytes)->Some_0.kind()),
{
}

/// Bytes that start with no known tag decode to nothing.
pub proof fn lemma_unknown_tag_is_corrupt(bytes: Seq<u8>)
    requires
        bytes.len() == 0 || bytes[0] < TAG_UNSIGNED || bytes[0] > TAG_OPAQUE,
    ensures
        decoding_of(bytes) is None,
{
}

/// Cutting the encoding of a number, a float or a boolean short anywhere
/// leaves bytes that decode to nothing.
pub proof fn lemma_truncation_is_corrupt(v: Typed, n: int)
    requires
        v is Unsigned || v is Signed || v is Float || v is Bool,
        0 <= n < encoding_of(v).len(),
    ensures
        decoding_of(encoding_of(v).subrange(0, n)) is None,
{
}

} // verus!

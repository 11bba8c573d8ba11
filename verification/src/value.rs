//! Typed values: what callers store and get back.

use vstd::prelude::*;
use vstd::utf8::{encode_utf8, valid_utf8};

verus! {

/// A value of one of the kinds that the store understands.
///
/// A float is held as its IEEE 754 binary64 bit pattern, which is what both
/// codecs work on. An opaque value is anything else, already turned into
/// bytes by the caller's serializer.
#[derive(Clone, Debug, PartialEq, Eq)]
pub enum TypedValue {
    Unsigned(u64),
    Signed(i64),
    Float(u64),
    Bool(bool),
    Text(String),
    Bytes(Vec<u8>),
    Opaque(Vec<u8>),
}

/// The mathematical content of a [`TypedValue`].
pub enum Typed {
    Unsigned(u64),
    Signed(i64),
    Float(u64),
    Bool(bool),
    Text(Seq<char>),
    Bytes(Seq<u8>),
    Opaque(Seq<u8>),
}

/// The kinds of typed value, in the order of their tags.
#[derive(Clone, Copy, Debug, PartialEq, Eq, Structural)]
pub enum Kind {
    Unsigned,
    Signed,
    Float,
    Bool,
    Text,
    Bytes,
    Opaque,
}

impl Typed {
    /// The kind of this value.
    pub open spec fn kind(self) -> Kind {
        match self {
            Typed::Unsigned(_) => Kind::Unsigned,
            Typed::Signed(_) => Kind::Signed,
            Typed::Float(_) => Kind::Float,
            Typed::Bool(_) => Kind::Bool,
            Typed::Text(_) => Kind::Text,
            Typed::Bytes(_) => Kind::Bytes,
            Typed::Opaque(_) => Kind::Opaque,
        }
    }
}

impl View for TypedValue {
    type V = Typed;

    open spec fn view(&self) -> Typed {
        match self {
            TypedValue::Unsigned(x) => Typed::Unsigned(*x),
            TypedValue::Signed(x) => Typed::Signed(*x),
            TypedValue::Float(bits) => Typed::Float(*bits),
            TypedValue::Bool(b) => Typed::Bool(*b),
            TypedValue::Text(s) => Typed::Text(s@),
            TypedValue::Bytes(b) => Typed::Bytes(b@),
            TypedValue::Opaque(b) => Typed::Opaque(b@),
        }
    }
}

impl TypedValue {
    /// The kind of this value.
    pub fn kind(&self) -> (k: Kind)
        ensures
            k == self@.kind(),
    {
        match self {
            TypedValue::Unsigned(_) => Kind::Unsigned,
            TypedValue::Signed(_) => Kind::Signed,
            TypedValue::Float(_) => Kind::Float,
            TypedValue::Bool(_) => Kind::Bool,
            TypedValue::Text(_) => Kind::Text,
            TypedValue::Bytes(_) => Kind::Bytes,
            TypedValue::Opaque(_) => Kind::Opaque,
        }
    }
}

/// A copy of `bytes`.
pub fn copy_bytes(bytes: &[u8]) -> (out: Vec<u8>)
    ensures
        out@ == bytes@,
{
    let mut out: Vec<u8> = Vec::with_capacity(bytes.len());
    let mut i: usize = 0;
    while i < bytes.len()
        invariant
            i <= bytes.len(),
            out@ == bytes@.subrange(0, i as int),
        decreases bytes.len() - i,
    {
        out.push(bytes[i]);
        assert(out@ =~= bytes@.subrange(0, i + 1));
        i += 1;
    }
    assert(out@ =~= bytes@);
    out
}

/// `String::from_utf8` of std: the text whose UTF-8 bytes are `bytes`, or
/// `None` where `bytes` are not well-formed UTF-8. The text that comes back
/// has exactly the bytes that were handed in.
#[verifier::external_body]
pub(crate) fn text_from_utf8(bytes: Vec<u8>) -> (text: Option<String>)
    ensures
        text is Some <==> valid_utf8(bytes@),
        text is Some ==> encode_utf8(text->Some_0@) == bytes@,
{
    match String::from_utf8(bytes) {
        Ok(s) => Some(s),
        Err(_) => None,
    }
}

} // verus!

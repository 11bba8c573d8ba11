//! Why UTF-8 keeps order: the bytes of two texts compare as the texts do by
//! code point.

use vstd::prelude::*;
use vstd::utf8::{
    char_is_scalar,
    encode_scalar,
    encode_utf8,
    has_width_1_encoding,
    has_width_2_encoding,
    has_width_3_encoding,
    has_width_4_encoding,
    is_scalar,
    last_continuation_byte,
    leading_byte_width_1,
    leading_byte_width_2,
    leading_byte_width_3,
    leading_byte_width_4,
    second_last_continuation_byte,
    third_last_continuation_byte,
};
use crate::order::{lemma_lex_swap, lex_from, lex_order};

verus! {

/// Compares two sequences of characters by code point, position by position
/// from `i` on; where one ends first, it is the smaller.
pub open spec fn text_order_from(s: Seq<char>, t: Seq<char>, i: nat) -> int
    decreases s.len() - i,
{
    if i >= s.len() && i >= t.len() {
        0
    } else if i >= s.len() {
        -1
    } else if i >= t.len() {
        1
    } else if (s[i as int] as u32) < (t[i as int] as u32) {
        -1
    } else if (s[i as int] as u32) > (t[i as int] as u32) {
        1
    } else {
        text_order_from(s, t, i + 1)
    }
}

/// The order of two texts by code point: -1, 0 or 1.
pub open spec fn text_order(s: Seq<char>, t: Seq<char>) -> int {
    text_order_from(s, t, 0)
}

/// Whether `x` and `y` agree before position `p` and `x` has the smaller byte
/// there.
pub open spec fn smaller_at(x: Seq<u8>, y: Seq<u8>, p: int) -> bool {
    &&& 0 <= p < x.len()
    &&& p < y.len()
    &&& x[p] < y[p]
    &&& forall|i: int| 0 <= i < p ==> x[i] == y[i]
}

proof fn lemma_leading_ranges(c: u32)
    by (bit_vector)
    ensures
        leading_byte_width_1(c) <= 0x7f,
        0xc0 <= leading_byte_width_2(c) <= 0xdf,
        0xe0 <= leading_byte_width_3(c) <= 0xef,
        0xf0 <= leading_byte_width_4(c) <= 0xf7,
{
}

proof fn lemma_width_1_order(c: u32, d: u32)
    by (bit_vector)
    requires
        has_width_1_encoding(c),
        has_width_1_encoding(d),
        c < d,
    ensures
        leading_byte_width_1(c) < leading_byte_width_1(d),
{
}

proof fn lemma_width_2_order(c: u32, d: u32)
    by (bit_vector)
    requires
        has_width_2_encoding(c),
        has_width_2_encoding(d),
        c < d,
    ensures
        leading_byte_width_2(c) < leading_byte_width_2(d) || (leading_byte_width_2(c)
            == leading_byte_width_2(d) && last_continuation_byte(c) < last_continuation_byte(d)),
{
}

proof fn lemma_width_3_order(c: u32, d: u32)
    by (bit_vector)
    requires
        0x800 <= c <= 0xffff,
        0x800 <= d <= 0xffff,
        c < d,
    ensures
        leading_byte_width_3(c) < leading_byte_width_3(d) || (leading_byte_width_3(c)
            == leading_byte_width_3(d) && (second_last_continuation_byte(c)
            < second_last_continuation_byte(d) || (second_last_continuation_byte(c)
            == second_last_continuation_byte(d) && last_continuation_byte(c)
            < last_continuation_byte(d)))),
{
}

proof fn lemma_width_4_order(c: u32, d: u32)
    by (bit_vector)
    requires
        has_width_4_encoding(c),
        has_width_4_encoding(d),
        c < d,
    ensures
        leading_byte_width_4(c) < leading_byte_width_4(d) || (leading_byte_width_4(c)
            == leading_byte_width_4(d) && (third_last_continuation_byte(c)
            < third_last_continuation_byte(d) || (third_last_continuation_byte(c)
            == third_last_continuation_byte(d) && (second_last_continuation_byte(c)
            < second_last_continuation_byte(d) || (second_last_continuation_byte(c)
            == second_last_continuation_byte(d) && last_continuation_byte(c)
            < last_continuation_byte(d)))))),
{
}

/// The encodings of two scalar values differ first at a byte that both have,
/// and the smaller value has the smaller byte there.
pub proof fn lemma_scalar_encodings_ordered(c: u32, d: u32) -> (p: int)
    requires
        is_scalar(c),
        is_scalar(d),
        c < d,
    ensures
        smaller_at(encode_scalar(c), encode_scalar(d), p),
{
    let x = encode_scalar(c);
    let y = encode_scalar(d);
    lemma_leading_ranges(c);
    lemma_leading_ranges(d);
    if has_width_1_encoding(c) {
        if has_width_1_encoding(d) {
            lemma_width_1_order(c, d);
        }
        0
    } else if has_width_2_encoding(c) {
        if has_width_2_encoding(d) {
            lemma_width_2_order(c, d);
            if x[0] < y[0] {
                0
            } else {
                1
            }
        } else {
            0
        }
    } else if has_width_3_encoding(c) {
        if has_width_3_encoding(d) {
            lemma_width_3_order(c, d);
            if x[0] < y[0] {
                0
            } else if x[1] < y[1] {
                1
            } else {
                2
            }
        } else {
            0
        }
    } else {
        lemma_width_4_order(c, d);
        if x[0] < y[0] {
            0
        } else if x[1] < y[1] {
            1
        } else if x[2] < y[2] {
            2
        } else {
            3
        }
    }
}

/// Where `x` has the smaller byte at the first difference from `y`, `x`
/// followed by anything sorts before `y` followed by anything.
pub proof fn lemma_first_difference_decides(
    x: Seq<u8>,
    y: Seq<u8>,
    p: int,
    u: Seq<u8>,
    v: Seq<u8>,
    i: nat,
)
    requires
        smaller_at(x, y, p),
        i <= p,
    ensures
        lex_from(x + u, y + v, i) == -1,
    decreases p - i,
{
    assert((x + u)[i as int] == x[i as int]);
    assert((y + v)[i as int] == y[i as int]);
    if i < p {
        lemma_first_difference_decides(x, y, p, u, v, i + 1);
    }
}

/// A common prefix does not change how two byte strings compare.
pub proof fn lemma_common_prefix(x: Seq<u8>, u: Seq<u8>, v: Seq<u8>)
    ensures
        lex_order(x + u, x + v) == lex_order(u, v),
{
    lemma_skip_prefix(x, u, v, 0);
    lemma_after_prefix(x, u, v, 0);
}

proof fn lemma_skip_prefix(x: Seq<u8>, u: Seq<u8>, v: Seq<u8>, i: nat)
    requires
        i <= x.len(),
    ensures
        lex_from(x + u, x + v, i) == lex_from(x + u, x + v, x.len()),
    decreases x.len() - i,
{
    if i < x.len() {
        assert((x + u)[i as int] == x[i as int]);
        assert((x + v)[i as int] == x[i as int]);
        lemma_skip_prefix(x, u, v, i + 1);
    }
}

proof fn lemma_after_prefix(x: Seq<u8>, u: Seq<u8>, v: Seq<u8>, k: nat)
    ensures
        lex_from(x + u, x + v, x.len() + k) == lex_from(u, v, k),
    decreases u.len() - k,
{
    if k < u.len() && k < v.len() {
        assert((x + u)[(x.len() + k) as int] == u[k as int]);
        assert((x + v)[(x.len() + k) as int] == v[k as int]);
        if u[k as int] == v[k as int] {
            lemma_after_prefix(x, u, v, k + 1);
        }
    }
}

proof fn lemma_text_order_step(s: Seq<char>, t: Seq<char>, i: nat)
    requires
        s.len() > 0,
        t.len() > 0,
    ensures
        text_order_from(s, t, i + 1) == text_order_from(s.drop_first(), t.drop_first(), i),
    decreases s.len() - i,
{
    let s1 = s.drop_first();
    let t1 = t.drop_first();
    if i + 1 < s.len() && i + 1 < t.len() {
        assert(s1[i as int] == s[(i + 1) as int]);
        assert(t1[i as int] == t[(i + 1) as int]);
        if (s[(i + 1) as int] as u32) == (t[(i + 1) as int] as u32) {
            lemma_text_order_step(s, t, i + 1);
        }
    }
}

/// UTF-8 keeps order: the bytes of two texts compare as the texts do by code
/// point.
pub proof fn lemma_utf8_keeps_order(s: Seq<char>, t: Seq<char>)
    ensures
        lex_order(encode_utf8(s), encode_utf8(t)) == text_order(s, t),
    decreases s.len(),
{
    if s.len() == 0 || t.len() == 0 {
        if s.len() > 0 {
            char_is_scalar(s[0]);
            assert(encode_utf8(s).len() > 0);
        }
        if t.len() > 0 {
            char_is_scalar(t[0]);
            assert(encode_utf8(t).len() > 0);
        }
    } else {
        let c = s[0] as u32;
        let d = t[0] as u32;
        char_is_scalar(s[0]);
        char_is_scalar(t[0]);
        let x = encode_scalar(c);
        let y = encode_scalar(d);
        let u = encode_utf8(s.drop_first());
        let v = encode_utf8(t.drop_first());
        assert(encode_utf8(s) == x + u);
        assert(encode_utf8(t) == y + v);
        if c < d {
            let p = lemma_scalar_encodings_ordered(c, d);
            lemma_first_difference_decides(x, y, p, u, v, 0);
        } else if c > d {
            let p = lemma_scalar_encodings_ordered(d, c);
            lemma_first_difference_decides(y, x, p, v, u, 0);
            lemma_lex_swap(y + v, x + u);
        } else {
            lemma_common_prefix(x, u, v);
            lemma_utf8_keeps_order(s.drop_first(), t.drop_first());
            lemma_text_order_step(s, t, 0);
        }
    }
}

} // verus!

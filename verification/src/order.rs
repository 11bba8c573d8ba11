//! Lexicographic order of byte sequences under unsigned byte comparison: the
//! order in which the storage engine keeps its keys.

use vstd::prelude::*;

verus! {

/// The sign of `d`: -1 below zero, 0 at zero, 1 above.
pub open spec fn sign(d: int) -> int {
    if d < 0 {
        -1
    } else if d == 0 {
        0
    } else {
        1
    }
}

/// Compares `a` and `b` from position `i` on, given that they agree before it.
/// The first position where they differ decides; where one ends first, the
/// shorter sequence is the smaller.
pub open spec fn lex_from(a: Seq<u8>, b: Seq<u8>, i: nat) -> int
    decreases a.len() - i,
{
    if i >= a.len() && i >= b.len() {
        0
    } else if i >= a.len() {
        -1
    } else if i >= b.len() {
        1
    } else if a[i as int] < b[i as int] {
        -1
    } else if a[i as int] > b[i as int] {
        1
    } else {
        lex_from(a, b, i + 1)
    }
}

/// The lexicographic comparison of `a` with `b`: -1, 0 or 1 as `a` sorts
/// before, equal to or after `b`.
pub open spec fn lex_order(a: Seq<u8>, b: Seq<u8>) -> int {
    lex_from(a, b, 0)
}

/// Compares two byte strings as the engine does.
pub fn compare_bytes(a: &[u8], b: &[u8]) -> (r: i8)
    ensures
        r as int == lex_order(a@, b@),
{
    let mut i: usize = 0;
    while i < a.len() && i < b.len()
        invariant
            i <= a.len(),
            i <= b.len(),
            lex_order(a@, b@) == lex_from(a@, b@, i as nat),
        decreases a.len() - i,
    {
        if a[i] < b[i] {
            return -1;
        }
        if a[i] > b[i] {
            return 1;
        }
        i += 1;
    }
    if i < b.len() {
        -1
    } else if i < a.len() {
        1
    } else {
        0
    }
}

/// From position `i` on, the comparison is 0 exactly when the two sequences
/// have one length and agree at every position from `i`.
pub proof fn lemma_lex_from_zero(a: Seq<u8>, b: Seq<u8>, i: nat)
    requires
        i <= a.len(),
        i <= b.len(),
    ensures
        lex_from(a, b, i) == 0 <==> (a.len() == b.len() && forall|j: int|
            i <= j < a.len() ==> a[j] == b[j]),
    decreases a.len() - i,
{
    if i < a.len() && i < b.len() {
        lemma_lex_from_zero(a, b, i + 1);
        if a[i as int] == b[i as int] {
            assert(lex_from(a, b, i) == lex_from(a, b, i + 1));
        }
    }
}

/// Two byte sequences compare as equal exactly when they are the same sequence.
pub proof fn lemma_lex_equal(a: Seq<u8>, b: Seq<u8>)
    ensures
        lex_order(a, b) == 0 <==> a == b,
{
    lemma_lex_from_zero(a, b, 0);
    if lex_order(a, b) == 0 {
        assert(a =~= b);
    }
}

/// Swapping the arguments from position `i` on negates the comparison.
pub proof fn lemma_lex_from_swap(a: Seq<u8>, b: Seq<u8>, i: nat)
    ensures
        lex_from(b, a, i) == -lex_from(a, b, i),
    decreases a.len() - i,
{
    if i < a.len() && i < b.len() && a[i as int] == b[i as int] {
        lemma_lex_from_swap(a, b, i + 1);
    }
}

/// Swapping the arguments negates the comparison.
pub proof fn lemma_lex_swap(a: Seq<u8>, b: Seq<u8>)
    ensures
        lex_order(b, a) == -lex_order(a, b),
{
    lemma_lex_from_swap(a, b, 0);
}

} // verus!

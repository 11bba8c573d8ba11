//! What a walk hands out, told against a model of the engine's cursor: the
//! entries that the cursor sees, in the engine's order, and a position among
//! them.

use vstd::prelude::*;
use crate::cursor::{Move, RdictItems, Step};
use crate::key_codec::{compare_semantic, key_of, lemma_keys_keep_order, ordered_pair};
use crate::order::{lemma_lex_equal, lex_order};
use crate::value::Typed;

verus! {

/// Whether position `at` is on one of `rows`.
pub open spec fn on_row(rows: Seq<(Seq<u8>, Seq<u8>)>, at: int) -> bool {
    0 <= at < rows.len()
}

/// The entry under a cursor at `at`, or `None` where the cursor is past
/// either end.
pub open spec fn entry_at(rows: Seq<(Seq<u8>, Seq<u8>)>, at: int) -> Option<(Seq<u8>, Seq<u8>)> {
    if on_row(rows, at) {
        Some(rows[at])
    } else {
        None
    }
}

/// Whether the keys of `rows` rise strictly, as the engine keeps them.
pub open spec fn rising(rows: Seq<(Seq<u8>, Seq<u8>)>) -> bool {
    forall|i: int, j: int| 0 <= i < j < rows.len() ==> lex_order(rows[i].0, rows[j].0) < 0
}

/// The first position from `i` on whose key is not below `key`; the position
/// past the end where there is none.
pub open spec fn seek_from(rows: Seq<(Seq<u8>, Seq<u8>)>, key: Seq<u8>, i: int) -> int
    decreases rows.len() - i,
{
    if !on_row(rows, i) {
        rows.len() as int
    } else if lex_order(rows[i].0, key) >= 0 {
        i
    } else {
        seek_from(rows, key, i + 1)
    }
}

/// The last position from `i` back whose key is not above `key`; the
/// position before the start where there is none.
pub open spec fn seek_back_from(rows: Seq<(Seq<u8>, Seq<u8>)>, key: Seq<u8>, i: int) -> int
    decreases i + 1,
{
    if !on_row(rows, i) {
        -1
    } else if lex_order(rows[i].0, key) <= 0 {
        i
    } else {
        seek_back_from(rows, key, i - 1)
    }
}

/// Where a cursor at `at` stands after the move `m`. A cursor that is past an
/// end stays there until it seeks.
pub open spec fn cursor_after(rows: Seq<(Seq<u8>, Seq<u8>)>, at: int, m: Move) -> int {
    match m {
        Move::SeekToFirst => 0,
        Move::SeekToLast => rows.len() - 1,
        Move::Seek(k) => seek_from(rows, k, 0),
        Move::SeekForPrev(k) => seek_back_from(rows, k, rows.len() - 1),
        Move::Next => if on_row(rows, at) {
            at + 1
        } else {
            at
        },
        Move::Prev => if on_row(rows, at) {
            at - 1
        } else {
            at
        },
    }
}

/// The entries that `walk` hands out when the cursor stands at `at` and is
/// moved as each step says, until the walk is over.
pub open spec fn handed_out(walk: RdictItems, rows: Seq<(Seq<u8>, Seq<u8>)>, at: int) -> Seq<Step>
    decreases
            (if walk.backwards {
                at + 1
            } else {
                rows.len() - at
            }),
{
    if !on_row(rows, at) {
        seq![]
    } else {
        let step = walk.step_for(entry_at(rows, at));
        if step is Entry {
            seq![step] + handed_out(walk, rows, cursor_after(rows, at, step->then))
        } else {
            seq![]
        }
    }
}

/// Whether `walk` can read every one of `rows`: it hands out keys only, or
/// the stored bytes of each row encode a value.
pub open spec fn readable(walk: RdictItems, rows: Seq<(Seq<u8>, Seq<u8>)>) -> bool {
    forall|i: int| 0 <= i < rows.len() ==> (#[trigger] walk.step_for(Some(rows[i]))) is Entry
}

/// A seek stops at the first entry whose key is not below the key sought.
pub proof fn lemma_seek_from(rows: Seq<(Seq<u8>, Seq<u8>)>, key: Seq<u8>, i: int)
    requires
        0 <= i <= rows.len(),
    ensures
        i <= seek_from(rows, key, i) <= rows.len(),
        forall|j: int| i <= j < seek_from(rows, key, i) ==> lex_order(#[trigger] rows[j].0, key) < 0,
        on_row(rows, seek_from(rows, key, i)) ==> lex_order(
            rows[seek_from(rows, key, i)].0,
            key,
        ) >= 0,
    decreases rows.len() - i,
{
    if on_row(rows, i) && lex_order(rows[i].0, key) < 0 {
        lemma_seek_from(rows, key, i + 1);
    }
}

/// A backward seek stops at the last entry whose key is not above the key
/// sought.
pub proof fn lemma_seek_back_from(rows: Seq<(Seq<u8>, Seq<u8>)>, key: Seq<u8>, i: int)
    requires
        -1 <= i < rows.len(),
    ensures
        -1 <= seek_back_from(rows, key, i) <= i,
        forall|j: int|
            seek_back_from(rows, key, i) < j <= i ==> lex_order(#[trigger] rows[j].0, key) > 0,
        on_row(rows, seek_back_from(rows, key, i)) ==> lex_order(
            rows[seek_back_from(rows, key, i)].0,
            key,
        ) <= 0,
    decreases i + 1,
{
    if on_row(rows, i) && lex_order(rows[i].0, key) > 0 {
        lemma_seek_back_from(rows, key, i - 1);
    }
}

/// Among rising keys, a seek to a key that is there stops on it, forward and
/// backward.
pub proof fn lemma_seek_finds(rows: Seq<(Seq<u8>, Seq<u8>)>, j: int)
    requires
        rising(rows),
        on_row(rows, j),
    ensures
        seek_from(rows, rows[j].0, 0) == j,
        seek_back_from(rows, rows[j].0, rows.len() - 1) == j,
{
    let key = rows[j].0;
    lemma_lex_equal(key, key);
    lemma_seek_from(rows, key, 0);
    lemma_seek_back_from(rows, key, rows.len() - 1);
    let p = seek_from(rows, key, 0);
    if p < j {
        assert(lex_order(rows[p].0, rows[j].0) < 0);
    } else if p > j {
        assert(lex_order(rows[j].0, key) < 0);
    }
    let q = seek_back_from(rows, key, rows.len() - 1);
    if q > j {
        assert(lex_order(rows[j].0, rows[q].0) < 0);
        crate::order::lemma_lex_swap(rows[j].0, rows[q].0);
    } else if q < j {
        assert(lex_order(rows[j].0, key) > 0);
    }
}

/// A walk hands out every entry from where its cursor stands to the end that
/// it walks towards, each once and in the cursor's order: rising keys for a
/// forward walk, falling keys for a backward one.
pub proof fn lemma_walk_hands_out_the_rest(
    walk: RdictItems,
    rows: Seq<(Seq<u8>, Seq<u8>)>,
    at: int,
)
    requires
        !walk.finished,
        readable(walk, rows),
        -1 <= at <= rows.len(),
    ensures
        handed_out(walk, rows, at).len() == (if !on_row(rows, at) {
            0
        } else if walk.backwards {
            at + 1
        } else {
            rows.len() - at
        }),
        forall|i: int|
            0 <= i < handed_out(walk, rows, at).len() ==> #[trigger] handed_out(walk, rows, at)[i]
                == walk.step_for(
                Some(
                    rows[if walk.backwards {
                        at - i
                    } else {
                        at + i
                    }],
                ),
            ),
    decreases
            (if walk.backwards {
                at + 1
            } else {
                rows.len() - at
            }),
{
    if on_row(rows, at) {
        let step = walk.step_for(entry_at(rows, at));
        assert(step == walk.step_for(Some(rows[at])));
        assert(step is Entry);
        let next = cursor_after(rows, at, step->then);
        lemma_walk_hands_out_the_rest(walk, rows, next);
        let rest = handed_out(walk, rows, next);
        assert(handed_out(walk, rows, at) == seq![step] + rest);
        assert forall|i: int| 0 <= i < handed_out(walk, rows, at).len() implies #[trigger] handed_out(
            walk,
            rows,
            at,
        )[i] == walk.step_for(
            Some(
                rows[if walk.backwards {
                    at - i
                } else {
                    at + i
                }],
            ),
        ) by {
            if i > 0 {
                assert(handed_out(walk, rows, at)[i] == rest[i - 1]);
            }
        }
    }
}

/// A walk that starts from an end hands out every entry: all of them in the
/// cursor's order for a forward walk, all of them in the opposite order for
/// a backward one.
pub proof fn lemma_whole_walk(walk: RdictItems, rows: Seq<(Seq<u8>, Seq<u8>)>, at: int)
    requires
        !walk.finished,
        walk.from_key is None,
        readable(walk, rows),
    ensures
        ({
            let out = handed_out(walk, rows, cursor_after(rows, at, walk.first_move()));
            &&& out.len() == rows.len()
            &&& forall|i: int|
                0 <= i < rows.len() ==> #[trigger] out[i] == walk.step_for(
                    Some(
                        rows[if walk.backwards {
                            rows.len() - 1 - i
                        } else {
                            i
                        }],
                    ),
                )
        }),
{
    lemma_walk_hands_out_the_rest(walk, rows, cursor_after(rows, at, walk.first_move()));
}

/// A forward walk from a key hands out the entries from the first one whose
/// key is not below it, and no entry before that one.
pub proof fn lemma_walk_from_key(walk: RdictItems, rows: Seq<(Seq<u8>, Seq<u8>)>, at: int)
    requires
        !walk.finished,
        !walk.backwards,
        walk.from_key is Some,
        readable(walk, rows),
    ensures
        ({
            let first = seek_from(rows, walk.from_key->Some_0@, 0);
            let out = handed_out(walk, rows, cursor_after(rows, at, walk.first_move()));
            &&& 0 <= first <= rows.len()
            &&& forall|j: int|
                0 <= j < first ==> lex_order(#[trigger] rows[j].0, walk.from_key->Some_0@) < 0
            &&& first < rows.len() ==> lex_order(rows[first].0, walk.from_key->Some_0@) >= 0
            &&& out.len() == rows.len() - first
            &&& forall|i: int|
                0 <= i < out.len() ==> #[trigger] out[i] == walk.step_for(Some(rows[first + i]))
        }),
{
    let key = walk.from_key->Some_0@;
    lemma_seek_from(rows, key, 0);
    lemma_walk_hands_out_the_rest(walk, rows, seek_from(rows, key, 0));
}

/// A backward walk from a key hands out the entries from the last one whose
/// key is not above it, back to the first.
pub proof fn lemma_walk_back_from_key(walk: RdictItems, rows: Seq<(Seq<u8>, Seq<u8>)>, at: int)
    requires
        !walk.finished,
        walk.backwards,
        walk.from_key is Some,
        readable(walk, rows),
    ensures
        ({
            let first = seek_back_from(rows, walk.from_key->Some_0@, rows.len() - 1);
            let out = handed_out(walk, rows, cursor_after(rows, at, walk.first_move()));
            &&& -1 <= first < rows.len()
            &&& forall|j: int|
                first < j < rows.len() ==> lex_order(#[trigger] rows[j].0, walk.from_key->Some_0@)
                    > 0
            &&& first >= 0 ==> lex_order(rows[first].0, walk.from_key->Some_0@) <= 0
            &&& out.len() == first + 1
            &&& forall|i: int|
                0 <= i < out.len() ==> #[trigger] out[i] == walk.step_for(Some(rows[first - i]))
        }),
{
    let key = walk.from_key->Some_0@;
    lemma_seek_back_from(rows, key, rows.len() - 1);
    lemma_walk_hands_out_the_rest(walk, rows, seek_back_from(rows, key, rows.len() - 1));
}

/// Rising keys are rising values: where the keys of the rows are the keys of
/// values of one kind, a row that comes later holds the greater value.
pub proof fn lemma_rising_keys_are_rising_values(
    rows: Seq<(Seq<u8>, Seq<u8>)>,
    values: Seq<Typed>,
    i: int,
    j: int,
)
    requires
        rising(rows),
        values.len() == rows.len(),
        forall|k: int| 0 <= k < rows.len() ==> key_of(#[trigger] values[k]) == Some(rows[k].0),
        0 <= i < j < rows.len(),
        ordered_pair(values[i], values[j]),
    ensures
        compare_semantic(values[i], values[j]) < 0,
{
    lemma_keys_keep_order(values[i], values[j]);
    assert(key_of(values[i]) == Some(rows[i].0));
    assert(key_of(values[j]) == Some(rows[j].0));
}

} // verus!

//! What the registry's rules add up to: the laws of closing, of teardown
//! order, and of partitions kept apart.

use vstd::prelude::*;
use crate::engine::Call;
use crate::error::StoreError;
use crate::key_codec::key_of;
use crate::registry::Registry;
use crate::value::{Typed, TypedValue};
use crate::value_codec::{decoding_of, lemma_round_trip};

verus! {

/// On a closed registry every operation of every view fails with
/// `HandleClosed`, no partition can be made, found or dropped, and closing
/// again asks nothing of the engine.
pub proof fn lemma_closed_refuses_all(
    reg: &Registry,
    partition: Option<usize>,
    key: Typed,
    value: Typed,
    keys: Seq<TypedValue>,
    paths: Seq<Seq<char>>,
    name: Seq<char>,
    wait: bool,
)
    requires
        !reg.live(),
    ensures
        reg.refusal(partition) == Some(StoreError::HandleClosed),
        reg.get_plan(partition, key) == Err::<Call, StoreError>(StoreError::HandleClosed),
        reg.contains_plan(partition, key) == Err::<Call, StoreError>(StoreError::HandleClosed),
        reg.put_plan(partition, key, value) == Err::<Call, StoreError>(StoreError::HandleClosed),
        reg.delete_plan(partition, key) == Err::<Call, StoreError>(StoreError::HandleClosed),
        reg.get_batch_plan(partition, keys) == Err::<Call, StoreError>(StoreError::HandleClosed),
        reg.flush_plan(partition, wait) == Err::<Call, StoreError>(StoreError::HandleClosed),
        reg.ingest_plan(partition, paths) == Err::<Call, StoreError>(StoreError::HandleClosed),
        reg.create_plan(name) == Err::<Call, StoreError>(StoreError::HandleClosed),
        reg.lookup_refusal(name) == Some(StoreError::HandleClosed),
        reg.teardown_plan(partition, wait) == Seq::<Call>::empty(),
{
}

/// The releases of the first `upto` slots name live slots only, in rising
/// order of slot, and each live slot among them once.
pub proof fn lemma_releases(reg: &Registry, upto: nat)
    requires
        upto <= reg.slot_count() <= usize::MAX,
    ensures
        forall|k: int|
            0 <= k < reg.releases(upto).len() ==> {
                let call = #[trigger] reg.releases(upto)[k];
                call is ReleasePartition && call->ReleasePartition_slot < upto && reg.slot_live(
                    call->ReleasePartition_slot as int,
                )
            },
        forall|k: int, l: int|
            0 <= k < l < reg.releases(upto).len() ==> (#[trigger] reg.releases(
                upto,
            )[k])->ReleasePartition_slot < (#[trigger] reg.releases(
                upto,
            )[l])->ReleasePartition_slot,
        forall|i: int|
            0 <= i < upto && #[trigger] reg.slot_live(i) ==> reg.releases(upto).contains(
                Call::ReleasePartition { slot: i as usize },
            ),
    decreases upto,
{
    if upto > 0 {
        let before = reg.releases((upto - 1) as nat);
        lemma_releases(reg, (upto - 1) as nat);
        if reg.slot_live(upto - 1) {
            let last = Call::ReleasePartition { slot: (upto - 1) as usize };
            assert(reg.releases(upto) == before.push(last));
            assert(reg.releases(upto)[before.len() as int] == last);
            assert forall|i: int| 0 <= i < upto && #[trigger] reg.slot_live(i) implies reg.releases(
                upto,
            ).contains(Call::ReleasePartition { slot: i as usize }) by {
                if i < upto - 1 {
                    let c = Call::ReleasePartition { slot: i as usize };
                    assert(before.contains(c));
                    let k = choose|k: int| 0 <= k < before.len() && before[k] == c;
                    assert(reg.releases(upto)[k] == c);
                }
            }
        }
    }
}

/// Teardown order: closing an open registry flushes first, then gives up
/// every live partition, each once, and gives up the engine handle last and
/// only there. No partition reference outlives the handle it came from.
pub proof fn lemma_teardown_order(reg: &Registry, partition: Option<usize>, wait: bool)
    requires
        reg.wf(),
        reg.live(),
    ensures
        ({
            let plan = reg.teardown_plan(partition, wait);
            &&& plan.len() >= 2
            &&& plan[0] is Flush
            &&& plan[0]->Flush_wait == wait
            &&& reg.reaches(plan[0]->Flush_partition)
            &&& plan.last() == Call::ReleaseEngine
            &&& forall|k: int|
                0 < k < plan.len() - 1 ==> (#[trigger] plan[k]) is ReleasePartition && reg.slot_live(
                    plan[k]->ReleasePartition_slot as int,
                )
            &&& forall|k: int, l: int|
                0 < k < l < plan.len() - 1 ==> (#[trigger] plan[k])->ReleasePartition_slot != (
                #[trigger] plan[l])->ReleasePartition_slot
            &&& forall|i: int|
                0 <= i < reg.slot_count() && #[trigger] reg.slot_live(i) ==> exists|k: int|
                    0 < k < plan.len() - 1 && #[trigger] plan[k] == (Call::ReleasePartition {
                        slot: i as usize,
                    })
        }),
{
    let plan = reg.teardown_plan(partition, wait);
    let rel = reg.releases(reg.slot_count());
    lemma_releases(reg, reg.slot_count());
    assert(plan.len() == rel.len() + 2);
    assert forall|k: int| 0 < k < plan.len() - 1 implies plan[k] == rel[k - 1] by {}
    assert forall|i: int|
        0 <= i < reg.slot_count() && #[trigger] reg.slot_live(i) implies exists|k: int|
        0 < k < plan.len() - 1 && #[trigger] plan[k] == (Call::ReleasePartition {
            slot: i as usize,
        }) by {
        let c = Call::ReleasePartition { slot: i as usize };
        assert(rel.contains(c));
        let k = choose|k: int| 0 <= k < rel.len() && rel[k] == c;
        assert(plan[k + 1] == c);
    }
    assert forall|k: int, l: int| 0 < k < l < plan.len() - 1 implies (
    #[trigger] plan[k])->ReleasePartition_slot != (#[trigger] plan[l])->ReleasePartition_slot by {
        assert(plan[k] == rel[k - 1]);
        assert(plan[l] == rel[l - 1]);
    }
}

/// What an engine that keeps its partitions apart holds after `call`: a write
/// puts the bytes under the key in the call's partition, a delete takes them
/// away, and no other call changes what is stored.
pub open spec fn store_after(
    store: Map<(Option<usize>, Seq<u8>), Seq<u8>>,
    call: Call,
) -> Map<(Option<usize>, Seq<u8>), Seq<u8>> {
    match call {
        Call::Put { partition, key, value } => store.insert((partition, key), value),
        Call::Delete { partition, key } => store.remove((partition, key)),
        _ => store,
    }
}

/// What such an engine answers to a point read: the bytes under the key in
/// the call's partition, or `None` where there are none.
pub open spec fn store_answer(store: Map<(Option<usize>, Seq<u8>), Seq<u8>>, call: Call) -> Option<
    Seq<u8>,
> {
    match call {
        Call::Get { partition, key } => if store.dom().contains((partition, key)) {
            Some(store[(partition, key)])
        } else {
            None
        },
        _ => None,
    }
}

/// Partition isolation: with `v1` written under a key through a view of one
/// partition and `v2` under the same key through a view of another, each view
/// reads back its own value.
pub proof fn lemma_partitions_isolated(
    reg: &Registry,
    store: Map<(Option<usize>, Seq<u8>), Seq<u8>>,
    a: Option<usize>,
    b: Option<usize>,
    key: Typed,
    v1: Typed,
    v2: Typed,
)
    requires
        reg.wf(),
        reg.live(),
        reg.reaches(a),
        reg.reaches(b),
        a != b,
        key_of(key) is Some,
    ensures
        ({
            let first = store_after(store, reg.put_plan(a, key, v1)->Ok_0);
            let second = store_after(first, reg.put_plan(b, key, v2)->Ok_0);
            let from_a = store_answer(second, reg.get_plan(a, key)->Ok_0);
            let from_b = store_answer(second, reg.get_plan(b, key)->Ok_0);
            &&& reg.put_plan(a, key, v1) is Ok
            &&& reg.put_plan(b, key, v2) is Ok
            &&& from_a is Some && decoding_of(from_a->Some_0) == Some(v1)
            &&& from_b is Some && decoding_of(from_b->Some_0) == Some(v2)
        }),
{
    lemma_round_trip(v1);
    lemma_round_trip(v2);
}

/// A value written under a key is the value read back under it, through any
/// view that the registry lets in.
pub proof fn lemma_read_your_write(
    reg: &Registry,
    store: Map<(Option<usize>, Seq<u8>), Seq<u8>>,
    partition: Option<usize>,
    key: Typed,
    value: Typed,
)
    requires
        reg.refusal(partition) is None,
        key_of(key) is Some,
    ensures
        ({
            let written = store_after(store, reg.put_plan(partition, key, value)->Ok_0);
            let found = store_answer(written, reg.get_plan(partition, key)->Ok_0);
            found is Some && decoding_of(found->Some_0) == Some(value)
        }),
{
    lemma_round_trip(value);
}

} // verus!

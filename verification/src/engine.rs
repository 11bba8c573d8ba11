//! What passes between the store and the engine. The store decides which call
//! is due and what its outcome means; whoever holds the engine makes the call
//! and hands the outcome back.

use vstd::prelude::*;
use crate::error::StoreError;
use crate::value::{Typed, TypedValue};
use crate::value_codec::{decode_value, decoding_of};

verus! {

/// A failure that the engine reported.
#[derive(Clone, Debug, PartialEq, Eq)]
pub struct EngineFailure {
    /// Whether the engine declined the operation rather than wait.
    pub incomplete: bool,
    /// The engine's own message.
    pub message: String,
}

/// One call that is due on the engine. `partition` is the slot of the
/// partition that the call is for, or `None` for the default store.
#[derive(Clone, Debug, PartialEq, Eq)]
pub enum EngineCall {
    Get { partition: Option<usize>, key: Vec<u8> },
    MultiGet { partition: Option<usize>, keys: Vec<Vec<u8>> },
    KeyMayExist { partition: Option<usize>, key: Vec<u8> },
    Put { partition: Option<usize>, key: Vec<u8>, value: Vec<u8> },
    Delete { partition: Option<usize>, key: Vec<u8> },
    Flush { partition: Option<usize>, wait: bool },
    CreatePartition { name: String },
    DropPartition { slot: usize, name: String },
    Ingest { partition: Option<usize>, paths: Vec<String> },
    /// Give up the reference to the partition in `slot`.
    ReleasePartition { slot: usize },
    /// Give up the engine handle itself.
    ReleaseEngine,
}

/// The mathematical content of an [`EngineCall`].
pub enum Call {
    Get { partition: Option<usize>, key: Seq<u8> },
    MultiGet { partition: Option<usize>, keys: Seq<Seq<u8>> },
    KeyMayExist { partition: Option<usize>, key: Seq<u8> },
    Put { partition: Option<usize>, key: Seq<u8>, value: Seq<u8> },
    Delete { partition: Option<usize>, key: Seq<u8> },
    Flush { partition: Option<usize>, wait: bool },
    CreatePartition { name: Seq<char> },
    DropPartition { slot: usize, name: Seq<char> },
    Ingest { partition: Option<usize>, paths: Seq<Seq<char>> },
    ReleasePartition { slot: usize },
    ReleaseEngine,
}

/// The contents of a list of byte strings.
pub open spec fn byte_strings(v: Seq<Vec<u8>>) -> Seq<Seq<u8>> {
    Seq::new(v.len(), |i: int| v[i]@)
}

/// The contents of a list of texts.
pub open spec fn texts(v: Seq<String>) -> Seq<Seq<char>> {
    Seq::new(v.len(), |i: int| v[i]@)
}

impl View for EngineCall {
    type V = Call;

    open spec fn view(&self) -> Call {
        match self {
            EngineCall::Get { partition, key } => Call::Get { partition: *partition, key: key@ },
            EngineCall::MultiGet { partition, keys } => Call::MultiGet {
                partition: *partition,
                keys: byte_strings(keys@),
            },
            EngineCall::KeyMayExist { partition, key } => Call::KeyMayExist {
                partition: *partition,
                key: key@,
            },
            EngineCall::Put { partition, key, value } => Call::Put {
                partition: *partition,
                key: key@,
                value: value@,
            },
            EngineCall::Delete { partition, key } => Call::Delete {
                partition: *partition,
                key: key@,
            },
            EngineCall::Flush { partition, wait } => Call::Flush {
                partition: *partition,
                wait: *wait,
            },
            EngineCall::CreatePartition { name } => Call::CreatePartition { name: name@ },
            EngineCall::DropPartition { slot, name } => Call::DropPartition {
                slot: *slot,
                name: name@,
            },
            EngineCall::Ingest { partition, paths } => Call::Ingest {
                partition: *partition,
                paths: texts(paths@),
            },
            EngineCall::ReleasePartition { slot } => Call::ReleasePartition { slot: *slot },
            EngineCall::ReleaseEngine => Call::ReleaseEngine,
        }
    }
}

/// The content of a planned call: the call that is due, or the error that
/// the caller gets without the engine being asked.
pub open spec fn planned(r: Result<EngineCall, StoreError>) -> Result<Call, StoreError> {
    match r {
        Ok(call) => Ok(call@),
        Err(e) => Err(e),
    }
}

/// The contents of a list of calls.
pub open spec fn calls(v: Seq<EngineCall>) -> Seq<Call> {
    Seq::new(v.len(), |i: int| v[i]@)
}

/// The error that stands for a failure of the engine: `OperationIncomplete`
/// where the engine declined under pressure, else `EngineError` with the
/// engine's message.
pub open spec fn failure_error(f: EngineFailure) -> StoreError {
    if f.incomplete {
        StoreError::OperationIncomplete
    } else {
        StoreError::EngineError(f.message)
    }
}

/// Turns a failure of the engine into the store's error.
pub fn engine_error(f: EngineFailure) -> (e: StoreError)
    ensures
        e == failure_error(f),
{
    if f.incomplete {
        StoreError::OperationIncomplete
    } else {
        StoreError::EngineError(f.message)
    }
}

/// What a point read means: the engine's failure as an error, a key that is
/// not there as `None`, stored bytes as the value they decode to, or
/// `CorruptEncoding` where they decode to none.
pub open spec fn read_meaning(outcome: Result<Option<Vec<u8>>, EngineFailure>) -> Result<
    Option<Typed>,
    StoreError,
> {
    match outcome {
        Err(f) => Err(failure_error(f)),
        Ok(None) => Ok(None),
        Ok(Some(bytes)) => match decoding_of(bytes@) {
            Some(v) => Ok(Some(v)),
            None => Err(StoreError::CorruptEncoding),
        },
    }
}

/// The content of the result of a read.
pub open spec fn read_view(r: Result<Option<TypedValue>, StoreError>) -> Result<
    Option<Typed>,
    StoreError,
> {
    match r {
        Ok(Some(v)) => Ok(Some(v@)),
        Ok(None) => Ok(None),
        Err(e) => Err(e),
    }
}

/// Reads the outcome of a point read.
pub fn finish_get(outcome: Result<Option<Vec<u8>>, EngineFailure>) -> (r: Result<
    Option<TypedValue>,
    StoreError,
>)
    ensures
        read_view(r) == read_meaning(outcome),
{
    match outcome {
        Err(f) => Err(engine_error(f)),
        Ok(None) => Ok(None),
        Ok(Some(bytes)) => match decode_value(bytes.as_slice()) {
            Ok(v) => Ok(Some(v)),
            Err(e) => Err(e),
        },
    }
}

/// Reads the outcomes of a batch of point reads, in the order of the keys.
///
/// Succeeds exactly when every single read does, and then gives each key's
/// value or `None`. Otherwise the error is that of the first read that
/// fails.
pub fn finish_get_batch(outcomes: Vec<Result<Option<Vec<u8>>, EngineFailure>>) -> (r: Result<
    Vec<Option<TypedValue>>,
    StoreError,
>)
    ensures
        match r {
            Ok(values) => values.len() == outcomes.len() && forall|i: int|
                0 <= i < outcomes.len() ==> read_meaning(#[trigger] outcomes[i]) == read_view(
                    Ok(values[i]),
                ),
            Err(e) => exists|i: int|
                0 <= i < outcomes.len() && read_meaning(#[trigger] outcomes[i]) == Err::<
                    Option<Typed>,
                    StoreError,
                >(e) && forall|j: int| 0 <= j < i ==> read_meaning(#[trigger] outcomes[j]) is Ok,
        },
{
    let mut values: Vec<Option<TypedValue>> = Vec::with_capacity(outcomes.len());
    let ghost all = outcomes@;
    let mut rest = outcomes;
    let n = rest.len();
    let mut i: usize = 0;
    while i < n
        invariant
            i <= n,
            n == all.len(),
            all == outcomes@,
            rest@.len() == n,
            values.len() == i,
            forall|j: int| i <= j < n ==> rest@[j] == all[j],
            forall|j: int|
                0 <= j < i ==> read_meaning(#[trigger] all[j]) == read_view(Ok(values[j])),
        decreases n - i,
    {
        let mut taken: Result<Option<Vec<u8>>, EngineFailure> = Ok(None);
        std::mem::swap(&mut taken, &mut rest[i]);
        match finish_get(taken) {
            Ok(v) => {
                values.push(v);
            },
            Err(e) => {
                assert(read_meaning(all[i as int]) == Err::<Option<Typed>, StoreError>(e));
                assert forall|j: int| 0 <= j < i implies read_meaning(#[trigger] all[j]) is Ok by {
                    assert(read_meaning(all[j]) == read_view(Ok(values[j])));
                }
                return Err(e);
            },
        }
        i += 1;
    }
    Ok(values)
}

/// Reads the outcome of a write, a delete or a flush: done, or the engine's
/// failure as an error.
pub fn finish_write(outcome: Result<(), EngineFailure>) -> (r: Result<(), StoreError>)
    ensures
        r == match outcome {
            Ok(_) => Ok::<(), StoreError>(()),
            Err(f) => Err(failure_error(f)),
        },
{
    match outcome {
        Ok(_) => Ok(()),
        Err(f) => Err(engine_error(f)),
    }
}

/// Reads the outcome of the lookup that settles whether a key is there. The
/// bytes found are not decoded: a key with any stored bytes is there.
pub fn finish_contains(outcome: Result<Option<Vec<u8>>, EngineFailure>) -> (r: Result<
    bool,
    StoreError,
>)
    ensures
        r == match outcome {
            Ok(found) => Ok::<bool, StoreError>(found is Some),
            Err(f) => Err(failure_error(f)),
        },
{
    match outcome {
        Ok(Some(_)) => Ok(true),
        Ok(None) => Ok(false),
        Err(f) => Err(engine_error(f)),
    }
}

/// Reads the outcome of a bulk load: done, or `IngestError` with the engine's
/// message.
pub fn finish_ingest(outcome: Result<(), EngineFailure>) -> (r: Result<(), StoreError>)
    ensures
        r == match outcome {
            Ok(_) => Ok::<(), StoreError>(()),
            Err(f) => Err(StoreError::IngestError(f.message)),
        },
{
    match outcome {
        Ok(_) => Ok(()),
        Err(f) => Err(StoreError::IngestError(f.message)),
    }
}

} // verus!

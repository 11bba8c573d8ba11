//! The registry: the one owner of an open engine, the partitions it has
//! issued, and the rules by which views may use them.
//!
//! The registry never touches the engine. Each operation is planned here: the
//! plan is the call that is due on the engine, or the error that the caller
//! gets at once. Whoever holds the engine makes the call and reports the
//! outcome, and the registry follows it.

use vstd::prelude::*;
use crate::engine::{byte_strings, calls, failure_error, planned, texts, Call, EngineCall, EngineFailure};
use crate::error::StoreError;
use crate::key_codec::{encode_key, key_of};
use crate::options::{FlushOptionsPy, ReadOptionsPy, WriteOptionsPy};
use crate::value::{Typed, TypedValue};
use crate::value_codec::{encode_value, encoding_of};

verus! {

/// A view: a handle to the default store or to one partition of it, with the
/// options that its reads, writes and flushes are made with.
///
/// A view owns nothing. It names a partition by its slot in the registry, and
/// the registry checks that slot each time the view is used.
#[derive(Clone, Debug, PartialEq, Eq)]
pub struct Rdict {
    /// The slot of the view's partition; `None` for the default store.
    pub partition: Option<usize>,
    pub write_opt: WriteOptionsPy,
    pub read_opt: ReadOptionsPy,
    pub flush_opt: FlushOptionsPy,
}

/// One partition that the registry has issued.
pub struct PartitionSlot {
    name: String,
    live: bool,
}

/// The owner of an open engine. Slots are never used again: a partition that
/// was dropped leaves a dead slot behind, so a view of it can never come to
/// mean another partition.
pub struct Registry {
    open: bool,
    slots: Vec<PartitionSlot>,
}

/// Whether no two of `names` are the same.
pub open spec fn distinct_names(names: Seq<String>) -> bool {
    forall|i: int, j: int| 0 <= i < j < names.len() ==> names[i]@ != names[j]@
}

/// How the engine is to be opened.
#[derive(Clone, Copy, Debug, PartialEq, Eq, Structural)]
pub enum OpenCall {
    /// For reading and writing.
    Plain { with_partitions: bool },
    /// For reading and writing, entries expiring after `ttl` seconds.
    WithTtl { with_partitions: bool, ttl: u64 },
    /// For reading only.
    ReadOnly { with_partitions: bool, error_if_log_file_exist: bool },
}

/// The way to open the engine that the caller's wishes select: read-only
/// wins over a time to live, and a time to live of 0 is none.
pub open spec fn open_call_for(
    with_partitions: bool,
    read_only: bool,
    error_if_log_file_exist: bool,
    ttl: u64,
) -> OpenCall {
    if read_only {
        OpenCall::ReadOnly { with_partitions, error_if_log_file_exist }
    } else if ttl == 0 {
        OpenCall::Plain { with_partitions }
    } else {
        OpenCall::WithTtl { with_partitions, ttl }
    }
}

fn copy_slots(slots: &Vec<PartitionSlot>) -> (out: Vec<PartitionSlot>)
    ensures
        out@.len() == slots@.len(),
        forall|i: int|
            0 <= i < slots@.len() ==> out@[i].live == slots@[i].live && out@[i].name@
                == slots@[i].name@,
{
    let mut out: Vec<PartitionSlot> = Vec::with_capacity(slots.len());
    let mut i: usize = 0;
    while i < slots.len()
        invariant
            i <= slots@.len(),
            out@.len() == i,
            forall|j: int|
                0 <= j < i ==> out@[j].live == slots@[j].live && out@[j].name@ == slots@[j].name@,
        decreases slots@.len() - i,
    {
        out.push(PartitionSlot { name: slots[i].name.clone(), live: slots[i].live });
        i += 1;
    }
    out
}

fn has_duplicate(names: &Vec<String>) -> (found: bool)
    ensures
        found == !distinct_names(names@),
{
    let mut j: usize = 0;
    while j < names.len()
        invariant
            j <= names.len(),
            forall|a: int, b: int| 0 <= a < b < j ==> names@[a]@ != names@[b]@,
        decreases names.len() - j,
    {
        let mut i: usize = 0;
        while i < j
            invariant
                i <= j < names.len(),
                forall|a: int| 0 <= a < i ==> names@[a]@ != names@[j as int]@,
            decreases j - i,
        {
            if names[i] == names[j] {
                return true;
            }
            i += 1;
        }
        j += 1;
    }
    false
}

/// Plans the opening of a store with the partitions `partitions`, if any are
/// declared.
///
/// Fails with `PartitionExists` exactly where a name is declared twice;
/// otherwise selects the call as [`open_call_for`] says.
pub fn plan_open(
    partitions: &Option<Vec<String>>,
    read_only: bool,
    error_if_log_file_exist: bool,
    ttl: u64,
) -> (r: Result<OpenCall, StoreError>)
    ensures
        r == match *partitions {
            Some(names) => if distinct_names(names@) {
                Ok::<OpenCall, StoreError>(
                    open_call_for(true, read_only, error_if_log_file_exist, ttl),
                )
            } else {
                Err(StoreError::PartitionExists)
            },
            None => Ok(open_call_for(false, read_only, error_if_log_file_exist, ttl)),
        },
{
    let with_partitions = match partitions {
        Some(names) => {
            if has_duplicate(names) {
                return Err(StoreError::PartitionExists);
            }
            true
        },
        None => false,
    };
    if read_only {
        Ok(OpenCall::ReadOnly { with_partitions, error_if_log_file_exist })
    } else if ttl == 0 {
        Ok(OpenCall::Plain { with_partitions })
    } else {
        Ok(OpenCall::WithTtl { with_partitions, ttl })
    }
}

impl Registry {
    /// Whether the engine handle is held.
    pub closed spec fn live(&self) -> bool {
        self.open
    }

    /// How many slots have been issued, dead ones included.
    pub closed spec fn slot_count(&self) -> nat {
        self.slots@.len()
    }

    /// The name of the partition in slot `i`.
    pub closed spec fn slot_name(&self, i: int) -> Seq<char> {
        self.slots@[i].name@
    }

    /// Whether the partition in slot `i` is still there.
    pub closed spec fn slot_live(&self, i: int) -> bool {
        self.slots@[i].live
    }

    /// What always holds of a registry: its slots can be counted, live
    /// partitions have distinct names, and a closed registry has no live
    /// partition.
    #[verifier::type_invariant]
    pub open spec fn wf(&self) -> bool {
        &&& self.slot_count() <= usize::MAX
        &&& forall|i: int, j: int|
            0 <= i < j < self.slot_count() && self.slot_live(i) && self.slot_live(j)
                ==> self.slot_name(i) != self.slot_name(j)
        &&& !self.live() ==> forall|i: int| 0 <= i < self.slot_count() ==> !self.slot_live(i)
    }

    /// Whether a live partition is called `name`.
    pub open spec fn has_partition(&self, name: Seq<char>) -> bool {
        exists|i: int|
            0 <= i < self.slot_count() && self.slot_live(i) && #[trigger] self.slot_name(i)
                == name
    }

    /// Whether `partition` names something that can be used: the default
    /// store, or a slot that is live.
    pub open spec fn reaches(&self, partition: Option<usize>) -> bool {
        match partition {
            None => true,
            Some(i) => i < self.slot_count() && self.slot_live(i as int),
        }
    }

    /// Why a view of `partition` is turned away, or `None` where it is let
    /// in: `HandleClosed` once the registry is closed, `PartitionNotFound`
    /// where the view's partition has been dropped.
    pub open spec fn refusal(&self, partition: Option<usize>) -> Option<StoreError> {
        if !self.live() {
            Some(StoreError::HandleClosed)
        } else if !self.reaches(partition) {
            Some(StoreError::PartitionNotFound)
        } else {
            None
        }
    }

    /// The plan of an operation on one key: the refusal, or
    /// `UnsupportedKeyType` for a key that has no encoding, or the call that
    /// `make` builds from the key's bytes.
    pub open spec fn keyed_plan(
        &self,
        partition: Option<usize>,
        key: Typed,
        make: spec_fn(Seq<u8>) -> Call,
    ) -> Result<Call, StoreError> {
        match self.refusal(partition) {
            Some(e) => Err(e),
            None => match key_of(key) {
                None => Err(StoreError::UnsupportedKeyType),
                Some(k) => Ok(make(k)),
            },
        }
    }

    /// The plan of a point read.
    pub open spec fn get_plan(&self, partition: Option<usize>, key: Typed) -> Result<
        Call,
        StoreError,
    > {
        self.keyed_plan(partition, key, |k: Seq<u8>| Call::Get { partition, key: k })
    }

    /// The plan of the first step of a membership test.
    pub open spec fn contains_plan(&self, partition: Option<usize>, key: Typed) -> Result<
        Call,
        StoreError,
    > {
        self.keyed_plan(partition, key, |k: Seq<u8>| Call::KeyMayExist { partition, key: k })
    }

    /// The plan of a write.
    pub open spec fn put_plan(&self, partition: Option<usize>, key: Typed, value: Typed) -> Result<
        Call,
        StoreError,
    > {
        self.keyed_plan(
            partition,
            key,
            |k: Seq<u8>| Call::Put { partition, key: k, value: encoding_of(value) },
        )
    }

    /// The plan of a delete.
    pub open spec fn delete_plan(&self, partition: Option<usize>, key: Typed) -> Result<
        Call,
        StoreError,
    > {
        self.keyed_plan(partition, key, |k: Seq<u8>| Call::Delete { partition, key: k })
    }

    /// The plan of a batch of point reads: the refusal, or
    /// `UnsupportedKeyType` where one of the keys has no encoding, or one call
    /// with every key's bytes in the order given.
    pub open spec fn get_batch_plan(&self, partition: Option<usize>, keys: Seq<TypedValue>) -> Result<
        Call,
        StoreError,
    > {
        match self.refusal(partition) {
            Some(e) => Err(e),
            None => if forall|i: int| 0 <= i < keys.len() ==> key_of(#[trigger] keys[i]@) is Some {
                Ok(
                    Call::MultiGet {
                        partition,
                        keys: Seq::new(keys.len(), |i: int| key_of(keys[i]@)->Some_0),
                    },
                )
            } else {
                Err(StoreError::UnsupportedKeyType)
            },
        }
    }

    /// The plan of a flush.
    pub open spec fn flush_plan(&self, partition: Option<usize>, wait: bool) -> Result<
        Call,
        StoreError,
    > {
        match self.refusal(partition) {
            Some(e) => Err(e),
            None => Ok(Call::Flush { partition, wait }),
        }
    }

    /// The plan of a bulk load.
    pub open spec fn ingest_plan(&self, partition: Option<usize>, paths: Seq<Seq<char>>) -> Result<
        Call,
        StoreError,
    > {
        match self.refusal(partition) {
            Some(e) => Err(e),
            None => Ok(Call::Ingest { partition, paths }),
        }
    }

    /// The plan of the creation of a partition called `name`.
    pub open spec fn create_plan(&self, name: Seq<char>) -> Result<Call, StoreError> {
        if !self.live() {
            Err(StoreError::HandleClosed)
        } else if self.has_partition(name) {
            Err(StoreError::PartitionExists)
        } else {
            Ok(Call::CreatePartition { name })
        }
    }

    /// Why a partition called `name` cannot be looked up, or `None` where it
    /// can.
    pub open spec fn lookup_refusal(&self, name: Seq<char>) -> Option<StoreError> {
        if !self.live() {
            Some(StoreError::HandleClosed)
        } else if !self.has_partition(name) {
            Some(StoreError::PartitionNotFound)
        } else {
            None
        }
    }

    /// Whether `slot` holds the live partition called `name`.
    pub open spec fn slot_holds(&self, slot: usize, name: Seq<char>) -> bool {
        slot < self.slot_count() && self.slot_live(slot as int) && self.slot_name(slot as int)
            == name
    }

    /// The releases of the live partitions among the first `upto` slots, in
    /// the order of the slots.
    pub open spec fn releases(&self, upto: nat) -> Seq<Call>
        decreases upto,
    {
        if upto == 0 {
            seq![]
        } else if self.slot_live(upto - 1) {
            self.releases((upto - 1) as nat).push(
                Call::ReleasePartition { slot: (upto - 1) as usize },
            )
        } else {
            self.releases((upto - 1) as nat)
        }
    }

    /// What closing does on the engine, in order: a flush of the closing
    /// view's partition (of the default store where that partition is gone),
    /// then the release of every live partition, and the engine handle last.
    /// Closing a closed registry does nothing.
    pub open spec fn teardown_plan(&self, partition: Option<usize>, wait: bool) -> Seq<Call> {
        if !self.live() {
            seq![]
        } else {
            seq![
                Call::Flush {
                    partition: if self.reaches(partition) {
                        partition
                    } else {
                        None
                    },
                    wait,
                },
            ] + self.releases(self.slot_count()) + seq![Call::ReleaseEngine]
        }
    }

    /// Whether `other` differs from this registry by nothing.
    pub open spec fn same_as(&self, other: &Registry) -> bool {
        &&& self.live() == other.live()
        &&& self.slot_count() == other.slot_count()
        &&& forall|i: int|
            0 <= i < self.slot_count() ==> self.slot_live(i) == other.slot_live(i)
                && self.slot_name(i) == other.slot_name(i)
    }

    /// Follows the outcome of opening the engine.
    ///
    /// Fails with `PartitionExists` where a partition is declared twice and
    /// with `EngineOpenError`, carrying the engine's message, where the
    /// engine failed. Otherwise the registry is open, and the declared
    /// partitions are live in its first slots, in the order given.
    pub fn opened(partitions: Option<Vec<String>>, outcome: Result<(), EngineFailure>) -> (r:
        Result<Registry, StoreError>)
        ensures
            match r {
                Ok(reg) => {
                    &&& outcome is Ok
                    &&& reg.wf()
                    &&& reg.live()
                    &&& match partitions {
                        Some(names) => distinct_names(names@) && reg.slot_count() == names.len()
                            && forall|i: int|
                            0 <= i < names.len() ==> reg.slot_live(i) && reg.slot_name(i)
                                == names[i]@,
                        None => reg.slot_count() == 0,
                    }
                },
                Err(e) => match partitions {
                    Some(names) if !distinct_names(names@) => e == StoreError::PartitionExists,
                    _ => outcome is Err && e == StoreError::EngineOpenError(
                        outcome->Err_0.message,
                    ),
                },
            },
    {
        let names = match partitions {
            Some(names) => {
                if has_duplicate(&names) {
                    return Err(StoreError::PartitionExists);
                }
                names
            },
            None => Vec::new(),
        };
        match outcome {
            Err(f) => Err(StoreError::EngineOpenError(f.message)),
            Ok(_) => {
                let mut slots: Vec<PartitionSlot> = Vec::with_capacity(names.len());
                let mut i: usize = 0;
                while i < names.len()
                    invariant
                        i <= names.len(),
                        slots@.len() == i,
                        forall|j: int|
                            0 <= j < i ==> slots@[j].live && slots@[j].name@ == names@[j]@,
                    decreases names.len() - i,
                {
                    slots.push(PartitionSlot { name: names[i].clone(), live: true });
                    i += 1;
                }
                let issued = slots.len();
                assert(slots@.len() == issued);
                Ok(Registry { open: true, slots })
            },
        }
    }

    /// Whether the registry is open.
    pub fn is_open(&self) -> (b: bool)
        ensures
            b == self.live(),
    {
        self.open
    }

    /// How many slots have been issued.
    pub fn partition_slots(&self) -> (n: usize)
        ensures
            n == self.slot_count(),
    {
        self.slots.len()
    }

    /// Whether `slot` holds a live partition.
    pub fn partition_live(&self, slot: usize) -> (b: bool)
        ensures
            b == (slot < self.slot_count() && self.slot_live(slot as int)),
    {
        slot < self.slots.len() && self.slots[slot].live
    }

    /// The view of the default store, with the options that a store starts
    /// with.
    pub fn default_view(&self) -> (view: Rdict)
        ensures
            view.partition is None,
            view.write_opt == crate::options::default_write_options(),
            view.read_opt@ == crate::options::default_read_options(),
            view.flush_opt.wait,
    {
        Rdict {
            partition: None,
            write_opt: WriteOptionsPy::new(),
            read_opt: ReadOptionsPy::default(),
            flush_opt: FlushOptionsPy::new(),
        }
    }

    fn find_live(&self, name: &String) -> (r: Option<usize>)
        ensures
            match r {
                Some(slot) => self.slot_holds(slot, name@),
                None => !self.has_partition(name@),
            },
    {
        let mut i: usize = 0;
        while i < self.slots.len()
            invariant
                i <= self.slots@.len(),
                forall|j: int|
                    0 <= j < i ==> !(self.slot_live(j) && #[trigger] self.slot_name(j) == name@),
            decreases self.slots@.len() - i,
        {
            if self.slots[i].live && self.slots[i].name == *name {
                return Some(i);
            }
            i += 1;
        }
        None
    }

    /// Tells whether a view of `partition` may be used now.
    pub fn check(&self, partition: Option<usize>) -> (r: Result<(), StoreError>)
        ensures
            r == match self.refusal(partition) {
                Some(e) => Err::<(), StoreError>(e),
                None => Ok(()),
            },
    {
        if !self.open {
            return Err(StoreError::HandleClosed);
        }
        match partition {
            None => Ok(()),
            Some(i) => if i < self.slots.len() && self.slots[i].live {
                Ok(())
            } else {
                Err(StoreError::PartitionNotFound)
            },
        }
    }

    /// Plans the read of the value under `key` through `view`.
    pub fn get(&self, view: &Rdict, key: &TypedValue) -> (r: Result<EngineCall, StoreError>)
        ensures
            planned(r) == self.get_plan(view.partition, key@),
    {
        match self.check(view.partition) {
            Err(e) => Err(e),
            Ok(_) => match encode_key(key) {
                Ok(k) => Ok(EngineCall::Get { partition: view.partition, key: k }),
                Err(e) => Err(e),
            },
        }
    }

    /// Plans the read of the values under `keys` through `view`, in one call.
    pub fn get_batch(&self, view: &Rdict, keys: &Vec<TypedValue>) -> (r: Result<
        EngineCall,
        StoreError,
    >)
        ensures
            planned(r) == self.get_batch_plan(view.partition, keys@),
    {
        match self.check(view.partition) {
            Err(e) => {
                return Err(e);
            },
            Ok(_) => {},
        }
        let mut encoded: Vec<Vec<u8>> = Vec::with_capacity(keys.len());
        let mut i: usize = 0;
        while i < keys.len()
            invariant
                i <= keys.len(),
                encoded@.len() == i,
                self.refusal(view.partition) is None,
                forall|j: int|
                    0 <= j < i ==> key_of(#[trigger] keys@[j]@) == Some(encoded@[j]@),
            decreases keys.len() - i,
        {
            match encode_key(&keys[i]) {
                Ok(k) => {
                    encoded.push(k);
                },
                Err(e) => {
                    assert(key_of(keys@[i as int]@) is None);
                    return Err(e);
                },
            }
            i += 1;
        }
        assert(byte_strings(encoded@) =~= Seq::new(
            keys@.len(),
            |i: int| key_of(keys@[i]@)->Some_0,
        ));
        Ok(EngineCall::MultiGet { partition: view.partition, keys: encoded })
    }

    /// Plans the first step of the test whether `key` is there: the engine's
    /// quick hint.
    pub fn contains(&self, view: &Rdict, key: &TypedValue) -> (r: Result<EngineCall, StoreError>)
        ensures
            planned(r) == self.contains_plan(view.partition, key@),
    {
        match self.check(view.partition) {
            Err(e) => Err(e),
            Ok(_) => match encode_key(key) {
                Ok(k) => Ok(EngineCall::KeyMayExist { partition: view.partition, key: k }),
                Err(e) => Err(e),
            },
        }
    }

    /// Plans the second step of the test whether `key` is there, given the
    /// engine's hint. A hint of "no" settles it: the key is not there, and
    /// the plan is `None`. A hint of "maybe" takes the read that settles it.
    pub fn contains_lookup(&self, view: &Rdict, key: &TypedValue, may_exist: bool) -> (r: Result<
        Option<EngineCall>,
        StoreError,
    >)
        ensures
            match self.get_plan(view.partition, key@) {
                Err(e) => r == Err::<Option<EngineCall>, StoreError>(e),
                Ok(call) => r is Ok && (if may_exist {
                    r->Ok_0 is Some && r->Ok_0->Some_0@ == call
                } else {
                    r->Ok_0 is None
                }),
            },
    {
        match self.get(view, key) {
            Err(e) => Err(e),
            Ok(call) => if may_exist {
                Ok(Some(call))
            } else {
                Ok(None)
            },
        }
    }

    /// Plans the write of `value` under `key` through `view`.
    pub fn put(&self, view: &Rdict, key: &TypedValue, value: &TypedValue) -> (r: Result<
        EngineCall,
        StoreError,
    >)
        ensures
            planned(r) == self.put_plan(view.partition, key@, value@),
    {
        match self.check(view.partition) {
            Err(e) => Err(e),
            Ok(_) => match encode_key(key) {
                Ok(k) => Ok(
                    EngineCall::Put { partition: view.partition, key: k, value: encode_value(value) },
                ),
                Err(e) => Err(e),
            },
        }
    }

    /// Plans the removal of `key` through `view`.
    pub fn delete(&self, view: &Rdict, key: &TypedValue) -> (r: Result<EngineCall, StoreError>)
        ensures
            planned(r) == self.delete_plan(view.partition, key@),
    {
        match self.check(view.partition) {
            Err(e) => Err(e),
            Ok(_) => match encode_key(key) {
                Ok(k) => Ok(EngineCall::Delete { partition: view.partition, key: k }),
                Err(e) => Err(e),
            },
        }
    }

    /// Plans a flush of what `view` has written.
    pub fn flush(&self, view: &Rdict, wait: bool) -> (r: Result<EngineCall, StoreError>)
        ensures
            planned(r) == self.flush_plan(view.partition, wait),
    {
        match self.check(view.partition) {
            Err(e) => Err(e),
            Ok(_) => Ok(EngineCall::Flush { partition: view.partition, wait }),
        }
    }

    /// Plans the bulk load of the files at `paths` into `view`.
    pub fn ingest_external_file(&self, view: &Rdict, paths: Vec<String>) -> (r: Result<
        EngineCall,
        StoreError,
    >)
        ensures
            planned(r) == self.ingest_plan(view.partition, texts(paths@)),
    {
        match self.check(view.partition) {
            Err(e) => Err(e),
            Ok(_) => Ok(EngineCall::Ingest { partition: view.partition, paths }),
        }
    }

    /// Plans the creation of a partition called `name`.
    pub fn create_column_family(&self, name: &str) -> (r: Result<EngineCall, StoreError>)
        ensures
            planned(r) == self.create_plan(name@),
    {
        if !self.open {
            return Err(StoreError::HandleClosed);
        }
        let owned = name.to_owned();
        match self.find_live(&owned) {
            Some(_) => Err(StoreError::PartitionExists),
            None => Ok(EngineCall::CreatePartition { name: owned }),
        }
    }

    /// Follows the outcome of the creation of a partition called `name`.
    ///
    /// Where the creation was not due (see [`Registry::create_plan`]) the
    /// result is the plan's error, and where the engine failed it is the
    /// engine's; the registry then stays as it is. Otherwise the partition
    /// is live in a new slot, the last one, and the result is a view of it
    /// with the options of `view`.
    pub fn finish_create_column_family(
        &mut self,
        view: &Rdict,
        name: &str,
        outcome: Result<(), EngineFailure>,
    ) -> (r: Result<Rdict, StoreError>)
        ensures
            final(self).wf(),
            match old(self).create_plan(name@) {
                Err(e) => r == Err::<Rdict, StoreError>(e) && final(self).same_as(old(self)),
                Ok(_) => match outcome {
                    Err(f) => r == Err::<Rdict, StoreError>(failure_error(f)) && final(self).same_as(old(self)),
                    Ok(_) => {
                        &&& r is Ok
                        &&& r->Ok_0.partition == Some(old(self).slot_count() as usize)
                        &&& r->Ok_0.write_opt == view.write_opt
                        &&& r->Ok_0.read_opt@ == view.read_opt@
                        &&& r->Ok_0.flush_opt == view.flush_opt
                        &&& final(self).live()
                        &&& final(self).slot_count() == old(self).slot_count() + 1
                        &&& final(self).slot_holds(old(self).slot_count() as usize, name@)
                        &&& forall|i: int|
                            0 <= i < old(self).slot_count() ==> final(self).slot_live(i) == old(self).slot_live(i) && final(self).slot_name(i) == old(self).slot_name(i)
                    },
                },
            },
    {
        proof {
            use_type_invariant(&*self);
        }
        if !self.open {
            return Err(StoreError::HandleClosed);
        }
        let owned = name.to_owned();
        if self.find_live(&owned).is_some() {
            return Err(StoreError::PartitionExists);
        }
        match outcome {
            Err(f) => Err(crate::engine::engine_error(f)),
            Ok(_) => {
                let slot = self.slots.len();
                let mut slots = copy_slots(&self.slots);
                slots.push(PartitionSlot { name: owned, live: true });
                let issued = slots.len();
                assert forall|i: int, j: int|
                    0 <= i < j < slots@.len() && slots@[i].live && slots@[j].live implies slots@[i].name@
                    != slots@[j].name@ by {
                    assert(self.slot_live(i) && self.slot_name(i) == slots@[i].name@);
                    if j < slot {
                        assert(self.slot_live(j) && self.slot_name(j) == slots@[j].name@);
                    }
                }
                self.slots = slots;
                assert(self.slot_name(slot as int) == name@);
                Ok(
                    Rdict {
                        partition: Some(slot),
                        write_opt: view.write_opt,
                        read_opt: view.read_opt.snapshot(),
                        flush_opt: view.flush_opt,
                    },
                )
            },
        }
    }

    /// Plans the dropping of the partition called `name`: the call names the
    /// slot that holds it.
    pub fn drop_column_family(&self, name: &str) -> (r: Result<EngineCall, StoreError>)
        ensures
            match self.lookup_refusal(name@) {
                Some(e) => r == Err::<EngineCall, StoreError>(e),
                None => r is Ok && r->Ok_0@ is DropPartition && r->Ok_0@->DropPartition_name
                    == name@ && self.slot_holds(r->Ok_0@->DropPartition_slot, name@),
            },
    {
        if !self.open {
            return Err(StoreError::HandleClosed);
        }
        let owned = name.to_owned();
        match self.find_live(&owned) {
            None => Err(StoreError::PartitionNotFound),
            Some(slot) => Ok(EngineCall::DropPartition { slot, name: owned }),
        }
    }

    /// Follows the outcome of the dropping of the partition called `name`.
    ///
    /// Where the drop was not due the result is the plan's error, and where
    /// the engine failed it is the engine's; the registry then stays as it
    /// is. Otherwise the slot of that partition is dead from now on, and
    /// nothing else has changed.
    pub fn finish_drop_column_family(&mut self, name: &str, outcome: Result<(), EngineFailure>) -> (r:
        Result<(), StoreError>)
        ensures
            final(self).wf(),
            match old(self).lookup_refusal(name@) {
                Some(e) => r == Err::<(), StoreError>(e) && final(self).same_as(old(self)),
                None => match outcome {
                    Err(f) => r == Err::<(), StoreError>(failure_error(f)) && final(self).same_as(
                        old(self),
                    ),
                    Ok(_) => {
                        &&& r is Ok
                        &&& !final(self).has_partition(name@)
                        &&& final(self).live()
                        &&& final(self).slot_count() == old(self).slot_count()
                        &&& forall|i: int|
                            0 <= i < old(self).slot_count() ==> final(self).slot_name(i) == old(self).slot_name(i) && final(self).slot_live(i) == (old(self).slot_live(i)
                                && old(self).slot_name(i) != name@)
                    },
                },
            },
    {
        proof {
            use_type_invariant(&*self);
        }
        if !self.open {
            return Err(StoreError::HandleClosed);
        }
        let owned = name.to_owned();
        match self.find_live(&owned) {
            None => Err(StoreError::PartitionNotFound),
            Some(slot) => match outcome {
                Err(f) => Err(crate::engine::engine_error(f)),
                Ok(_) => {
                    let mut slots = copy_slots(&self.slots);
                    slots.set(slot, PartitionSlot { name: owned, live: false });
                    let issued = slots.len();
                    assert forall|i: int, j: int|
                        0 <= i < j < slots@.len() && slots@[i].live && slots@[j].live implies slots@[i].name@
                        != slots@[j].name@ by {
                        assert(self.slot_live(i) && self.slot_name(i) == slots@[i].name@);
                        assert(self.slot_live(j) && self.slot_name(j) == slots@[j].name@);
                    }
                    self.slots = slots;
                    assert forall|i: int| 0 <= i < old(self).slot_count() implies final(self).slot_name(i) == old(self).slot_name(i) && final(self).slot_live(i) == (old(self).slot_live(i) && old(self).slot_name(i) != name@) by {
                        if i != slot && old(self).slot_live(i) {
                            assert(old(self).slot_name(i) != old(self).slot_name(slot as int));
                        }
                    }
                    Ok(())
                },
            },
        }
    }

    /// Closes the registry and says what is to be done on the engine, in
    /// order (see [`Registry::teardown_plan`]). After it the registry is
    /// closed and none of its partitions is live. On a closed registry it
    /// changes nothing and asks for nothing.
    pub fn close(&mut self, view: &Rdict) -> (plan: Vec<EngineCall>)
        ensures
            final(self).wf(),
            !final(self).live(),
            calls(plan@) == old(self).teardown_plan(view.partition, view.flush_opt.wait),
            final(self).slot_count() == old(self).slot_count(),
            forall|i: int|
                0 <= i < old(self).slot_count() ==> final(self).slot_name(i) == old(self).slot_name(i),
    {
        proof {
            use_type_invariant(&*self);
        }
        let mut plan: Vec<EngineCall> = Vec::new();
        if !self.open {
            assert(calls(plan@) =~= seq![]);
            return plan;
        }
        let target = match view.partition {
            Some(i) if i < self.slots.len() && self.slots[i].live => Some(i),
            _ => None,
        };
        plan.push(EngineCall::Flush { partition: target, wait: view.flush_opt.wait });
        let ghost flush = plan@[0]@;
        let mut dead: Vec<PartitionSlot> = Vec::with_capacity(self.slots.len());
        let mut i: usize = 0;
        while i < self.slots.len()
            invariant
                i <= self.slots@.len(),
                *self == *old(self),
                dead@.len() == i,
                forall|j: int| 0 <= j < i ==> !dead@[j].live && dead@[j].name@ == self.slots@[j].name@,
                calls(plan@) == seq![flush] + self.releases(i as nat),
            decreases self.slots@.len() - i,
        {
            let ghost before = calls(plan@);
            if self.slots[i].live {
                plan.push(EngineCall::ReleasePartition { slot: i });
                assert(calls(plan@) =~= before.push(Call::ReleasePartition { slot: i }));
            }
            dead.push(PartitionSlot { name: self.slots[i].name.clone(), live: false });
            assert(self.releases((i + 1) as nat) == if self.slot_live(i as int) {
                self.releases(i as nat).push(Call::ReleasePartition { slot: i })
            } else {
                self.releases(i as nat)
            });
            assert(calls(plan@) =~= seq![flush] + self.releases((i + 1) as nat));
            i += 1;
        }
        let ghost before = calls(plan@);
        plan.push(EngineCall::ReleaseEngine);
        assert(calls(plan@) =~= before.push(Call::ReleaseEngine));
        assert(calls(plan@) =~= old(self).teardown_plan(view.partition, view.flush_opt.wait));
        self.slots = dead;
        self.open = false;
        plan
    }
}

impl Rdict {
    /// Replaces the options that this view writes with.
    pub fn set_write_options(&mut self, write_opt: &WriteOptionsPy)
        ensures
            final(self).write_opt == *write_opt,
            final(self).partition == old(self).partition,
            final(self).read_opt == old(self).read_opt,
            final(self).flush_opt == old(self).flush_opt,
    {
        self.write_opt = *write_opt;
    }

    /// Replaces the options that this view reads with.
    pub fn set_read_options(&mut self, read_opt: &ReadOptionsPy)
        ensures
            final(self).read_opt@ == read_opt@,
            final(self).partition == old(self).partition,
            final(self).write_opt == old(self).write_opt,
            final(self).flush_opt == old(self).flush_opt,
    {
        self.read_opt = read_opt.snapshot();
    }

    /// A view of the partition called `name`, with the options of this view.
    ///
    /// Fails with `HandleClosed` on a closed registry and with
    /// `PartitionNotFound` where no live partition has that name.
    pub fn get_column_family(&self, registry: &Registry, name: &str) -> (r: Result<
        Rdict,
        StoreError,
    >)
        ensures
            match registry.lookup_refusal(name@) {
                Some(e) => r == Err::<Rdict, StoreError>(e),
                None => {
                    &&& r is Ok
                    &&& r->Ok_0.partition is Some
                    &&& registry.slot_holds(r->Ok_0.partition->Some_0, name@)
                    &&& r->Ok_0.write_opt == self.write_opt
                    &&& r->Ok_0.read_opt@ == self.read_opt@
                    &&& r->Ok_0.flush_opt == self.flush_opt
                },
            },
    {
        if !registry.is_open() {
            return Err(StoreError::HandleClosed);
        }
        let owned = name.to_owned();
        match registry.find_live(&owned) {
            None => Err(StoreError::PartitionNotFound),
            Some(slot) => Ok(
                Rdict {
                    partition: Some(slot),
                    write_opt: self.write_opt,
                    read_opt: self.read_opt.snapshot(),
                    flush_opt: self.flush_opt,
                },
            ),
        }
    }
}

} // verus!

//! Cursors and the one-pass walks over them.
//!
//! The engine's cursor is moved by whoever holds the engine. What is decided
//! here is which move is due, what an entry under the cursor means, and when
//! a walk is over.

use vstd::prelude::*;
use crate::error::StoreError;
use crate::key_codec::{encode_key, key_of};
use crate::options::{bytes_view, ReadOptionsModel, ReadOptionsPy};
use crate::registry::{Rdict, Registry};
use crate::value::{copy_bytes, Typed, TypedValue};
use crate::value_codec::{decode_value, decoding_of};

verus! {

/// One move of the engine's cursor.
#[derive(Clone, Debug, PartialEq, Eq)]
pub enum CursorCall {
    SeekToFirst,
    SeekToLast,
    /// To the first entry whose key is not below the given one.
    Seek(Vec<u8>),
    /// To the last entry whose key is not above the given one.
    SeekForPrev(Vec<u8>),
    Next,
    Prev,
}

/// The mathematical content of a [`CursorCall`].
pub enum Move {
    SeekToFirst,
    SeekToLast,
    Seek(Seq<u8>),
    SeekForPrev(Seq<u8>),
    Next,
    Prev,
}

impl View for CursorCall {
    type V = Move;

    open spec fn view(&self) -> Move {
        match self {
            CursorCall::SeekToFirst => Move::SeekToFirst,
            CursorCall::SeekToLast => Move::SeekToLast,
            CursorCall::Seek(k) => Move::Seek(k@),
            CursorCall::SeekForPrev(k) => Move::SeekForPrev(k@),
            CursorCall::Next => Move::Next,
            CursorCall::Prev => Move::Prev,
        }
    }
}

/// A cursor over one view: the partition it reads and the read options it
/// was opened with, which later changes to the view's options do not reach.
#[derive(Clone, Debug, PartialEq, Eq)]
pub struct RdictIter {
    pub partition: Option<usize>,
    pub read_opt: ReadOptionsPy,
}

/// The move that a seek to `key` takes, or `UnsupportedKeyType` where `key`
/// has no encoding.
pub open spec fn seek_plan(key: Typed, backwards: bool) -> Result<Move, StoreError> {
    match key_of(key) {
        None => Err(StoreError::UnsupportedKeyType),
        Some(k) => Ok(
            if backwards {
                Move::SeekForPrev(k)
            } else {
                Move::Seek(k)
            },
        ),
    }
}

/// The content of a planned move.
pub open spec fn planned_move(r: Result<CursorCall, StoreError>) -> Result<Move, StoreError> {
    match r {
        Ok(call) => Ok(call@),
        Err(e) => Err(e),
    }
}

impl RdictIter {
    /// The move to the first entry.
    pub fn seek_to_first(&self) -> (call: CursorCall)
        ensures
            call@ == Move::SeekToFirst,
    {
        CursorCall::SeekToFirst
    }

    /// The move to the last entry.
    pub fn seek_to_last(&self) -> (call: CursorCall)
        ensures
            call@ == Move::SeekToLast,
    {
        CursorCall::SeekToLast
    }

    /// The move to the first entry at or after `key`.
    pub fn seek(&self, key: &TypedValue) -> (r: Result<CursorCall, StoreError>)
        ensures
            planned_move(r) == seek_plan(key@, false),
    {
        match encode_key(key) {
            Ok(k) => Ok(CursorCall::Seek(k)),
            Err(e) => Err(e),
        }
    }

    /// The move to the last entry at or before `key`.
    pub fn seek_for_prev(&self, key: &TypedValue) -> (r: Result<CursorCall, StoreError>)
        ensures
            planned_move(r) == seek_plan(key@, true),
    {
        match encode_key(key) {
            Ok(k) => Ok(CursorCall::SeekForPrev(k)),
            Err(e) => Err(e),
        }
    }

    /// The move one entry on.
    pub fn next(&self) -> (call: CursorCall)
        ensures
            call@ == Move::Next,
    {
        CursorCall::Next
    }

    /// The move one entry back.
    pub fn prev(&self) -> (call: CursorCall)
        ensures
            call@ == Move::Prev,
    {
        CursorCall::Prev
    }

    /// The value that the bytes under the cursor encode.
    pub fn value(&self, stored: &[u8]) -> (r: Result<TypedValue, StoreError>)
        ensures
            match decoding_of(stored@) {
                Some(v) => r is Ok && r->Ok_0@ == v,
                None => r == Err::<TypedValue, StoreError>(StoreError::CorruptEncoding),
            },
    {
        decode_value(stored)
    }
}

/// What a walk hands out for each entry.
#[derive(Clone, Copy, Debug, PartialEq, Eq, Structural)]
pub enum Yield {
    Items,
    Keys,
    Values,
}

/// A single pass over the entries of a cursor, forward or backward, from one
/// end or from a key. Once it is over it stays over.
#[derive(Clone, Debug, PartialEq, Eq)]
pub struct RdictItems {
    pub yields: Yield,
    pub backwards: bool,
    pub from_key: Option<Vec<u8>>,
    pub finished: bool,
}

/// What a walk does with the entry under the cursor.
#[derive(Clone, Debug, PartialEq, Eq)]
pub enum WalkStep {
    /// Hand out this entry, then move the cursor by `then`. A walk over keys
    /// hands out no value, one over values no key.
    Entry { key: Option<Vec<u8>>, value: Option<TypedValue>, then: CursorCall },
    /// The stored bytes of this entry encode no value. The walk is over.
    Corrupt,
    /// The walk is over.
    Done,
}

/// The mathematical content of a [`WalkStep`].
pub enum Step {
    Entry { key: Option<Seq<u8>>, value: Option<Typed>, then: Move },
    Corrupt,
    Done,
}

impl View for WalkStep {
    type V = Step;

    open spec fn view(&self) -> Step {
        match self {
            WalkStep::Entry { key, value, then } => Step::Entry {
                key: bytes_view(*key),
                value: match value {
                    Some(v) => Some(v@),
                    None => None,
                },
                then: then@,
            },
            WalkStep::Corrupt => Step::Corrupt,
            WalkStep::Done => Step::Done,
        }
    }
}

/// The content of an entry under the cursor: key bytes and stored bytes, or
/// `None` where the cursor is past the end.
pub open spec fn entry_view(entry: Option<(Vec<u8>, Vec<u8>)>) -> Option<(Seq<u8>, Seq<u8>)> {
    match entry {
        Some((k, v)) => Some((k@, v@)),
        None => None,
    }
}

/// The move that continues a walk: back for a backward walk, on for a forward
/// one.
pub open spec fn onward(backwards: bool) -> Move {
    if backwards {
        Move::Prev
    } else {
        Move::Next
    }
}

/// The content of an optional key.
pub open spec fn typed_view(key: Option<&TypedValue>) -> Option<Typed> {
    match key {
        Some(k) => Some(k@),
        None => None,
    }
}

impl RdictItems {
    /// The move that starts the walk: to the entry at `from_key`, or to the
    /// nearest entry in the walk's direction where there is none at that
    /// key, or to the end that the walk starts from where no key is given.
    pub open spec fn first_move(&self) -> Move {
        match self.from_key {
            Some(k) => if self.backwards {
                Move::SeekForPrev(k@)
            } else {
                Move::Seek(k@)
            },
            None => if self.backwards {
                Move::SeekToLast
            } else {
                Move::SeekToFirst
            },
        }
    }

    /// What the walk does with `entry`: it is over once the cursor is past
    /// the end, and stays over; it stops on stored bytes that encode no
    /// value, unless it hands out keys only and so does not read them; else
    /// it hands the entry out and moves on in its direction.
    pub open spec fn step_for(&self, entry: Option<(Seq<u8>, Seq<u8>)>) -> Step {
        if self.finished {
            Step::Done
        } else {
            match entry {
                None => Step::Done,
                Some((k, stored)) => if self.yields == Yield::Keys {
                    Step::Entry { key: Some(k), value: None, then: onward(self.backwards) }
                } else {
                    match decoding_of(stored) {
                        None => Step::Corrupt,
                        Some(v) => Step::Entry {
                            key: if self.yields == Yield::Items {
                                Some(k)
                            } else {
                                None
                            },
                            value: Some(v),
                            then: onward(self.backwards),
                        },
                    }
                },
            }
        }
    }

    /// A walk that has not started. Fails with `UnsupportedKeyType` exactly
    /// where `from_key` is given and has no encoding.
    pub fn new(yields: Yield, backwards: bool, from_key: Option<&TypedValue>) -> (r: Result<
        RdictItems,
        StoreError,
    >)
        ensures
            match from_key {
                Some(key) if key_of(key@) is None => r == Err::<RdictItems, StoreError>(
                    StoreError::UnsupportedKeyType,
                ),
                _ => {
                    &&& r is Ok
                    &&& r->Ok_0.yields == yields
                    &&& r->Ok_0.backwards == backwards
                    &&& !r->Ok_0.finished
                    &&& bytes_view(r->Ok_0.from_key) == match from_key {
                        Some(key) => key_of(key@),
                        None => None,
                    }
                },
            },
    {
        let start = match from_key {
            Some(key) => match encode_key(key) {
                Ok(k) => Some(k),
                Err(e) => {
                    return Err(e);
                },
            },
            None => None,
        };
        Ok(RdictItems { yields, backwards, from_key: start, finished: false })
    }

    /// The move that starts the walk.
    pub fn start(&self) -> (call: CursorCall)
        ensures
            call@ == self.first_move(),
    {
        match &self.from_key {
            Some(k) => {
                let key = copy_bytes(k.as_slice());
                if self.backwards {
                    CursorCall::SeekForPrev(key)
                } else {
                    CursorCall::Seek(key)
                }
            },
            None => if self.backwards {
                CursorCall::SeekToLast
            } else {
                CursorCall::SeekToFirst
            },
        }
    }

    /// Takes the entry under the cursor, or `None` where the cursor is past
    /// the end, and says what the walk does with it. The walk is over after
    /// every step but one that hands an entry out.
    pub fn step(&mut self, entry: Option<(Vec<u8>, Vec<u8>)>) -> (r: WalkStep)
        ensures
            r@ == old(self).step_for(entry_view(entry)),
            final(self).finished == !(r is Entry),
            final(self).yields == old(self).yields,
            final(self).backwards == old(self).backwards,
            final(self).from_key == old(self).from_key,
    {
        if self.finished {
            return WalkStep::Done;
        }
        let step = match entry {
            None => WalkStep::Done,
            Some((k, stored)) => {
                let then = if self.backwards {
                    CursorCall::Prev
                } else {
                    CursorCall::Next
                };
                match self.yields {
                    Yield::Keys => WalkStep::Entry { key: Some(k), value: None, then },
                    Yield::Items => match decode_value(stored.as_slice()) {
                        Ok(v) => WalkStep::Entry { key: Some(k), value: Some(v), then },
                        Err(_) => WalkStep::Corrupt,
                    },
                    Yield::Values => match decode_value(stored.as_slice()) {
                        Ok(v) => WalkStep::Entry { key: None, value: Some(v), then },
                        Err(_) => WalkStep::Corrupt,
                    },
                }
            },
        };
        self.finished = match &step {
            WalkStep::Entry { .. } => false,
            _ => true,
        };
        step
    }
}

impl Registry {
    /// Opens a cursor over `view` with the read options `read_opt`.
    ///
    /// Fails as every use of the view does (see [`Registry::refusal`]);
    /// otherwise the cursor reads the view's partition under a copy of the
    /// options.
    pub fn iter(&self, view: &Rdict, read_opt: &ReadOptionsPy) -> (r: Result<RdictIter, StoreError>)
        ensures
            match self.refusal(view.partition) {
                Some(e) => r == Err::<RdictIter, StoreError>(e),
                None => r is Ok && r->Ok_0.partition == view.partition && r->Ok_0.read_opt@
                    == read_opt@,
            },
    {
        match self.check(view.partition) {
            Err(e) => Err(e),
            Ok(_) => Ok(RdictIter { partition: view.partition, read_opt: read_opt.snapshot() }),
        }
    }

    /// What opening a walk over a view of `partition` gives: the refusal of
    /// the view, or `UnsupportedKeyType` for a `from_key` that has no
    /// encoding, or a cursor over the partition under `read_opt` together
    /// with a walk that has not started.
    pub open spec fn opens_walk(
        &self,
        partition: Option<usize>,
        yields: Yield,
        backwards: bool,
        from_key: Option<Typed>,
        read_opt: ReadOptionsModel,
        r: Result<(RdictIter, RdictItems), StoreError>,
    ) -> bool {
        match self.refusal(partition) {
            Some(e) => r == Err::<(RdictIter, RdictItems), StoreError>(e),
            None => match from_key {
                Some(key) if key_of(key) is None => r == Err::<
                    (RdictIter, RdictItems),
                    StoreError,
                >(StoreError::UnsupportedKeyType),
                _ => {
                    &&& r is Ok
                    &&& r->Ok_0.0.partition == partition
                    &&& r->Ok_0.0.read_opt@ == read_opt
                    &&& r->Ok_0.1.yields == yields
                    &&& r->Ok_0.1.backwards == backwards
                    &&& !r->Ok_0.1.finished
                    &&& bytes_view(r->Ok_0.1.from_key) == match from_key {
                        Some(key) => key_of(key),
                        None => None,
                    }
                },
            },
        }
    }

    fn walk(
        &self,
        view: &Rdict,
        yields: Yield,
        backwards: bool,
        from_key: Option<&TypedValue>,
        read_opt: &ReadOptionsPy,
    ) -> (r: Result<(RdictIter, RdictItems), StoreError>)
        ensures
            self.opens_walk(
                view.partition,
                yields,
                backwards,
                typed_view(from_key),
                read_opt@,
                r,
            ),
    {
        let cursor = match self.iter(view, read_opt) {
            Ok(c) => c,
            Err(e) => {
                return Err(e);
            },
        };
        match RdictItems::new(yields, backwards, from_key) {
            Ok(walk) => Ok((cursor, walk)),
            Err(e) => Err(e),
        }
    }

    /// Opens a walk over the keys and values of `view`.
    pub fn items(
        &self,
        view: &Rdict,
        backwards: bool,
        from_key: Option<&TypedValue>,
        read_opt: &ReadOptionsPy,
    ) -> (r: Result<(RdictIter, RdictItems), StoreError>)
        ensures
            self.opens_walk(
                view.partition,
                Yield::Items,
                backwards,
                typed_view(from_key),
                read_opt@,
                r,
            ),
    {
        self.walk(view, Yield::Items, backwards, from_key, read_opt)
    }

    /// Opens a walk over the keys of `view`.
    pub fn keys(
        &self,
        view: &Rdict,
        backwards: bool,
        from_key: Option<&TypedValue>,
        read_opt: &ReadOptionsPy,
    ) -> (r: Result<(RdictIter, RdictItems), StoreError>)
        ensures
            self.opens_walk(
                view.partition,
                Yield::Keys,
                backwards,
                typed_view(from_key),
                read_opt@,
                r,
            ),
    {
        self.walk(view, Yield::Keys, backwards, from_key, read_opt)
    }

    /// Opens a walk over the values of `view`.
    pub fn values(
        &self,
        view: &Rdict,
        backwards: bool,
        from_key: Option<&TypedValue>,
        read_opt: &ReadOptionsPy,
    ) -> (r: Result<(RdictIter, RdictItems), StoreError>)
        ensures
            self.opens_walk(
                view.partition,
                Yield::Values,
                backwards,
                typed_view(from_key),
                read_opt@,
                r,
            ),
    {
        self.walk(view, Yield::Values, backwards, from_key, read_opt)
    }
}

} // verus!

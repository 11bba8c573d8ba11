//! The failures that the store reports to its callers.

use vstd::prelude::*;

verus! {

/// Every way in which an operation of the store can fail. None is retried
/// here; a key that is not there is no failure but an absent result.
#[derive(Clone, Debug, PartialEq, Eq)]
pub enum StoreError {
    /// A key was given that has no order-preserving encoding.
    UnsupportedKeyType,
    /// Stored bytes start with an unknown tag, or their payload does not fit
    /// the tag.
    CorruptEncoding,
    /// The engine could not be opened; the text is the engine's own.
    EngineOpenError(String),
    /// A partition of that name is already there.
    PartitionExists,
    /// No live partition has that name, or the view's partition was dropped.
    PartitionNotFound,
    /// The registry that the handle came from has been closed.
    HandleClosed,
    /// The engine declined the operation under write pressure.
    OperationIncomplete,
    /// The engine refused the files handed to it for bulk loading.
    IngestError(String),
    /// Any other failure that the engine reported, with its message.
    EngineError(String),
}

} // verus!

//! Options that travel with a view or a cursor, as plain data. The engine's
//! own option objects are made from them where the engine is called.

use vstd::prelude::*;
use crate::error::StoreError;
use crate::key_codec::{encode_key, key_of};
use crate::value::TypedValue;

verus! {

/// How writes through a view are made.
#[derive(Clone, Copy, Debug, PartialEq, Eq, Structural)]
pub struct WriteOptionsPy {
    /// Whether a write waits until it is on disk.
    pub sync: bool,
    /// Whether a write skips the write-ahead log.
    pub disable_wal: bool,
    /// Whether a write to a partition that was dropped is skipped silently.
    pub ignore_missing_column_families: bool,
    /// Whether a write that would have to wait fails at once as incomplete.
    pub no_slowdown: bool,
    /// Whether a write gives way to others when the engine is behind.
    pub low_pri: bool,
    /// Whether the engine keeps an insertion hint per batch.
    pub memtable_insert_hint_per_batch: bool,
}

/// The options of a plain write: every switch off.
pub open spec fn default_write_options() -> WriteOptionsPy {
    WriteOptionsPy {
        sync: false,
        disable_wal: false,
        ignore_missing_column_families: false,
        no_slowdown: false,
        low_pri: false,
        memtable_insert_hint_per_batch: false,
    }
}

impl WriteOptionsPy {
    /// The options of a plain write: every switch off.
    pub fn new() -> (opt: Self)
        ensures
            opt == default_write_options(),
    {
        WriteOptionsPy {
            sync: false,
            disable_wal: false,
            ignore_missing_column_families: false,
            no_slowdown: false,
            low_pri: false,
            memtable_insert_hint_per_batch: false,
        }
    }

    pub fn set_sync(&mut self, v: bool)
        ensures
            *final(self) == (WriteOptionsPy { sync: v, ..*old(self) }),
    {
        self.sync = v;
    }

    pub fn disable_wal(&mut self, v: bool)
        ensures
            *final(self) == (WriteOptionsPy { disable_wal: v, ..*old(self) }),
    {
        self.disable_wal = v;
    }

    pub fn set_ignore_missing_column_families(&mut self, v: bool)
        ensures
            *final(self) == (WriteOptionsPy { ignore_missing_column_families: v, ..*old(self) }),
    {
        self.ignore_missing_column_families = v;
    }

    pub fn set_no_slowdown(&mut self, v: bool)
        ensures
            *final(self) == (WriteOptionsPy { no_slowdown: v, ..*old(self) }),
    {
        self.no_slowdown = v;
    }

    pub fn set_low_pri(&mut self, v: bool)
        ensures
            *final(self) == (WriteOptionsPy { low_pri: v, ..*old(self) }),
    {
        self.low_pri = v;
    }

    pub fn set_memtable_insert_hint_per_batch(&mut self, v: bool)
        ensures
            *final(self) == (WriteOptionsPy { memtable_insert_hint_per_batch: v, ..*old(self) }),
    {
        self.memtable_insert_hint_per_batch = v;
    }
}

/// How a flush is made.
#[derive(Clone, Copy, Debug, PartialEq, Eq, Structural)]
pub struct FlushOptionsPy {
    /// Whether the flush returns only when the data is on disk.
    pub wait: bool,
}

impl FlushOptionsPy {
    /// A flush that waits.
    pub fn new() -> (opt: Self)
        ensures
            opt.wait,
    {
        FlushOptionsPy { wait: true }
    }

    pub fn set_wait(&mut self, wait: bool)
        ensures
            final(self).wait == wait,
    {
        self.wait = wait;
    }
}

/// How reads through a view, and the cursors opened from it, are made.
#[derive(Clone, Debug, PartialEq, Eq)]
pub struct ReadOptionsPy {
    pub fill_cache: bool,
    /// The key bytes at which a cursor stops, itself left out.
    pub iterate_upper_bound: Option<Vec<u8>>,
    /// The key bytes from which a cursor starts.
    pub iterate_lower_bound: Option<Vec<u8>>,
    pub prefix_same_as_start: bool,
    pub total_order_seek: bool,
    pub max_skippable_internal_keys: u64,
    pub background_purge_on_interator_cleanup: bool,
    pub ignore_range_deletions: bool,
    pub verify_checksums: bool,
    pub readahead_size: usize,
    /// Whether a cursor is a tailing one: forward only, and it sees entries
    /// written after it was opened.
    pub tailing: bool,
    pub pin_data: bool,
}

/// The mathematical content of a [`ReadOptionsPy`].
pub struct ReadOptionsModel {
    pub fill_cache: bool,
    pub iterate_upper_bound: Option<Seq<u8>>,
    pub iterate_lower_bound: Option<Seq<u8>>,
    pub prefix_same_as_start: bool,
    pub total_order_seek: bool,
    pub max_skippable_internal_keys: u64,
    pub background_purge_on_interator_cleanup: bool,
    pub ignore_range_deletions: bool,
    pub verify_checksums: bool,
    pub readahead_size: usize,
    pub tailing: bool,
    pub pin_data: bool,
}

/// The content of an optional byte string.
pub open spec fn bytes_view(b: Option<Vec<u8>>) -> Option<Seq<u8>> {
    match b {
        Some(v) => Some(v@),
        None => None,
    }
}

impl View for ReadOptionsPy {
    type V = ReadOptionsModel;

    open spec fn view(&self) -> ReadOptionsModel {
        ReadOptionsModel {
            fill_cache: self.fill_cache,
            iterate_upper_bound: bytes_view(self.iterate_upper_bound),
            iterate_lower_bound: bytes_view(self.iterate_lower_bound),
            prefix_same_as_start: self.prefix_same_as_start,
            total_order_seek: self.total_order_seek,
            max_skippable_internal_keys: self.max_skippable_internal_keys,
            background_purge_on_interator_cleanup: self.background_purge_on_interator_cleanup,
            ignore_range_deletions: self.ignore_range_deletions,
            verify_checksums: self.verify_checksums,
            readahead_size: self.readahead_size,
            tailing: self.tailing,
            pin_data: self.pin_data,
        }
    }
}

/// The read options that the engine starts from: the cache is filled,
/// checksums are verified, no bounds, everything else off.
pub open spec fn default_read_options() -> ReadOptionsModel {
    ReadOptionsModel {
        fill_cache: true,
        iterate_upper_bound: None,
        iterate_lower_bound: None,
        prefix_same_as_start: false,
        total_order_seek: false,
        max_skippable_internal_keys: 0,
        background_purge_on_interator_cleanup: false,
        ignore_range_deletions: false,
        verify_checksums: true,
        readahead_size: 0,
        tailing: false,
        pin_data: false,
    }
}

fn copy_bound(b: &Option<Vec<u8>>) -> (out: Option<Vec<u8>>)
    ensures
        bytes_view(out) == bytes_view(*b),
{
    match b {
        Some(v) => Some(crate::value::copy_bytes(v.as_slice())),
        None => None,
    }
}

impl ReadOptionsPy {
    pub fn default() -> (opt: Self)
        ensures
            opt@ == default_read_options(),
    {
        ReadOptionsPy {
            fill_cache: true,
            iterate_upper_bound: None,
            iterate_lower_bound: None,
            prefix_same_as_start: false,
            total_order_seek: false,
            max_skippable_internal_keys: 0,
            background_purge_on_interator_cleanup: false,
            ignore_range_deletions: false,
            verify_checksums: true,
            readahead_size: 0,
            tailing: false,
            pin_data: false,
        }
    }

    /// A copy of these options, field by field.
    pub fn snapshot(&self) -> (opt: Self)
        ensures
            opt@ == self@,
    {
        ReadOptionsPy {
            fill_cache: self.fill_cache,
            iterate_upper_bound: copy_bound(&self.iterate_upper_bound),
            iterate_lower_bound: copy_bound(&self.iterate_lower_bound),
            prefix_same_as_start: self.prefix_same_as_start,
            total_order_seek: self.total_order_seek,
            max_skippable_internal_keys: self.max_skippable_internal_keys,
            background_purge_on_interator_cleanup: self.background_purge_on_interator_cleanup,
            ignore_range_deletions: self.ignore_range_deletions,
            verify_checksums: self.verify_checksums,
            readahead_size: self.readahead_size,
            tailing: self.tailing,
            pin_data: self.pin_data,
        }
    }

    /// Sets the key at which cursors stop. An opaque value is no key: the
    /// options then stay as they are and the call fails.
    pub fn set_iterate_upper_bound(&mut self, key: &TypedValue) -> (r: Result<(), StoreError>)
        ensures
            match key_of(key@) {
                Some(k) => r is Ok && final(self)@ == (ReadOptionsModel {
                    iterate_upper_bound: Some(k),
                    ..old(self)@
                }),
                None => r == Err::<(), StoreError>(StoreError::UnsupportedKeyType) && final(self)@
                    == old(self)@,
            },
    {
        match encode_key(key) {
            Ok(k) => {
                self.iterate_upper_bound = Some(k);
                Ok(())
            },
            Err(e) => Err(e),
        }
    }

    /// Sets the key from which cursors start. An opaque value is no key: the
    /// options then stay as they are and the call fails.
    pub fn set_iterate_lower_bound(&mut self, key: &TypedValue) -> (r: Result<(), StoreError>)
        ensures
            match key_of(key@) {
                Some(k) => r is Ok && final(self)@ == (ReadOptionsModel {
                    iterate_lower_bound: Some(k),
                    ..old(self)@
                }),
                None => r == Err::<(), StoreError>(StoreError::UnsupportedKeyType) && final(self)@
                    == old(self)@,
            },
    {
        match encode_key(key) {
            Ok(k) => {
                self.iterate_lower_bound = Some(k);
                Ok(())
            },
            Err(e) => Err(e),
        }
    }

    pub fn fill_cache(&mut self, v: bool)
        ensures
            final(self)@ == (ReadOptionsModel { fill_cache: v, ..old(self)@ }),
    {
        self.fill_cache = v;
    }

    pub fn set_prefix_same_as_start(&mut self, v: bool)
        ensures
            final(self)@ == (ReadOptionsModel { prefix_same_as_start: v, ..old(self)@ }),
    {
        self.prefix_same_as_start = v;
    }

    pub fn set_total_order_seek(&mut self, v: bool)
        ensures
            final(self)@ == (ReadOptionsModel { total_order_seek: v, ..old(self)@ }),
    {
        self.total_order_seek = v;
    }

    pub fn set_max_skippable_internal_keys(&mut self, v: u64)
        ensures
            final(self)@ == (ReadOptionsModel { max_skippable_internal_keys: v, ..old(self)@ }),
    {
        self.max_skippable_internal_keys = v;
    }

    pub fn set_background_purge_on_interator_cleanup(&mut self, v: bool)
        ensures
            final(self)@ == (ReadOptionsModel { background_purge_on_interator_cleanup: v, ..old(self)@ }),
    {
        self.background_purge_on_interator_cleanup = v;
    }

    pub fn set_ignore_range_deletions(&mut self, v: bool)
        ensures
            final(self)@ == (ReadOptionsModel { ignore_range_deletions: v, ..old(self)@ }),
    {
        self.ignore_range_deletions = v;
    }

    pub fn set_verify_checksums(&mut self, v: bool)
        ensures
            final(self)@ == (ReadOptionsModel { verify_checksums: v, ..old(self)@ }),
    {
        self.verify_checksums = v;
    }

    pub fn set_readahead_size(&mut self, v: usize)
        ensures
            final(self)@ == (ReadOptionsModel { readahead_size: v, ..old(self)@ }),
    {
        self.readahead_size = v;
    }

    pub fn set_tailing(&mut self, v: bool)
        ensures
            final(self)@ == (ReadOptionsModel { tailing: v, ..old(self)@ }),
    {
        self.tailing = v;
    }

    pub fn set_pin_data(&mut self, v: bool)
        ensures
            final(self)@ == (ReadOptionsModel { pin_data: v, ..old(self)@ }),
    {
        self.pin_data = v;
    }
}

} // verus!

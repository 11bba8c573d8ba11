//! Tuning choices that are plain data. The engine's own objects are made from
//! them where the engine is configured; what is decided here is which
//! choices there are, what they start as, and which of them the engine can
//! be given.

use vstd::prelude::*;

verus! {

/// How the engine compresses its blocks.
#[derive(Clone, Copy, Debug, PartialEq, Eq, Structural)]
pub enum DBCompressionTypePy {
    /// No compression.
    Uncompressed,
    /// Snappy.
    Snappy,
    /// Zlib.
    Zlib,
    /// Bzip2.
    Bz2,
    /// LZ4.
    Lz4,
    /// LZ4 at high compression.
    Lz4hc,
    /// Zstandard.
    Zstd,
}

impl DBCompressionTypePy {
    pub fn none() -> (r: Self)
        ensures
            r == DBCompressionTypePy::Uncompressed,
    {
        DBCompressionTypePy::Uncompressed
    }

    pub fn snappy() -> (r: Self)
        ensures
            r == DBCompressionTypePy::Snappy,
    {
        DBCompressionTypePy::Snappy
    }

    pub fn zlib() -> (r: Self)
        ensures
            r == DBCompressionTypePy::Zlib,
    {
        DBCompressionTypePy::Zlib
    }

    pub fn bz2() -> (r: Self)
        ensures
            r == DBCompressionTypePy::Bz2,
    {
        DBCompressionTypePy::Bz2
    }

    pub fn lz4() -> (r: Self)
        ensures
            r == DBCompressionTypePy::Lz4,
    {
        DBCompressionTypePy::Lz4
    }

    pub fn lz4hc() -> (r: Self)
        ensures
            r == DBCompressionTypePy::Lz4hc,
    {
        DBCompressionTypePy::Lz4hc
    }

    pub fn zstd() -> (r: Self)
        ensures
            r == DBCompressionTypePy::Zstd,
    {
        DBCompressionTypePy::Zstd
    }
}

/// How the engine merges its files.
#[derive(Clone, Copy, Debug, PartialEq, Eq, Structural)]
pub enum DBCompactionStylePy {
    /// By level.
    Level,
    /// Universal.
    Universal,
    /// Oldest out first.
    Fifo,
}

impl DBCompactionStylePy {
    pub fn level_style() -> (r: Self)
        ensures
            r == DBCompactionStylePy::Level,
    {
        DBCompactionStylePy::Level
    }

    pub fn universal_style() -> (r: Self)
        ensures
            r == DBCompactionStylePy::Universal,
    {
        DBCompactionStylePy::Universal
    }

    pub fn fifo_style() -> (r: Self)
        ensures
            r == DBCompactionStylePy::Fifo,
    {
        DBCompactionStylePy::Fifo
    }
}

/// How the engine reads its log after a crash.
#[derive(Clone, Copy, Debug, PartialEq, Eq, Structural)]
pub enum DBRecoveryModePy {
    /// A torn last record is passed over.
    TolerateCorruptedTailRecords,
    /// Any damage in the log is an error.
    AbsoluteConsistency,
    /// Recovery stops at the first damage.
    PointInTime,
    /// Damaged records are passed over.
    SkipAnyCorruptedRecord,
}

impl DBRecoveryModePy {
    pub fn tolerate_corrupted_tail_records_mode() -> (r: Self)
        ensures
            r == DBRecoveryModePy::TolerateCorruptedTailRecords,
    {
        DBRecoveryModePy::TolerateCorruptedTailRecords
    }

    pub fn absolute_consistency_mode() -> (r: Self)
        ensures
            r == DBRecoveryModePy::AbsoluteConsistency,
    {
        DBRecoveryModePy::AbsoluteConsistency
    }

    pub fn point_in_time_mode() -> (r: Self)
        ensures
            r == DBRecoveryModePy::PointInTime,
    {
        DBRecoveryModePy::PointInTime
    }

    pub fn skip_any_corrupted_record_mode() -> (r: Self)
        ensures
            r == DBRecoveryModePy::SkipAnyCorruptedRecord,
    {
        DBRecoveryModePy::SkipAnyCorruptedRecord
    }
}

/// How a table's index is searched.
#[derive(Clone, Copy, Debug, PartialEq, Eq, Structural)]
pub enum BlockBasedIndexTypePy {
    /// By binary search.
    BinarySearch,
    /// By hash, where a prefix extractor is set.
    HashSearch,
    /// By a two-level index.
    TwoLevelIndexSearch,
}

impl BlockBasedIndexTypePy {
    pub fn binary_search() -> (r: Self)
        ensures
            r == BlockBasedIndexTypePy::BinarySearch,
    {
        BlockBasedIndexTypePy::BinarySearch
    }

    pub fn hash_search() -> (r: Self)
        ensures
            r == BlockBasedIndexTypePy::HashSearch,
    {
        BlockBasedIndexTypePy::HashSearch
    }

    pub fn two_level_index_search() -> (r: Self)
        ensures
            r == BlockBasedIndexTypePy::TwoLevelIndexSearch,
    {
        BlockBasedIndexTypePy::TwoLevelIndexSearch
    }
}

/// How a data block is searched.
#[derive(Clone, Copy, Debug, PartialEq, Eq, Structural)]
pub enum DataBlockIndexTypePy {
    /// By binary search.
    BinarySearch,
    /// By binary search and a hash index.
    BinaryAndHash,
}

impl DataBlockIndexTypePy {
    pub fn binary_search() -> (r: Self)
        ensures
            r == DataBlockIndexTypePy::BinarySearch,
    {
        DataBlockIndexTypePy::BinarySearch
    }

    pub fn binary_and_hash() -> (r: Self)
        ensures
            r == DataBlockIndexTypePy::BinaryAndHash,
    {
        DataBlockIndexTypePy::BinaryAndHash
    }
}

/// When universal compaction stops taking files in.
#[derive(Clone, Copy, Debug, PartialEq, Eq, Structural)]
pub enum UniversalCompactionStopStylePy {
    /// At a file of another size.
    Similar,
    /// At a total size.
    Total,
}

impl UniversalCompactionStopStylePy {
    pub fn similar() -> (r: Self)
        ensures
            r == UniversalCompactionStopStylePy::Similar,
    {
        UniversalCompactionStopStylePy::Similar
    }

    pub fn total() -> (r: Self)
        ensures
            r == UniversalCompactionStopStylePy::Total,
    {
        UniversalCompactionStopStylePy::Total
    }
}

/// The memtable that the engine writes into.
#[derive(Clone, Copy, Debug, PartialEq, Eq, Structural)]
pub enum MemtableFactoryPy {
    Vector,
    HashSkipList { bucket_count: usize, height: i32, branching_factor: i32 },
    HashLinkList { bucket_count: usize },
}

impl MemtableFactoryPy {
    pub fn vector() -> (r: Self)
        ensures
            r == MemtableFactoryPy::Vector,
    {
        MemtableFactoryPy::Vector
    }

    pub fn hash_skip_list(bucket_count: usize, height: i32, branching_factor: i32) -> (r: Self)
        ensures
            r == (MemtableFactoryPy::HashSkipList { bucket_count, height, branching_factor }),
    {
        MemtableFactoryPy::HashSkipList { bucket_count, height, branching_factor }
    }

    pub fn hash_link_list(bucket_count: usize) -> (r: Self)
        ensures
            r == (MemtableFactoryPy::HashLinkList { bucket_count }),
    {
        MemtableFactoryPy::HashLinkList { bucket_count }
    }
}

/// A directory that the engine may put table files in, up to a size.
#[derive(Clone, Debug, PartialEq, Eq)]
pub struct DBPathPy {
    pub path: String,
    pub target_size: u64,
}

impl DBPathPy {
    pub fn new(path: &str, target_size: u64) -> (r: Self)
        ensures
            r.path@ == path@,
            r.target_size == target_size,
    {
        DBPathPy { path: path.to_owned(), target_size }
    }
}

/// The settings of universal compaction.
#[derive(Clone, Copy, Debug, PartialEq, Eq, Structural)]
pub struct UniversalCompactOptionsPy {
    pub size_ratio: i32,
    pub min_merge_width: i32,
    pub max_merge_width: i32,
    pub max_size_amplification_percent: i32,
    pub compression_size_percent: i32,
    pub stop_style: UniversalCompactionStopStylePy,
}

/// The settings that universal compaction starts with.
pub open spec fn default_universal_compaction() -> UniversalCompactOptionsPy {
    UniversalCompactOptionsPy {
        size_ratio: 1,
        min_merge_width: 2,
        max_merge_width: i32::MAX,
        max_size_amplification_percent: 200,
        compression_size_percent: -1i32,
        stop_style: UniversalCompactionStopStylePy::Total,
    }
}

impl UniversalCompactOptionsPy {
    pub fn default() -> (r: Self)
        ensures
            r == default_universal_compaction(),
    {
        UniversalCompactOptionsPy {
            size_ratio: 1,
            min_merge_width: 2,
            max_merge_width: i32::MAX,
            max_size_amplification_percent: 200,
            compression_size_percent: -1,
            stop_style: UniversalCompactionStopStylePy::Total,
        }
    }

    pub fn set_size_ratio(&mut self, v: i32)
        ensures
            *final(self) == (UniversalCompactOptionsPy { size_ratio: v, ..*old(self) }),
    {
        self.size_ratio = v;
    }

    pub fn set_min_merge_width(&mut self, v: i32)
        ensures
            *final(self) == (UniversalCompactOptionsPy { min_merge_width: v, ..*old(self) }),
    {
        self.min_merge_width = v;
    }

    pub fn set_max_merge_width(&mut self, v: i32)
        ensures
            *final(self) == (UniversalCompactOptionsPy { max_merge_width: v, ..*old(self) }),
    {
        self.max_merge_width = v;
    }

    pub fn set_max_size_amplification_percent(&mut self, v: i32)
        ensures
            *final(self) == (UniversalCompactOptionsPy { max_size_amplification_percent: v, ..*old(self) }),
    {
        self.max_size_amplification_percent = v;
    }

    pub fn set_compression_size_percent(&mut self, v: i32)
        ensures
            *final(self) == (UniversalCompactOptionsPy { compression_size_percent: v, ..*old(self) }),
    {
        self.compression_size_percent = v;
    }

    pub fn set_stop_style(&mut self, style: UniversalCompactionStopStylePy)
        ensures
            *final(self) == (UniversalCompactOptionsPy { stop_style: style, ..*old(self) }),
    {
        self.stop_style = style;
    }
}

/// The settings of oldest-out-first compaction.
#[derive(Clone, Copy, Debug, PartialEq, Eq, Structural)]
pub struct FifoCompactOptionsPy {
    /// The total size of table files above which the oldest are deleted.
    pub max_table_files_size: u64,
}

impl FifoCompactOptionsPy {
    pub fn set_max_table_files_size(&mut self, nbytes: u64)
        ensures
            final(self).max_table_files_size == nbytes,
    {
        self.max_table_files_size = nbytes;
    }
}

/// The longest prefix that a max-length prefix extractor can be made for.
pub const MAX_PREFIX_LEN: usize = 128;

/// How the engine takes the prefix of a key.
#[derive(Clone, Copy, Debug, PartialEq, Eq, Structural)]
pub enum SliceTransformType {
    /// The first bytes of the key, of this number.
    Fixed(usize),
    /// The first bytes of the key, of at most this number.
    MaxLen(usize),
    /// The whole key.
    NOOP,
}

/// A choice of prefix extractor.
#[derive(Clone, Copy, Debug, PartialEq, Eq, Structural)]
pub struct SliceTransformPy(pub SliceTransformType);

/// The prefix of `key` of at most `len` bytes.
pub open spec fn prefix_up_to(key: Seq<u8>, len: int) -> Seq<u8> {
    if key.len() > len {
        key.subrange(0, len)
    } else {
        key
    }
}

impl SliceTransformPy {
    pub fn create_fixed_prefix(len: usize) -> (r: Self)
        ensures
            r.0 == SliceTransformType::Fixed(len),
    {
        SliceTransformPy(SliceTransformType::Fixed(len))
    }

    pub fn create_max_len_prefix(len: usize) -> (r: Self)
        ensures
            r.0 == SliceTransformType::MaxLen(len),
    {
        SliceTransformPy(SliceTransformType::MaxLen(len))
    }

    pub fn create_noop() -> (r: Self)
        ensures
            r.0 == SliceTransformType::NOOP,
    {
        SliceTransformPy(SliceTransformType::NOOP)
    }

    /// Whether an extractor can be made for this choice: every choice but a
    /// max-length prefix of no bytes or of more than 128.
    pub open spec fn supported(self) -> bool {
        match self.0 {
            SliceTransformType::MaxLen(len) => 1 <= len <= MAX_PREFIX_LEN,
            _ => true,
        }
    }

    /// Tells whether an extractor can be made for this choice.
    pub fn is_supported(&self) -> (ok: bool)
        ensures
            ok == self.supported(),
    {
        match self.0 {
            SliceTransformType::MaxLen(len) => 1 <= len && len <= MAX_PREFIX_LEN,
            _ => true,
        }
    }
}

/// The prefix that a max-length extractor of `len` bytes takes of `key`: the
/// whole key where it is no longer than `len`, else its first `len` bytes.
pub fn max_len_prefix(key: &[u8], len: usize) -> (prefix: &[u8])
    ensures
        prefix@ == prefix_up_to(key@, len as int),
{
    if key.len() > len {
        vstd::slice::slice_subrange(key, 0, len)
    } else {
        key
    }
}

/// A prefix is never longer than the key or than the extractor's length, it
/// starts the key, and taking the prefix of a prefix changes nothing.
pub proof fn lemma_prefix_up_to(key: Seq<u8>, len: nat)
    ensures
        prefix_up_to(key, len as int).len() <= len,
        prefix_up_to(key, len as int).len() <= key.len(),
        prefix_up_to(key, len as int).is_prefix_of(key),
        prefix_up_to(prefix_up_to(key, len as int), len as int) == prefix_up_to(key, len as int),
{
}

} // verus!

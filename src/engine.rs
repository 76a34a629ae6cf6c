//! Options of the storage engine and of its column families, read from the
//! configuration over built-in defaults.

use vstd::prelude::*;
use vstd::string::{StrSliceExecFns, StringExecFns};
use crate::config::{
    opt_view, bool_setting, get_toml_boolean, get_toml_int, get_toml_string, int_setting, string_setting,
    err_view, ConfigError, ConfigErrorKind, ConfigValue,
};
use crate::sizing::{
    adjust_block_cache_size, align_to_mb, cf_cache_share, clamp, lemma_share_bounds, share_of,
    DEFAULTCF_CACHE_PERCENT, GB, KB, LOCKCF_CACHE_PERCENT, LOCKCF_MAX_MEM, LOCKCF_MIN_MEM, MB,
    RAFTCF_CACHE_PERCENT, RAFTCF_MAX_MEM, RAFTCF_MIN_MEM, WRITECF_CACHE_PERCENT,
};
use crate::text::{same_text, split_on, split_seq, strings_view};

verus! {

/// A compression algorithm of one level of the engine's tree.
#[derive(Copy, Clone, Debug, PartialEq, Eq, Structural)]
pub enum Compression {
    No,
    Snappy,
    Zlib,
    Bz2,
    Lz4,
    Lz4hc,
    Zstd,
}

/// The compression that a name stands for.
pub open spec fn compression_named(s: Seq<char>) -> Option<Compression> {
    if s == "no"@ {
        Some(Compression::No)
    } else if s == "snappy"@ {
        Some(Compression::Snappy)
    } else if s == "zlib"@ {
        Some(Compression::Zlib)
    } else if s == "bzip2"@ {
        Some(Compression::Bz2)
    } else if s == "lz4"@ {
        Some(Compression::Lz4)
    } else if s == "lz4hc"@ {
        Some(Compression::Lz4hc)
    } else if s == "zstd"@ {
        Some(Compression::Zstd)
    } else {
        None
    }
}

fn compression_of_name(s: &str) -> (r: Option<Compression>)
    ensures
        r == compression_named(s@),
{
    if same_text(s, "no") {
        Some(Compression::No)
    } else if same_text(s, "snappy") {
        Some(Compression::Snappy)
    } else if same_text(s, "zlib") {
        Some(Compression::Zlib)
    } else if same_text(s, "bzip2") {
        Some(Compression::Bz2)
    } else if same_text(s, "lz4") {
        Some(Compression::Lz4)
    } else if same_text(s, "lz4hc") {
        Some(Compression::Lz4hc)
    } else if same_text(s, "zstd") {
        Some(Compression::Zstd)
    } else {
        None
    }
}

/// The compressions that a list of names stands for, if every name is known.
pub open spec fn compressions_of_names(names: Seq<Seq<char>>) -> Option<Seq<Compression>>
    decreases names.len(),
{
    if names.len() == 0 {
        Some(Seq::empty())
    } else {
        match (compressions_of_names(names.drop_last()), compression_named(names.last())) {
            (Some(prev), Some(c)) => Some(prev.push(c)),
            _ => None,
        }
    }
}

/// The compressions of the levels that a list `name:name:...` names.
pub open spec fn compressions_of(s: Seq<char>) -> Option<Seq<Compression>> {
    compressions_of_names(split_seq(s, ':'))
}

proof fn lemma_compressions_fail_forever(names: Seq<Seq<char>>, k: int)
    requires
        0 <= k <= names.len(),
        compressions_of_names(names.take(k)) is None,
    ensures
        compressions_of_names(names) is None,
    decreases names.len() - k,
{
    if k < names.len() {
        assert(names.take(k + 1).drop_last() =~= names.take(k));
        lemma_compressions_fail_forever(names, k + 1);
    } else {
        assert(names.take(k) =~= names);
    }
}

/// Reads a per-level compression list such as `no:no:lz4:lz4:lz4:zstd:zstd`.
pub fn parse_rocksdb_per_level_compression(tp: &str) -> (r: Result<Vec<Compression>, ConfigError>)
    ensures
        match compressions_of(tp@) {
            Some(cs) => r is Ok && r->Ok_0@ == cs,
            None => r is Err && err_view(r->Err_0) == (ConfigErrorKind::BadCompression, tp@),
        },
{
    let names = split_on(tp, ':');
    let ghost views = strings_view(names@);
    let mut out: Vec<Compression> = Vec::new();
    let mut i: usize = 0;
    while i < names.len()
        invariant
            i <= names.len(),
            views == strings_view(names@),
            views == split_seq(tp@, ':'),
            compressions_of_names(views.take(i as int)) == Some(out@),
        decreases names.len() - i,
    {
        assert(views.take(i as int + 1).drop_last() =~= views.take(i as int));
        assert(views.take(i as int + 1).last() == names@[i as int]@);
        match compression_of_name(names[i].as_str()) {
            Some(c) => {
                out.push(c);
            },
            None => {
                proof {
                    lemma_compressions_fail_forever(views, i as int + 1);
                }
                return Err(ConfigError::new(ConfigErrorKind::BadCompression, tp));
            },
        }
        i = i + 1;
    }
    assert(views.take(i as int) =~= views);
    Ok(out)
}

/// The order in which the engine picks files to compact.
#[derive(Copy, Clone, Debug, PartialEq, Eq, Structural)]
pub enum CompactionPriority {
    ByCompensatedSize,
    OldestLargestSeqFirst,
    OldestSmallestSeqFirst,
    MinOverlappingRatio,
}

pub open spec fn compaction_pri_of(i: i64) -> Option<CompactionPriority> {
    if i == 0 {
        Some(CompactionPriority::ByCompensatedSize)
    } else if i == 1 {
        Some(CompactionPriority::OldestLargestSeqFirst)
    } else if i == 2 {
        Some(CompactionPriority::OldestSmallestSeqFirst)
    } else if i == 3 {
        Some(CompactionPriority::MinOverlappingRatio)
    } else {
        None
    }
}

pub fn parse_rocksdb_compaction_pri(priority: i64) -> (r: Result<CompactionPriority, ConfigError>)
    ensures
        match compaction_pri_of(priority) {
            Some(p) => r == Ok::<CompactionPriority, ConfigError>(p),
            None => r is Err && r->Err_0.kind == ConfigErrorKind::BadCompactionPri,
        },
{
    if priority == 0 {
        Ok(CompactionPriority::ByCompensatedSize)
    } else if priority == 1 {
        Ok(CompactionPriority::OldestLargestSeqFirst)
    } else if priority == 2 {
        Ok(CompactionPriority::OldestSmallestSeqFirst)
    } else if priority == 3 {
        Ok(CompactionPriority::MinOverlappingRatio)
    } else {
        Err(ConfigError::new(ConfigErrorKind::BadCompactionPri, "compaction-pri"))
    }
}

/// How the engine recovers its write-ahead log after a crash.
#[derive(Copy, Clone, Debug, PartialEq, Eq, Structural)]
pub enum WalRecoveryMode {
    TolerateCorruptedTailRecords,
    AbsoluteConsistency,
    PointInTime,
    SkipAnyCorruptedRecords,
}

pub open spec fn wal_recovery_mode_of(i: i64) -> Option<WalRecoveryMode> {
    if i == 0 {
        Some(WalRecoveryMode::TolerateCorruptedTailRecords)
    } else if i == 1 {
        Some(WalRecoveryMode::AbsoluteConsistency)
    } else if i == 2 {
        Some(WalRecoveryMode::PointInTime)
    } else if i == 3 {
        Some(WalRecoveryMode::SkipAnyCorruptedRecords)
    } else {
        None
    }
}

pub fn parse_rocksdb_wal_recovery_mode(mode: i64) -> (r: Result<WalRecoveryMode, ConfigError>)
    ensures
        match wal_recovery_mode_of(mode) {
            Some(m) => r == Ok::<WalRecoveryMode, ConfigError>(m),
            None => r is Err && r->Err_0.kind == ConfigErrorKind::BadWalRecoveryMode,
        },
{
    if mode == 0 {
        Ok(WalRecoveryMode::TolerateCorruptedTailRecords)
    } else if mode == 1 {
        Ok(WalRecoveryMode::AbsoluteConsistency)
    } else if mode == 2 {
        Ok(WalRecoveryMode::PointInTime)
    } else if mode == 3 {
        Ok(WalRecoveryMode::SkipAnyCorruptedRecords)
    } else {
        Err(ConfigError::new(ConfigErrorKind::BadWalRecoveryMode, "wal-recovery-mode"))
    }
}

/// The name of a column family's option: `rocksdb.<cf>.<name>`.
pub open spec fn cf_key_spec(cf: Seq<char>, name: Seq<char>) -> Seq<char> {
    "rocksdb."@ + cf + "."@ + name
}

pub fn cf_key(cf: &str, name: &str) -> (r: String)
    ensures
        r@ == cf_key_spec(cf@, name@),
{
    "rocksdb.".to_owned().concat(cf).concat(".").concat(name)
}

/// The built-in values of a column family's options.
pub struct CfOptValues {
    pub block_size: i64,
    pub block_cache_size: i64,
    pub write_buffer_size: i64,
    pub max_write_buffer_number: i64,
    pub min_write_buffer_number_to_merge: i64,
    pub max_bytes_for_level_base: i64,
    pub target_file_size_base: i64,
    pub level_zero_file_num_compaction_trigger: i64,
    pub level_zero_slowdown_writes_trigger: i64,
    pub level_zero_stop_writes_trigger: i64,
    pub max_compaction_bytes: i64,
    pub cache_index_and_filter_blocks: bool,
    pub use_bloom_filter: bool,
    pub whole_key_filtering: bool,
    pub bloom_bits_per_key: i64,
    pub block_based_filter: bool,
    pub compression_per_level: String,
    pub compaction_pri: i64,
}

/// The built-in values of a column family's options, as plain values.
pub struct CfDefaultsView {
    pub block_size: i64,
    pub block_cache_size: i64,
    pub write_buffer_size: i64,
    pub max_write_buffer_number: i64,
    pub min_write_buffer_number_to_merge: i64,
    pub max_bytes_for_level_base: i64,
    pub target_file_size_base: i64,
    pub level_zero_file_num_compaction_trigger: i64,
    pub level_zero_slowdown_writes_trigger: i64,
    pub level_zero_stop_writes_trigger: i64,
    pub max_compaction_bytes: i64,
    pub cache_index_and_filter_blocks: bool,
    pub use_bloom_filter: bool,
    pub whole_key_filtering: bool,
    pub bloom_bits_per_key: i64,
    pub block_based_filter: bool,
    pub compression_per_level: Seq<char>,
    pub compaction_pri: i64,
}

impl CfOptValues {
    pub open spec fn view(&self) -> CfDefaultsView {
        CfDefaultsView {
            block_size: self.block_size,
            block_cache_size: self.block_cache_size,
            write_buffer_size: self.write_buffer_size,
            max_write_buffer_number: self.max_write_buffer_number,
            min_write_buffer_number_to_merge: self.min_write_buffer_number_to_merge,
            max_bytes_for_level_base: self.max_bytes_for_level_base,
            target_file_size_base: self.target_file_size_base,
            level_zero_file_num_compaction_trigger: self.level_zero_file_num_compaction_trigger,
            level_zero_slowdown_writes_trigger: self.level_zero_slowdown_writes_trigger,
            level_zero_stop_writes_trigger: self.level_zero_stop_writes_trigger,
            max_compaction_bytes: self.max_compaction_bytes,
            cache_index_and_filter_blocks: self.cache_index_and_filter_blocks,
            use_bloom_filter: self.use_bloom_filter,
            whole_key_filtering: self.whole_key_filtering,
            bloom_bits_per_key: self.bloom_bits_per_key,
            block_based_filter: self.block_based_filter,
            compression_per_level: self.compression_per_level@,
            compaction_pri: self.compaction_pri,
        }
    }
}

/// The defaults that every column family starts from.
pub open spec fn base_cf_defaults() -> CfDefaultsView {
    CfDefaultsView {
        block_size: (64 * KB) as i64,
        block_cache_size: (256 * MB) as i64,
        write_buffer_size: (128 * MB) as i64,
        max_write_buffer_number: (5) as i64,
        min_write_buffer_number_to_merge: (1) as i64,
        max_bytes_for_level_base: (512 * MB) as i64,
        target_file_size_base: (32 * MB) as i64,
        level_zero_file_num_compaction_trigger: (4) as i64,
        level_zero_slowdown_writes_trigger: (20) as i64,
        level_zero_stop_writes_trigger: (36) as i64,
        max_compaction_bytes: (2 * GB) as i64,
        cache_index_and_filter_blocks: true,
        use_bloom_filter: false,
        whole_key_filtering: true,
        bloom_bits_per_key: 10,
        block_based_filter: false,
        compression_per_level: "no:no:lz4:lz4:lz4:zstd:zstd"@,
        compaction_pri: 0,
    }
}

impl Default for CfOptValues {
    fn default() -> (r: CfOptValues)
        ensures
            r.view() == base_cf_defaults(),
    {
        CfOptValues {
            block_size: (64 * KB) as i64,
            block_cache_size: (256 * MB) as i64,
            write_buffer_size: (128 * MB) as i64,
            max_write_buffer_number: (5) as i64,
            min_write_buffer_number_to_merge: (1) as i64,
            max_bytes_for_level_base: (512 * MB) as i64,
            target_file_size_base: (32 * MB) as i64,
            level_zero_file_num_compaction_trigger: (4) as i64,
            level_zero_slowdown_writes_trigger: (20) as i64,
            level_zero_stop_writes_trigger: (36) as i64,
            max_compaction_bytes: (2 * GB) as i64,
            cache_index_and_filter_blocks: true,
            use_bloom_filter: false,
            whole_key_filtering: true,
            bloom_bits_per_key: 10,
            block_based_filter: false,
            compression_per_level: "no:no:lz4:lz4:lz4:zstd:zstd".to_owned(),
            compaction_pri: 0,
        }
    }
}

/// A bloom filter's settings.
#[derive(Copy, Clone, Debug, PartialEq, Eq, Structural)]
pub struct BloomFilter {
    pub bits_per_key: i64,
    pub block_based: bool,
    pub whole_key_filtering: bool,
}

/// A column family's options, as read.
#[derive(Debug)]
pub struct CfOptions {
    pub block_size: i64,
    pub block_cache_size: i64,
    pub cache_index_and_filter_blocks: bool,
    pub bloom_filter: Option<BloomFilter>,
    pub compression_per_level: Vec<Compression>,
    pub write_buffer_size: i64,
    pub max_write_buffer_number: i64,
    pub min_write_buffer_number_to_merge: i64,
    pub max_bytes_for_level_base: i64,
    pub target_file_size_base: i64,
    pub level_zero_file_num_compaction_trigger: i64,
    pub level_zero_slowdown_writes_trigger: i64,
    pub level_zero_stop_writes_trigger: i64,
    pub max_compaction_bytes: i64,
    pub compaction_pri: CompactionPriority,
}

/// Whether `r` is a column family's options read from `config` under
/// `rocksdb.<cf>.` over the defaults `d`, and fails exactly when one of them
/// cannot be read.
pub open spec fn cf_options_resolved(config: ConfigValue, cf: Seq<char>, d: CfDefaultsView, r: Result<CfOptions, ConfigError>) -> bool {
    &&& r is Ok <==> (int_setting(config, cf_key_spec(cf, "block-size"@), Some(d.block_size)) is Ok
        && int_setting(config, cf_key_spec(cf, "block-cache-size"@), Some(d.block_cache_size)) is Ok
        && bool_setting(config, cf_key_spec(cf, "cache-index-and-filter-blocks"@), Some(d.cache_index_and_filter_blocks)) is Ok
        && (d.use_bloom_filter ==> int_setting(config, cf_key_spec(cf, "bloom-filter-bits-per-key"@), Some(d.bloom_bits_per_key)) is Ok && bool_setting(config, cf_key_spec(cf, "block-based-bloom-filter"@), Some(d.block_based_filter)) is Ok)
        && int_setting(config, cf_key_spec(cf, "write-buffer-size"@), Some(d.write_buffer_size)) is Ok
        && int_setting(config, cf_key_spec(cf, "max-write-buffer-number"@), Some(d.max_write_buffer_number)) is Ok
        && int_setting(config, cf_key_spec(cf, "min-write-buffer-number-to-merge"@), Some(d.min_write_buffer_number_to_merge)) is Ok
        && int_setting(config, cf_key_spec(cf, "max-bytes-for-level-base"@), Some(d.max_bytes_for_level_base)) is Ok
        && int_setting(config, cf_key_spec(cf, "target-file-size-base"@), Some(d.target_file_size_base)) is Ok
        && int_setting(config, cf_key_spec(cf, "level0-file-num-compaction-trigger"@), Some(d.level_zero_file_num_compaction_trigger)) is Ok
        && int_setting(config, cf_key_spec(cf, "level0-slowdown-writes-trigger"@), Some(d.level_zero_slowdown_writes_trigger)) is Ok
        && int_setting(config, cf_key_spec(cf, "level0-stop-writes-trigger"@), Some(d.level_zero_stop_writes_trigger)) is Ok
        && int_setting(config, cf_key_spec(cf, "max-compaction-bytes"@), Some(d.max_compaction_bytes)) is Ok
        && string_setting(config, cf_key_spec(cf, "compression-per-level"@), Some(d.compression_per_level)) is Ok
        && compressions_of(string_setting(config, cf_key_spec(cf, "compression-per-level"@), Some(d.compression_per_level))->Ok_0) is Some
        && int_setting(config, cf_key_spec(cf, "compaction-pri"@), Some(d.compaction_pri)) is Ok
        && compaction_pri_of(int_setting(config, cf_key_spec(cf, "compaction-pri"@), Some(d.compaction_pri))->Ok_0) is Some)
    &&& r is Ok ==> r->Ok_0.block_size == int_setting(config, cf_key_spec(cf, "block-size"@), Some(d.block_size))->Ok_0
    &&& r is Ok ==> r->Ok_0.block_cache_size == int_setting(config, cf_key_spec(cf, "block-cache-size"@), Some(d.block_cache_size))->Ok_0
    &&& r is Ok ==> r->Ok_0.write_buffer_size == int_setting(config, cf_key_spec(cf, "write-buffer-size"@), Some(d.write_buffer_size))->Ok_0
    &&& r is Ok ==> r->Ok_0.max_write_buffer_number == int_setting(config, cf_key_spec(cf, "max-write-buffer-number"@), Some(d.max_write_buffer_number))->Ok_0
    &&& r is Ok ==> r->Ok_0.min_write_buffer_number_to_merge == int_setting(config, cf_key_spec(cf, "min-write-buffer-number-to-merge"@), Some(d.min_write_buffer_number_to_merge))->Ok_0
    &&& r is Ok ==> r->Ok_0.max_bytes_for_level_base == int_setting(config, cf_key_spec(cf, "max-bytes-for-level-base"@), Some(d.max_bytes_for_level_base))->Ok_0
    &&& r is Ok ==> r->Ok_0.target_file_size_base == int_setting(config, cf_key_spec(cf, "target-file-size-base"@), Some(d.target_file_size_base))->Ok_0
    &&& r is Ok ==> r->Ok_0.level_zero_file_num_compaction_trigger == int_setting(config, cf_key_spec(cf, "level0-file-num-compaction-trigger"@), Some(d.level_zero_file_num_compaction_trigger))->Ok_0
    &&& r is Ok ==> r->Ok_0.level_zero_slowdown_writes_trigger == int_setting(config, cf_key_spec(cf, "level0-slowdown-writes-trigger"@), Some(d.level_zero_slowdown_writes_trigger))->Ok_0
    &&& r is Ok ==> r->Ok_0.level_zero_stop_writes_trigger == int_setting(config, cf_key_spec(cf, "level0-stop-writes-trigger"@), Some(d.level_zero_stop_writes_trigger))->Ok_0
    &&& r is Ok ==> r->Ok_0.max_compaction_bytes == int_setting(config, cf_key_spec(cf, "max-compaction-bytes"@), Some(d.max_compaction_bytes))->Ok_0
    &&& r is Ok ==> r->Ok_0.cache_index_and_filter_blocks == bool_setting(config, cf_key_spec(cf, "cache-index-and-filter-blocks"@), Some(d.cache_index_and_filter_blocks))->Ok_0
    &&& r is Ok ==> r->Ok_0.bloom_filter == (if d.use_bloom_filter {
        Some(BloomFilter {
        bits_per_key: int_setting(config, cf_key_spec(cf, "bloom-filter-bits-per-key"@), Some(d.bloom_bits_per_key))->Ok_0,
        block_based: bool_setting(config, cf_key_spec(cf, "block-based-bloom-filter"@), Some(d.block_based_filter))->Ok_0,
        whole_key_filtering: d.whole_key_filtering,
        })
        } else {
        None
        })
    &&& r is Ok ==> r->Ok_0.compression_per_level@ == compressions_of(string_setting(config, cf_key_spec(cf, "compression-per-level"@), Some(d.compression_per_level))->Ok_0)->0
    &&& r is Ok ==> Some(r->Ok_0.compaction_pri) == compaction_pri_of(int_setting(config, cf_key_spec(cf, "compaction-pri"@), Some(d.compaction_pri))->Ok_0)
}

/// A column family's options: each one the file gives under
/// `rocksdb.<cf>.`, else the family's default. The bloom filter's options are
/// read only where the family uses one.
pub fn get_rocksdb_cf_option(config: &ConfigValue, cf: &str, defaults: &CfOptValues) -> (r: Result<CfOptions, ConfigError>)
    ensures
        cf_options_resolved(*config, cf@, defaults.view(), r),
{
    let block_size = match get_toml_int(config, cf_key(cf, "block-size").as_str(), Some(defaults.block_size)) {
        Ok(v) => v,
        Err(e) => return Err(e),
    };
    let block_cache_size = match get_toml_int(config, cf_key(cf, "block-cache-size").as_str(), Some(defaults.block_cache_size)) {
        Ok(v) => v,
        Err(e) => return Err(e),
    };
    let cache_index_and_filter_blocks = match get_toml_boolean(config, cf_key(cf, "cache-index-and-filter-blocks").as_str(), Some(defaults.cache_index_and_filter_blocks)) {
        Ok(v) => v,
        Err(e) => return Err(e),
    };
    let bloom_filter = if defaults.use_bloom_filter {
        let bits_per_key = match get_toml_int(config, cf_key(cf, "bloom-filter-bits-per-key").as_str(), Some(defaults.bloom_bits_per_key)) {
            Ok(v) => v,
            Err(e) => return Err(e),
        };
        let block_based = match get_toml_boolean(config, cf_key(cf, "block-based-bloom-filter").as_str(), Some(defaults.block_based_filter)) {
            Ok(v) => v,
            Err(e) => return Err(e),
        };
        Some(BloomFilter { bits_per_key, block_based, whole_key_filtering: defaults.whole_key_filtering })
    } else {
        None
    };
    let cpl = match get_toml_string(config, cf_key(cf, "compression-per-level").as_str(), Some(defaults.compression_per_level.clone())) {
        Ok(v) => v,
        Err(e) => return Err(e),
    };
    let compression_per_level = match parse_rocksdb_per_level_compression(cpl.as_str()) {
        Ok(v) => v,
        Err(e) => return Err(e),
    };
    let write_buffer_size = match get_toml_int(config, cf_key(cf, "write-buffer-size").as_str(), Some(defaults.write_buffer_size)) {
        Ok(v) => v,
        Err(e) => return Err(e),
    };
    let max_write_buffer_number = match get_toml_int(config, cf_key(cf, "max-write-buffer-number").as_str(), Some(defaults.max_write_buffer_number)) {
        Ok(v) => v,
        Err(e) => return Err(e),
    };
    let min_write_buffer_number_to_merge = match get_toml_int(config, cf_key(cf, "min-write-buffer-number-to-merge").as_str(), Some(defaults.min_write_buffer_number_to_merge)) {
        Ok(v) => v,
        Err(e) => return Err(e),
    };
    let max_bytes_for_level_base = match get_toml_int(config, cf_key(cf, "max-bytes-for-level-base").as_str(), Some(defaults.max_bytes_for_level_base)) {
        Ok(v) => v,
        Err(e) => return Err(e),
    };
    let target_file_size_base = match get_toml_int(config, cf_key(cf, "target-file-size-base").as_str(), Some(defaults.target_file_size_base)) {
        Ok(v) => v,
        Err(e) => return Err(e),
    };
    let level_zero_file_num_compaction_trigger = match get_toml_int(config, cf_key(cf, "level0-file-num-compaction-trigger").as_str(), Some(defaults.level_zero_file_num_compaction_trigger)) {
        Ok(v) => v,
        Err(e) => return Err(e),
    };
    let level_zero_slowdown_writes_trigger = match get_toml_int(config, cf_key(cf, "level0-slowdown-writes-trigger").as_str(), Some(defaults.level_zero_slowdown_writes_trigger)) {
        Ok(v) => v,
        Err(e) => return Err(e),
    };
    let level_zero_stop_writes_trigger = match get_toml_int(config, cf_key(cf, "level0-stop-writes-trigger").as_str(), Some(defaults.level_zero_stop_writes_trigger)) {
        Ok(v) => v,
        Err(e) => return Err(e),
    };
    let max_compaction_bytes = match get_toml_int(config, cf_key(cf, "max-compaction-bytes").as_str(), Some(defaults.max_compaction_bytes)) {
        Ok(v) => v,
        Err(e) => return Err(e),
    };
    let priority = match get_toml_int(config, cf_key(cf, "compaction-pri").as_str(), Some(defaults.compaction_pri)) {
        Ok(v) => v,
        Err(e) => return Err(e),
    };
    let compaction_pri = match parse_rocksdb_compaction_pri(priority) {
        Ok(v) => v,
        Err(e) => return Err(e),
    };
    Ok(CfOptions {
        block_size,
        block_cache_size,
        cache_index_and_filter_blocks,
        bloom_filter,
        compression_per_level,
        write_buffer_size,
        max_write_buffer_number,
        min_write_buffer_number_to_merge,
        max_bytes_for_level_base,
        target_file_size_base,
        level_zero_file_num_compaction_trigger,
        level_zero_slowdown_writes_trigger,
        level_zero_stop_writes_trigger,
        max_compaction_bytes,
        compaction_pri,
    })
}

/// The engine's options, as read.
#[derive(Debug)]
pub struct DbOptions {
    pub wal_recovery_mode: WalRecoveryMode,
    /// A directory of its own for the write-ahead log, if any.
    pub wal_dir: Option<String>,
    pub wal_ttl_seconds: i64,
    pub wal_size_limit_mb: u64,
    pub max_total_wal_size: i64,
    pub max_background_jobs: i64,
    pub max_manifest_file_size: i64,
    pub create_if_missing: bool,
    pub max_open_files: i64,
    /// The statistics dump period, where statistics are on.
    pub stats_dump_period_sec: Option<i64>,
    pub compaction_readahead_size: i64,
    pub info_log_max_size: i64,
    pub info_log_roll_time_secs: i64,
    pub info_log_dir: Option<String>,
    /// The write rate limit, where one is set.
    pub rate_bytes_per_sec: Option<i64>,
    pub max_sub_compactions: i64,
    pub writable_file_max_buffer_size: i64,
    pub use_direct_io_for_flush_and_compaction: bool,
    pub enable_pipelined_write: bool,
}

/// A text, or nothing where it is empty.
pub open spec fn nonempty(s: Seq<char>) -> Option<Seq<char>> {
    if s.len() == 0 {
        None
    } else {
        Some(s)
    }
}

fn non_empty(s: String) -> (r: Option<String>)
    ensures
        opt_view(r) == nonempty(s@),
{
    if s.unicode_len() == 0 {
        None
    } else {
        Some(s)
    }
}

/// Whether `r` is the engine's options read from `config` over the
/// built-in values, and fails exactly when one of them cannot be read.
pub open spec fn db_options_resolved(config: ConfigValue, r: Result<DbOptions, ConfigError>) -> bool {
    &&& r is Ok <==> (int_setting(config, "rocksdb.wal-recovery-mode"@, Some((2) as i64)) is Ok
            && wal_recovery_mode_of(int_setting(config, "rocksdb.wal-recovery-mode"@, Some((2) as i64))->Ok_0) is Some
            && string_setting(config, "rocksdb.wal-dir"@, Some(""@)) is Ok
            && int_setting(config, "rocksdb.wal-size-limit"@, Some((0) as i64)) is Ok
            && int_setting(config, "rocksdb.wal-size-limit"@, Some((0) as i64))->Ok_0 >= 0
            && bool_setting(config, "rocksdb.enable-statistics"@, Some(true)) is Ok
            && (bool_setting(config, "rocksdb.enable-statistics"@, Some(true))->Ok_0 ==> int_setting(config, "rocksdb.stats-dump-period-sec"@, Some((600) as i64)) is Ok)
            && int_setting(config, "rocksdb.info-log-roll-time"@, Some((0) as i64)) is Ok
            && int_setting(config, "rocksdb.info-log-roll-time"@, Some((0) as i64))->Ok_0 >= 0
            && string_setting(config, "rocksdb.info-log-dir"@, Some(""@)) is Ok
            && int_setting(config, "rocksdb.rate-bytes-per-sec"@, Some((0) as i64)) is Ok
            && int_setting(config, "rocksdb.wal-ttl-seconds"@, Some((0) as i64)) is Ok
            && int_setting(config, "rocksdb.max-total-wal-size"@, Some((4 * 1024 * 1024 * 1024) as i64)) is Ok
            && int_setting(config, "rocksdb.max-background-jobs"@, Some((6) as i64)) is Ok
            && int_setting(config, "rocksdb.max-manifest-file-size"@, Some((20 * 1024 * 1024) as i64)) is Ok
            && int_setting(config, "rocksdb.max-open-files"@, Some((40960) as i64)) is Ok
            && int_setting(config, "rocksdb.compaction-readahead-size"@, Some((0) as i64)) is Ok
            && int_setting(config, "rocksdb.info-log-max-size"@, Some((0) as i64)) is Ok
            && int_setting(config, "rocksdb.max-sub-compactions"@, Some((1) as i64)) is Ok
            && int_setting(config, "rocksdb.writable-file-max-buffer-size"@, Some((1024 * 1024) as i64)) is Ok
            && bool_setting(config, "rocksdb.create-if-missing"@, Some(true)) is Ok
            && bool_setting(config, "rocksdb.use-direct-io-for-flush-and-compaction"@, Some(false)) is Ok
            && bool_setting(config, "rocksdb.enable-pipelined-write"@, Some(true)) is Ok)
    &&& r is Ok ==> Some(r->Ok_0.wal_recovery_mode) == wal_recovery_mode_of(int_setting(config, "rocksdb.wal-recovery-mode"@, Some((2) as i64))->Ok_0)
    &&& r is Ok ==> opt_view(r->Ok_0.wal_dir) == nonempty(string_setting(config, "rocksdb.wal-dir"@, Some(""@))->Ok_0)
    &&& r is Ok ==> r->Ok_0.wal_size_limit_mb == (int_setting(config, "rocksdb.wal-size-limit"@, Some((0) as i64))->Ok_0 as int) / (MB as int)
    &&& r is Ok ==> r->Ok_0.stats_dump_period_sec == (if bool_setting(config, "rocksdb.enable-statistics"@, Some(true))->Ok_0 {
            Some(int_setting(config, "rocksdb.stats-dump-period-sec"@, Some((600) as i64))->Ok_0)
        } else {
            None
        })
    &&& r is Ok ==> r->Ok_0.info_log_roll_time_secs == int_setting(config, "rocksdb.info-log-roll-time"@, Some((0) as i64))->Ok_0 / 1000
    &&& r is Ok ==> opt_view(r->Ok_0.info_log_dir) == nonempty(string_setting(config, "rocksdb.info-log-dir"@, Some(""@))->Ok_0)
    &&& r is Ok ==> r->Ok_0.rate_bytes_per_sec == (if int_setting(config, "rocksdb.rate-bytes-per-sec"@, Some((0) as i64))->Ok_0 > 0 {
            Some(int_setting(config, "rocksdb.rate-bytes-per-sec"@, Some((0) as i64))->Ok_0)
        } else {
            None
        })
    &&& r is Ok ==> r->Ok_0.wal_ttl_seconds == int_setting(config, "rocksdb.wal-ttl-seconds"@, Some((0) as i64))->Ok_0
    &&& r is Ok ==> r->Ok_0.max_total_wal_size == int_setting(config, "rocksdb.max-total-wal-size"@, Some((4 * 1024 * 1024 * 1024) as i64))->Ok_0
    &&& r is Ok ==> r->Ok_0.max_background_jobs == int_setting(config, "rocksdb.max-background-jobs"@, Some((6) as i64))->Ok_0
    &&& r is Ok ==> r->Ok_0.max_manifest_file_size == int_setting(config, "rocksdb.max-manifest-file-size"@, Some((20 * 1024 * 1024) as i64))->Ok_0
    &&& r is Ok ==> r->Ok_0.max_open_files == int_setting(config, "rocksdb.max-open-files"@, Some((40960) as i64))->Ok_0
    &&& r is Ok ==> r->Ok_0.compaction_readahead_size == int_setting(config, "rocksdb.compaction-readahead-size"@, Some((0) as i64))->Ok_0
    &&& r is Ok ==> r->Ok_0.info_log_max_size == int_setting(config, "rocksdb.info-log-max-size"@, Some((0) as i64))->Ok_0
    &&& r is Ok ==> r->Ok_0.max_sub_compactions == int_setting(config, "rocksdb.max-sub-compactions"@, Some((1) as i64))->Ok_0
    &&& r is Ok ==> r->Ok_0.writable_file_max_buffer_size == int_setting(config, "rocksdb.writable-file-max-buffer-size"@, Some((1024 * 1024) as i64))->Ok_0
    &&& r is Ok ==> r->Ok_0.create_if_missing == bool_setting(config, "rocksdb.create-if-missing"@, Some(true))->Ok_0
    &&& r is Ok ==> r->Ok_0.use_direct_io_for_flush_and_compaction == bool_setting(config, "rocksdb.use-direct-io-for-flush-and-compaction"@, Some(false))->Ok_0
    &&& r is Ok ==> r->Ok_0.enable_pipelined_write == bool_setting(config, "rocksdb.enable-pipelined-write"@, Some(true))->Ok_0
}

/// The engine's options: each one the file gives under `rocksdb.`, else its
/// built-in value. The statistics dump period is read only where statistics
/// are on; the log roll time is given in milliseconds and kept in seconds.
pub fn get_rocksdb_db_option(config: &ConfigValue) -> (r: Result<DbOptions, ConfigError>)
    ensures
        db_options_resolved(*config, r),
{
    proof {
        reveal_strlit("");
    }
    let rmode = match get_toml_int(config, "rocksdb.wal-recovery-mode", Some(2)) {
        Ok(v) => v,
        Err(e) => return Err(e),
    };
    let wal_recovery_mode = match parse_rocksdb_wal_recovery_mode(rmode) {
        Ok(m) => m,
        Err(e) => return Err(e),
    };
    let wal_dir = match get_toml_string(config, "rocksdb.wal-dir", Some(String::new())) {
        Ok(v) => v,
        Err(e) => return Err(e),
    };
    let wal_ttl_seconds = match get_toml_int(config, "rocksdb.wal-ttl-seconds", Some(0)) {
        Ok(v) => v,
        Err(e) => return Err(e),
    };
    let wal_size_limit = match get_toml_int(config, "rocksdb.wal-size-limit", Some(0)) {
        Ok(v) => v,
        Err(e) => return Err(e),
    };
    if wal_size_limit < 0 {
        return Err(ConfigError::new(ConfigErrorKind::OutOfRange, "rocksdb.wal-size-limit"));
    }
    let wal_size_limit_mb = align_to_mb(wal_size_limit as u64) / MB;
    let max_total_wal_size = match get_toml_int(config, "rocksdb.max-total-wal-size", Some(4 * 1024 * 1024 * 1024)) {
        Ok(v) => v,
        Err(e) => return Err(e),
    };
    let max_background_jobs = match get_toml_int(config, "rocksdb.max-background-jobs", Some(6)) {
        Ok(v) => v,
        Err(e) => return Err(e),
    };
    let max_manifest_file_size = match get_toml_int(config, "rocksdb.max-manifest-file-size", Some(20 * 1024 * 1024)) {
        Ok(v) => v,
        Err(e) => return Err(e),
    };
    let create_if_missing = match get_toml_boolean(config, "rocksdb.create-if-missing", Some(true)) {
        Ok(v) => v,
        Err(e) => return Err(e),
    };
    let max_open_files = match get_toml_int(config, "rocksdb.max-open-files", Some(40960)) {
        Ok(v) => v,
        Err(e) => return Err(e),
    };
    let enable_statistics = match get_toml_boolean(config, "rocksdb.enable-statistics", Some(true)) {
        Ok(v) => v,
        Err(e) => return Err(e),
    };
    let stats_dump_period_sec = if enable_statistics {
        match get_toml_int(config, "rocksdb.stats-dump-period-sec", Some(600)) {
            Ok(v) => Some(v),
            Err(e) => return Err(e),
        }
    } else {
        None
    };
    let compaction_readahead_size = match get_toml_int(config, "rocksdb.compaction-readahead-size", Some(0)) {
        Ok(v) => v,
        Err(e) => return Err(e),
    };
    let info_log_max_size = match get_toml_int(config, "rocksdb.info-log-max-size", Some(0)) {
        Ok(v) => v,
        Err(e) => return Err(e),
    };
    let roll_time = match get_toml_int(config, "rocksdb.info-log-roll-time", Some(0)) {
        Ok(v) => v,
        Err(e) => return Err(e),
    };
    if roll_time < 0 {
        return Err(ConfigError::new(ConfigErrorKind::OutOfRange, "rocksdb.info-log-roll-time"));
    }
    let info_log_roll_time_secs = roll_time / 1000;
    let info_log_dir = match get_toml_string(config, "rocksdb.info-log-dir", Some(String::new())) {
        Ok(v) => v,
        Err(e) => return Err(e),
    };
    let rate = match get_toml_int(config, "rocksdb.rate-bytes-per-sec", Some(0)) {
        Ok(v) => v,
        Err(e) => return Err(e),
    };
    let max_sub_compactions = match get_toml_int(config, "rocksdb.max-sub-compactions", Some(1)) {
        Ok(v) => v,
        Err(e) => return Err(e),
    };
    let writable_file_max_buffer_size = match get_toml_int(config, "rocksdb.writable-file-max-buffer-size", Some(1024 * 1024)) {
        Ok(v) => v,
        Err(e) => return Err(e),
    };
    let use_direct_io_for_flush_and_compaction = match get_toml_boolean(config, "rocksdb.use-direct-io-for-flush-and-compaction", Some(false)) {
        Ok(v) => v,
        Err(e) => return Err(e),
    };
    let enable_pipelined_write = match get_toml_boolean(config, "rocksdb.enable-pipelined-write", Some(true)) {
        Ok(v) => v,
        Err(e) => return Err(e),
    };
    Ok(DbOptions {
        wal_recovery_mode,
        wal_dir: non_empty(wal_dir),
        wal_ttl_seconds,
        wal_size_limit_mb,
        max_total_wal_size,
        max_background_jobs,
        max_manifest_file_size,
        create_if_missing,
        max_open_files,
        stats_dump_period_sec,
        compaction_readahead_size,
        info_log_max_size,
        info_log_roll_time_secs,
        info_log_dir: non_empty(info_log_dir),
        rate_bytes_per_sec: if rate > 0 {
            Some(rate)
        } else {
            None
        },
        max_sub_compactions,
        writable_file_max_buffer_size,
        use_direct_io_for_flush_and_compaction,
        enable_pipelined_write,
    })
}


/// How keys are cut to the prefix that a column family's filters index.
#[derive(Copy, Clone, Debug, PartialEq, Eq, Structural)]
pub enum PrefixExtractor {
    /// The whole key.
    WholeKey,
    /// The key without its last `n` bytes (an MVCC timestamp of 8 bytes).
    FixedSuffix(usize),
    /// Every key is its own prefix; this only enables the memtable bloom.
    Noop,
}

/// The length of the prefix shared by a region's raft log keys: a local
/// prefix byte, a raft prefix byte, the region id and a suffix byte.
pub const RAFT_PREFIX_LEN: usize = 11;

/// The memtable prefix bloom's share of the memtable, in percent.
pub const MEMTABLE_PREFIX_BLOOM_PERCENT: u64 = 10;

/// A column family's options with the extras that its workload calls for.
#[derive(Debug)]
pub struct CfSetup {
    pub options: CfOptions,
    pub prefix_extractor: PrefixExtractor,
    /// The memtable prefix bloom's share of the memtable, in percent; zero
    /// for none.
    pub memtable_prefix_bloom_percent: u64,
    /// The prefix length that hints memtable inserts, if any.
    pub memtable_insert_hint_prefix_len: Option<usize>,
    pub size_properties_collector: bool,
    pub mvcc_properties_collector: bool,
}

pub open spec fn setup_options(r: Result<CfSetup, ConfigError>) -> Result<CfOptions, ConfigError> {
    match r {
        Ok(s) => Ok(s.options),
        Err(e) => Err(e),
    }
}

/// The defaults of the `default` column family, for `total_mem` bytes of memory.
pub open spec fn defaultcf_defaults(total_mem: u64) -> CfDefaultsView {
    CfDefaultsView {
        block_cache_size: share_of(total_mem, DEFAULTCF_CACHE_PERCENT) as i64,
        use_bloom_filter: true,
        whole_key_filtering: true,
        compaction_pri: 3,
        ..base_cf_defaults()
    }
}

/// The defaults of the `write` column family, for `total_mem` bytes of memory.
pub open spec fn writecf_defaults(total_mem: u64) -> CfDefaultsView {
    CfDefaultsView {
        block_cache_size: share_of(total_mem, WRITECF_CACHE_PERCENT) as i64,
        use_bloom_filter: true,
        whole_key_filtering: false,
        compaction_pri: 3,
        ..base_cf_defaults()
    }
}

/// The defaults of the `raft` column family, for `total_mem` bytes of memory.
pub open spec fn raftcf_defaults(total_mem: u64) -> CfDefaultsView {
    CfDefaultsView {
        block_cache_size: clamp(share_of(total_mem, RAFTCF_CACHE_PERCENT) as u64, RAFTCF_MIN_MEM, RAFTCF_MAX_MEM) as i64,
        ..base_cf_defaults()
    }
}

/// The defaults of the `lock` column family, for `total_mem` bytes of memory.
pub open spec fn lockcf_defaults(total_mem: u64) -> CfDefaultsView {
    CfDefaultsView {
        block_cache_size: clamp(share_of(total_mem, LOCKCF_CACHE_PERCENT) as u64, LOCKCF_MIN_MEM, LOCKCF_MAX_MEM) as i64,
        block_size: (16 * KB) as i64,
        use_bloom_filter: true,
        whole_key_filtering: true,
        compression_per_level: "no:no:no:no:no:no:no"@,
        level_zero_file_num_compaction_trigger: 1,
        max_bytes_for_level_base: (128 * MB) as i64,
        ..base_cf_defaults()
    }
}

/// The `default` column family: user data, with a bloom filter on whole keys
/// and a size properties collector.
pub fn get_rocksdb_default_cf_option(config: &ConfigValue, total_mem: u64) -> (r: Result<CfSetup, ConfigError>)
    ensures
        cf_options_resolved(*config, "defaultcf"@, defaultcf_defaults(total_mem), setup_options(r)),
        r is Ok ==> r->Ok_0.prefix_extractor == PrefixExtractor::WholeKey,
        r is Ok ==> r->Ok_0.memtable_prefix_bloom_percent == 0,
        r is Ok ==> r->Ok_0.memtable_insert_hint_prefix_len is None,
        r is Ok ==> r->Ok_0.size_properties_collector,
        r is Ok ==> !r->Ok_0.mvcc_properties_collector,
{
    proof {
        lemma_share_bounds(total_mem, DEFAULTCF_CACHE_PERCENT);
    }
    let mut d = CfOptValues::default();
    d.block_cache_size = cf_cache_share(total_mem, DEFAULTCF_CACHE_PERCENT) as i64;
    d.use_bloom_filter = true;
    d.whole_key_filtering = true;
    d.compaction_pri = 3;
    match get_rocksdb_cf_option(config, "defaultcf", &d) {
        Ok(options) => Ok(CfSetup {
            options,
            prefix_extractor: PrefixExtractor::WholeKey,
            memtable_prefix_bloom_percent: 0,
            memtable_insert_hint_prefix_len: None,
            size_properties_collector: true,
            mvcc_properties_collector: false,
        }),
        Err(e) => Err(e),
    }
}

/// The `write` column family: MVCC write records, filtered on the key
/// without its 8-byte timestamp, with a memtable prefix bloom and MVCC and
/// size properties collectors.
pub fn get_rocksdb_write_cf_option(config: &ConfigValue, total_mem: u64) -> (r: Result<CfSetup, ConfigError>)
    ensures
        cf_options_resolved(*config, "writecf"@, writecf_defaults(total_mem), setup_options(r)),
        r is Ok ==> r->Ok_0.prefix_extractor == PrefixExtractor::FixedSuffix(8),
        r is Ok ==> r->Ok_0.memtable_prefix_bloom_percent == MEMTABLE_PREFIX_BLOOM_PERCENT,
        r is Ok ==> r->Ok_0.memtable_insert_hint_prefix_len is None,
        r is Ok ==> r->Ok_0.size_properties_collector,
        r is Ok ==> r->Ok_0.mvcc_properties_collector,
{
    proof {
        lemma_share_bounds(total_mem, WRITECF_CACHE_PERCENT);
    }
    let mut d = CfOptValues::default();
    d.block_cache_size = cf_cache_share(total_mem, WRITECF_CACHE_PERCENT) as i64;
    d.use_bloom_filter = true;
    d.whole_key_filtering = false;
    d.compaction_pri = 3;
    match get_rocksdb_cf_option(config, "writecf", &d) {
        Ok(options) => Ok(CfSetup {
            options,
            prefix_extractor: PrefixExtractor::FixedSuffix(8),
            memtable_prefix_bloom_percent: MEMTABLE_PREFIX_BLOOM_PERCENT,
            memtable_insert_hint_prefix_len: None,
            size_properties_collector: true,
            mvcc_properties_collector: true,
        }),
        Err(e) => Err(e),
    }
}

/// The `raft` column family: the raft log, with memtable inserts hinted by
/// the region's raft key prefix.
pub fn get_rocksdb_raftlog_cf_option(config: &ConfigValue, total_mem: u64) -> (r: Result<CfSetup, ConfigError>)
    ensures
        cf_options_resolved(*config, "raftcf"@, raftcf_defaults(total_mem), setup_options(r)),
        r is Ok ==> r->Ok_0.prefix_extractor == PrefixExtractor::WholeKey,
        r is Ok ==> r->Ok_0.memtable_prefix_bloom_percent == 0,
        r is Ok ==> r->Ok_0.memtable_insert_hint_prefix_len == Some(RAFT_PREFIX_LEN),
        r is Ok ==> !r->Ok_0.size_properties_collector,
        r is Ok ==> !r->Ok_0.mvcc_properties_collector,
{
    let cache_size = cf_cache_share(total_mem, RAFTCF_CACHE_PERCENT);
    let mut d = CfOptValues::default();
    d.block_cache_size = adjust_block_cache_size(cache_size, RAFTCF_MIN_MEM, RAFTCF_MAX_MEM) as i64;
    match get_rocksdb_cf_option(config, "raftcf", &d) {
        Ok(options) => Ok(CfSetup {
            options,
            prefix_extractor: PrefixExtractor::WholeKey,
            memtable_prefix_bloom_percent: 0,
            memtable_insert_hint_prefix_len: Some(RAFT_PREFIX_LEN),
            size_properties_collector: false,
            mvcc_properties_collector: false,
        }),
        Err(e) => Err(e),
    }
}

/// The `lock` column family: small blocks, no compression, eager compaction,
/// a bloom filter and a memtable prefix bloom.
pub fn get_rocksdb_lock_cf_option(config: &ConfigValue, total_mem: u64) -> (r: Result<CfSetup, ConfigError>)
    ensures
        cf_options_resolved(*config, "lockcf"@, lockcf_defaults(total_mem), setup_options(r)),
        r is Ok ==> r->Ok_0.prefix_extractor == PrefixExtractor::Noop,
        r is Ok ==> r->Ok_0.memtable_prefix_bloom_percent == MEMTABLE_PREFIX_BLOOM_PERCENT,
        r is Ok ==> r->Ok_0.memtable_insert_hint_prefix_len is None,
        r is Ok ==> !r->Ok_0.size_properties_collector,
        r is Ok ==> !r->Ok_0.mvcc_properties_collector,
{
    let cache_size = cf_cache_share(total_mem, LOCKCF_CACHE_PERCENT);
    let mut d = CfOptValues::default();
    d.block_cache_size = adjust_block_cache_size(cache_size, LOCKCF_MIN_MEM, LOCKCF_MAX_MEM) as i64;
    d.block_size = (16 * KB) as i64;
    d.use_bloom_filter = true;
    d.whole_key_filtering = true;
    d.compression_per_level = "no:no:no:no:no:no:no".to_owned();
    d.level_zero_file_num_compaction_trigger = 1;
    d.max_bytes_for_level_base = (128 * MB) as i64;
    match get_rocksdb_cf_option(config, "lockcf", &d) {
        Ok(options) => Ok(CfSetup {
            options,
            prefix_extractor: PrefixExtractor::Noop,
            memtable_prefix_bloom_percent: MEMTABLE_PREFIX_BLOOM_PERCENT,
            memtable_insert_hint_prefix_len: None,
            size_properties_collector: false,
            mvcc_properties_collector: false,
        }),
        Err(e) => Err(e),
    }
}

} // verus!

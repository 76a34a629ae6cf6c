//! The node's settings, resolved from flags, the configuration file and the
//! host's resources.

use core::time::Duration;
use vstd::prelude::*;
use crate::config::{
    bool_setting, bounded_override, cfg_duration, cfg_u64, cfg_usize, duration_from,
    err_view, int_setting, get_toml_int, get_toml_boolean, get_toml_int_opt, get_toml_string, get_toml_string_opt,
    int_in_file, opt_view, string_in_file, string_setting, u64_from, usize_from, view_result,
    ConfigError, ConfigErrorKind, ConfigValue, ErrorView,
};
use crate::sizing::{adjust_end_points_by_cpu_num, end_points_for};
use crate::text::{decimal_digits, decimal_text, strings_view, check_addr, int_option_value, parse_int_option, split_on, split_seq, valid_addr, lemma_split_seq_nonempty};
use vstd::string::{StrSliceExecFns, StringExecFns};
use crate::time::{duration_nanos, NANOS_PER_MILLI};

verus! {

/// Settings of the raft store.
#[derive(Debug)]
pub struct RaftStoreConfig {
    /// Bytes of storage the store offers; zero for the whole partition.
    pub capacity: u64,
    pub sync_log: bool,
    pub use_sst_file_snapshot: bool,
    pub notify_capacity: usize,
    pub messages_per_tick: usize,
    pub raft_base_tick_interval: u64,
    pub raft_heartbeat_ticks: usize,
    pub raft_election_timeout_ticks: usize,
    pub split_region_check_tick_interval: u64,
    pub region_split_size: u64,
    pub region_max_size: u64,
    pub region_check_size_diff: u64,
    pub raft_log_gc_tick_interval: u64,
    pub raft_log_gc_threshold: u64,
    pub raft_log_gc_count_limit: u64,
    pub raft_log_gc_size_limit: u64,
    pub region_compact_check_interval: u64,
    pub region_compact_delete_keys_count: u64,
    pub lock_cf_compact_interval: u64,
    pub lock_cf_compact_bytes_threshold: u64,
    pub raft_entry_max_size: u64,
    pub max_peer_down_duration: Duration,
    pub pd_heartbeat_tick_interval: u64,
    pub pd_store_heartbeat_tick_interval: u64,
    pub consistency_check_tick_interval: u64,
}

/// Settings of the transactional storage.
#[derive(Debug)]
pub struct StorageConfig {
    pub data_dir: String,
    pub scheduler_notify_capacity: usize,
    pub scheduler_message_per_tick: usize,
    pub scheduler_concurrency: usize,
    pub scheduler_worker_pool_size: usize,
    pub scheduler_too_busy_threshold: usize,
}

/// The settings of a node.
#[derive(Debug)]
pub struct Config {
    pub cluster_id: u64,
    pub addr: String,
    pub advertise_addr: String,
    /// Topology labels, as `(key, value)` pairs with distinct keys.
    pub labels: Vec<(String, String)>,
    pub end_point_concurrency: usize,
    pub notify_capacity: usize,
    pub grpc_concurrency: usize,
    pub grpc_concurrent_stream: usize,
    pub grpc_raft_conn_num: usize,
    pub grpc_stream_initial_window_size: usize,
    pub messages_per_tick: usize,
    pub raft_store: RaftStoreConfig,
    pub storage: StorageConfig,
}

pub const DEFAULT_LISTENING_ADDR: &'static str = "127.0.0.1:20160";

pub const DEFAULT_END_POINT_CONCURRENCY: usize = 8;

impl Config {
    /// The built-in settings.
    pub fn new() -> (r: Config)
        ensures
            r.cluster_id == 0,
            r.addr@ == DEFAULT_LISTENING_ADDR@,
            r.advertise_addr@ == DEFAULT_LISTENING_ADDR@,
            r.labels@.len() == 0,
            r.end_point_concurrency == DEFAULT_END_POINT_CONCURRENCY,
            r.raft_store.capacity == 0,
            r.raft_store.sync_log,
            r.raft_store.use_sst_file_snapshot,
            r.storage.data_dir@.len() == 0,
        r.notify_capacity == 40960,
        r.grpc_concurrency == 4,
        r.grpc_concurrent_stream == 1024,
        r.grpc_raft_conn_num == 10,
        r.grpc_stream_initial_window_size == 2 * 1024 * 1024,
        r.messages_per_tick == 4096,
        r.raft_store.notify_capacity == 40960,
        r.raft_store.messages_per_tick == 4096,
        r.raft_store.raft_base_tick_interval == 1000,
        r.raft_store.raft_heartbeat_ticks == 2,
        r.raft_store.raft_election_timeout_ticks == 10,
        r.raft_store.split_region_check_tick_interval == 10000,
        r.raft_store.region_split_size == 64 * 1024 * 1024,
        r.raft_store.region_max_size == 80 * 1024 * 1024,
        r.raft_store.region_check_size_diff == 8 * 1024 * 1024,
        r.raft_store.raft_log_gc_tick_interval == 10000,
        r.raft_store.raft_log_gc_threshold == 50,
        r.raft_store.raft_log_gc_count_limit == 196608,
        r.raft_store.raft_log_gc_size_limit == 192 * 1024 * 1024,
        r.raft_store.region_compact_check_interval == 300000,
        r.raft_store.region_compact_delete_keys_count == 1000000,
        r.raft_store.lock_cf_compact_interval == 600000,
        r.raft_store.lock_cf_compact_bytes_threshold == 256 * 1024 * 1024,
        r.raft_store.raft_entry_max_size == 8 * 1024 * 1024,
        duration_nanos(r.raft_store.max_peer_down_duration) == 300000 * NANOS_PER_MILLI,
        r.raft_store.pd_heartbeat_tick_interval == 60000,
        r.raft_store.pd_store_heartbeat_tick_interval == 10000,
        r.raft_store.consistency_check_tick_interval == 0,
        r.storage.scheduler_notify_capacity == 10240,
        r.storage.scheduler_message_per_tick == 1024,
        r.storage.scheduler_concurrency == 102400,
        r.storage.scheduler_worker_pool_size == 4,
        r.storage.scheduler_too_busy_threshold == 1000,
    {
        Config {
            cluster_id: 0,
            addr: DEFAULT_LISTENING_ADDR.to_owned(),
            advertise_addr: DEFAULT_LISTENING_ADDR.to_owned(),
            labels: Vec::new(),
            end_point_concurrency: DEFAULT_END_POINT_CONCURRENCY,
            notify_capacity: 40960,
            grpc_concurrency: 4,
            grpc_concurrent_stream: 1024,
            grpc_raft_conn_num: 10,
            grpc_stream_initial_window_size: 2 * 1024 * 1024,
            messages_per_tick: 4096,
            raft_store: RaftStoreConfig {
                capacity: 0,
                sync_log: true,
                use_sst_file_snapshot: true,
                notify_capacity: 40960,
                messages_per_tick: 4096,
                raft_base_tick_interval: 1000,
                raft_heartbeat_ticks: 2,
                raft_election_timeout_ticks: 10,
                split_region_check_tick_interval: 10000,
                region_split_size: 64 * 1024 * 1024,
                region_max_size: 80 * 1024 * 1024,
                region_check_size_diff: 8 * 1024 * 1024,
                raft_log_gc_tick_interval: 10000,
                raft_log_gc_threshold: 50,
                raft_log_gc_count_limit: 196608,
                raft_log_gc_size_limit: 192 * 1024 * 1024,
                region_compact_check_interval: 300000,
                region_compact_delete_keys_count: 1000000,
                lock_cf_compact_interval: 600000,
                lock_cf_compact_bytes_threshold: 256 * 1024 * 1024,
                raft_entry_max_size: 8 * 1024 * 1024,
                max_peer_down_duration: Duration::from_millis(300000),
                pd_heartbeat_tick_interval: 60000,
                pd_store_heartbeat_tick_interval: 10000,
                consistency_check_tick_interval: 0,
            },
            storage: StorageConfig {
                data_dir: String::new(),
                scheduler_notify_capacity: 10240,
                scheduler_message_per_tick: 1024,
                scheduler_concurrency: 102400,
                scheduler_worker_pool_size: 4,
                scheduler_too_busy_threshold: 1000,
            },
        }
    }
}

/// Applies the `server` options that the file gives; every other setting stays.
pub fn apply_server_options(cfg: &mut Config, c: &ConfigValue) -> (r: Result<(), ConfigError>)
    ensures
        r is Ok <==> (bounded_override(*c, "server.notify-capacity"@, usize::MAX as int) is Ok && bounded_override(*c, "server.grpc-concurrency"@, usize::MAX as int) is Ok && bounded_override(*c, "server.grpc-concurrent-stream"@, usize::MAX as int) is Ok && bounded_override(*c, "server.grpc-raft-conn-num"@, usize::MAX as int) is Ok && bounded_override(*c, "server.grpc-stream-initial-window-size"@, usize::MAX as int) is Ok),
        r is Ok ==> *final(cfg) == (Config {
            notify_capacity: usize_from(*c, "server.notify-capacity"@, old(cfg).notify_capacity),
            grpc_concurrency: usize_from(*c, "server.grpc-concurrency"@, old(cfg).grpc_concurrency),
            grpc_concurrent_stream: usize_from(*c, "server.grpc-concurrent-stream"@, old(cfg).grpc_concurrent_stream),
            grpc_raft_conn_num: usize_from(*c, "server.grpc-raft-conn-num"@, old(cfg).grpc_raft_conn_num),
            grpc_stream_initial_window_size: usize_from(*c, "server.grpc-stream-initial-window-size"@, old(cfg).grpc_stream_initial_window_size),
            ..*old(cfg)
        }),
{
    match cfg_usize(&mut cfg.notify_capacity, c, "server.notify-capacity") {
        Ok(_) => {},
        Err(e) => return Err(e),
    }
    match cfg_usize(&mut cfg.grpc_concurrency, c, "server.grpc-concurrency") {
        Ok(_) => {},
        Err(e) => return Err(e),
    }
    match cfg_usize(&mut cfg.grpc_concurrent_stream, c, "server.grpc-concurrent-stream") {
        Ok(_) => {},
        Err(e) => return Err(e),
    }
    match cfg_usize(&mut cfg.grpc_raft_conn_num, c, "server.grpc-raft-conn-num") {
        Ok(_) => {},
        Err(e) => return Err(e),
    }
    match cfg_usize(&mut cfg.grpc_stream_initial_window_size, c, "server.grpc-stream-initial-window-size") {
        Ok(_) => {},
        Err(e) => return Err(e),
    }
    Ok(())
}

/// Applies the file's `server.messages-per-tick`, if given; every other setting stays.
pub fn apply_server_tick_options(cfg: &mut Config, c: &ConfigValue) -> (r: Result<(), ConfigError>)
    ensures
        r is Ok <==> (bounded_override(*c, "server.messages-per-tick"@, usize::MAX as int) is Ok),
        r is Ok ==> *final(cfg) == (Config {
            messages_per_tick: usize_from(*c, "server.messages-per-tick"@, old(cfg).messages_per_tick),
            ..*old(cfg)
        }),
{
    match cfg_usize(&mut cfg.messages_per_tick, c, "server.messages-per-tick") {
        Ok(_) => {},
        Err(e) => return Err(e),
    }
    Ok(())
}

/// Applies the raft store's queue and tick options that the file gives; every other setting stays.
pub fn apply_raft_tick_options(cfg: &mut Config, c: &ConfigValue) -> (r: Result<(), ConfigError>)
    ensures
        r is Ok <==> (bounded_override(*c, "raftstore.notify-capacity"@, usize::MAX as int) is Ok && bounded_override(*c, "raftstore.messages-per-tick"@, usize::MAX as int) is Ok && bounded_override(*c, "raftstore.raft-base-tick-interval"@, u64::MAX as int) is Ok && bounded_override(*c, "raftstore.raft-heartbeat-ticks"@, usize::MAX as int) is Ok && bounded_override(*c, "raftstore.raft-election-timeout-ticks"@, usize::MAX as int) is Ok),
        r is Ok ==> *final(cfg) == (Config {
            raft_store: RaftStoreConfig {
                notify_capacity: usize_from(*c, "raftstore.notify-capacity"@, old(cfg).raft_store.notify_capacity),
                messages_per_tick: usize_from(*c, "raftstore.messages-per-tick"@, old(cfg).raft_store.messages_per_tick),
                raft_base_tick_interval: u64_from(*c, "raftstore.raft-base-tick-interval"@, old(cfg).raft_store.raft_base_tick_interval),
                raft_heartbeat_ticks: usize_from(*c, "raftstore.raft-heartbeat-ticks"@, old(cfg).raft_store.raft_heartbeat_ticks),
                raft_election_timeout_ticks: usize_from(*c, "raftstore.raft-election-timeout-ticks"@, old(cfg).raft_store.raft_election_timeout_ticks),
                ..old(cfg).raft_store
            },
            ..*old(cfg)
        }),
{
    match cfg_usize(&mut cfg.raft_store.notify_capacity, c, "raftstore.notify-capacity") {
        Ok(_) => {},
        Err(e) => return Err(e),
    }
    match cfg_usize(&mut cfg.raft_store.messages_per_tick, c, "raftstore.messages-per-tick") {
        Ok(_) => {},
        Err(e) => return Err(e),
    }
    match cfg_u64(&mut cfg.raft_store.raft_base_tick_interval, c, "raftstore.raft-base-tick-interval") {
        Ok(_) => {},
        Err(e) => return Err(e),
    }
    match cfg_usize(&mut cfg.raft_store.raft_heartbeat_ticks, c, "raftstore.raft-heartbeat-ticks") {
        Ok(_) => {},
        Err(e) => return Err(e),
    }
    match cfg_usize(&mut cfg.raft_store.raft_election_timeout_ticks, c, "raftstore.raft-election-timeout-ticks") {
        Ok(_) => {},
        Err(e) => return Err(e),
    }
    Ok(())
}

/// Applies the raft store's region and log collection options that the file gives; every other setting stays.
pub fn apply_region_options(cfg: &mut Config, c: &ConfigValue) -> (r: Result<(), ConfigError>)
    ensures
        r is Ok <==> (bounded_override(*c, "raftstore.split-region-check-tick-interval"@, u64::MAX as int) is Ok && bounded_override(*c, "raftstore.region-split-size"@, u64::MAX as int) is Ok && bounded_override(*c, "raftstore.region-max-size"@, u64::MAX as int) is Ok && bounded_override(*c, "raftstore.region-split-check-diff"@, u64::MAX as int) is Ok && bounded_override(*c, "raftstore.raft-log-gc-tick-interval"@, u64::MAX as int) is Ok && bounded_override(*c, "raftstore.raft-log-gc-threshold"@, u64::MAX as int) is Ok && bounded_override(*c, "raftstore.raft-log-gc-count-limit"@, u64::MAX as int) is Ok && bounded_override(*c, "raftstore.raft-log-gc-size-limit"@, u64::MAX as int) is Ok),
        r is Ok ==> *final(cfg) == (Config {
            raft_store: RaftStoreConfig {
                split_region_check_tick_interval: u64_from(*c, "raftstore.split-region-check-tick-interval"@, old(cfg).raft_store.split_region_check_tick_interval),
                region_split_size: u64_from(*c, "raftstore.region-split-size"@, old(cfg).raft_store.region_split_size),
                region_max_size: u64_from(*c, "raftstore.region-max-size"@, old(cfg).raft_store.region_max_size),
                region_check_size_diff: u64_from(*c, "raftstore.region-split-check-diff"@, old(cfg).raft_store.region_check_size_diff),
                raft_log_gc_tick_interval: u64_from(*c, "raftstore.raft-log-gc-tick-interval"@, old(cfg).raft_store.raft_log_gc_tick_interval),
                raft_log_gc_threshold: u64_from(*c, "raftstore.raft-log-gc-threshold"@, old(cfg).raft_store.raft_log_gc_threshold),
                raft_log_gc_count_limit: u64_from(*c, "raftstore.raft-log-gc-count-limit"@, old(cfg).raft_store.raft_log_gc_count_limit),
                raft_log_gc_size_limit: u64_from(*c, "raftstore.raft-log-gc-size-limit"@, old(cfg).raft_store.raft_log_gc_size_limit),
                ..old(cfg).raft_store
            },
            ..*old(cfg)
        }),
{
    match cfg_u64(&mut cfg.raft_store.split_region_check_tick_interval, c, "raftstore.split-region-check-tick-interval") {
        Ok(_) => {},
        Err(e) => return Err(e),
    }
    match cfg_u64(&mut cfg.raft_store.region_split_size, c, "raftstore.region-split-size") {
        Ok(_) => {},
        Err(e) => return Err(e),
    }
    match cfg_u64(&mut cfg.raft_store.region_max_size, c, "raftstore.region-max-size") {
        Ok(_) => {},
        Err(e) => return Err(e),
    }
    match cfg_u64(&mut cfg.raft_store.region_check_size_diff, c, "raftstore.region-split-check-diff") {
        Ok(_) => {},
        Err(e) => return Err(e),
    }
    match cfg_u64(&mut cfg.raft_store.raft_log_gc_tick_interval, c, "raftstore.raft-log-gc-tick-interval") {
        Ok(_) => {},
        Err(e) => return Err(e),
    }
    match cfg_u64(&mut cfg.raft_store.raft_log_gc_threshold, c, "raftstore.raft-log-gc-threshold") {
        Ok(_) => {},
        Err(e) => return Err(e),
    }
    match cfg_u64(&mut cfg.raft_store.raft_log_gc_count_limit, c, "raftstore.raft-log-gc-count-limit") {
        Ok(_) => {},
        Err(e) => return Err(e),
    }
    match cfg_u64(&mut cfg.raft_store.raft_log_gc_size_limit, c, "raftstore.raft-log-gc-size-limit") {
        Ok(_) => {},
        Err(e) => return Err(e),
    }
    Ok(())
}

/// Applies the raft store's compaction, peer and heartbeat options that the file gives; every other setting stays.
pub fn apply_compaction_options(cfg: &mut Config, c: &ConfigValue) -> (r: Result<(), ConfigError>)
    ensures
        r is Ok <==> (bounded_override(*c, "raftstore.region-compact-check-interval"@, u64::MAX as int) is Ok && bounded_override(*c, "raftstore.region-compact-delete-keys-count"@, u64::MAX as int) is Ok && bounded_override(*c, "raftstore.lock-cf-compact-interval"@, u64::MAX as int) is Ok && bounded_override(*c, "raftstore.lock-cf-compact-bytes-threshold"@, u64::MAX as int) is Ok && bounded_override(*c, "raftstore.raft-entry-max-size"@, u64::MAX as int) is Ok && bounded_override(*c, "raftstore.max-peer-down-duration"@, u64::MAX as int) is Ok && bounded_override(*c, "raftstore.pd-heartbeat-tick-interval"@, u64::MAX as int) is Ok && bounded_override(*c, "raftstore.pd-store-heartbeat-tick-interval"@, u64::MAX as int) is Ok && bounded_override(*c, "raftstore.consistency-check-interval"@, u64::MAX as int) is Ok),
        r is Ok ==> duration_from(*c, "raftstore.max-peer-down-duration"@, old(cfg).raft_store.max_peer_down_duration, final(cfg).raft_store.max_peer_down_duration),
        r is Ok ==> *final(cfg) == (Config {
            raft_store: RaftStoreConfig {
                region_compact_check_interval: u64_from(*c, "raftstore.region-compact-check-interval"@, old(cfg).raft_store.region_compact_check_interval),
                region_compact_delete_keys_count: u64_from(*c, "raftstore.region-compact-delete-keys-count"@, old(cfg).raft_store.region_compact_delete_keys_count),
                lock_cf_compact_interval: u64_from(*c, "raftstore.lock-cf-compact-interval"@, old(cfg).raft_store.lock_cf_compact_interval),
                lock_cf_compact_bytes_threshold: u64_from(*c, "raftstore.lock-cf-compact-bytes-threshold"@, old(cfg).raft_store.lock_cf_compact_bytes_threshold),
                raft_entry_max_size: u64_from(*c, "raftstore.raft-entry-max-size"@, old(cfg).raft_store.raft_entry_max_size),
                max_peer_down_duration: final(cfg).raft_store.max_peer_down_duration,
                pd_heartbeat_tick_interval: u64_from(*c, "raftstore.pd-heartbeat-tick-interval"@, old(cfg).raft_store.pd_heartbeat_tick_interval),
                pd_store_heartbeat_tick_interval: u64_from(*c, "raftstore.pd-store-heartbeat-tick-interval"@, old(cfg).raft_store.pd_store_heartbeat_tick_interval),
                consistency_check_tick_interval: u64_from(*c, "raftstore.consistency-check-interval"@, old(cfg).raft_store.consistency_check_tick_interval),
                ..old(cfg).raft_store
            },
            ..*old(cfg)
        }),
{
    match cfg_u64(&mut cfg.raft_store.region_compact_check_interval, c, "raftstore.region-compact-check-interval") {
        Ok(_) => {},
        Err(e) => return Err(e),
    }
    match cfg_u64(&mut cfg.raft_store.region_compact_delete_keys_count, c, "raftstore.region-compact-delete-keys-count") {
        Ok(_) => {},
        Err(e) => return Err(e),
    }
    match cfg_u64(&mut cfg.raft_store.lock_cf_compact_interval, c, "raftstore.lock-cf-compact-interval") {
        Ok(_) => {},
        Err(e) => return Err(e),
    }
    match cfg_u64(&mut cfg.raft_store.lock_cf_compact_bytes_threshold, c, "raftstore.lock-cf-compact-bytes-threshold") {
        Ok(_) => {},
        Err(e) => return Err(e),
    }
    match cfg_u64(&mut cfg.raft_store.raft_entry_max_size, c, "raftstore.raft-entry-max-size") {
        Ok(_) => {},
        Err(e) => return Err(e),
    }
    match cfg_duration(&mut cfg.raft_store.max_peer_down_duration, c, "raftstore.max-peer-down-duration") {
        Ok(_) => {},
        Err(e) => return Err(e),
    }
    match cfg_u64(&mut cfg.raft_store.pd_heartbeat_tick_interval, c, "raftstore.pd-heartbeat-tick-interval") {
        Ok(_) => {},
        Err(e) => return Err(e),
    }
    match cfg_u64(&mut cfg.raft_store.pd_store_heartbeat_tick_interval, c, "raftstore.pd-store-heartbeat-tick-interval") {
        Ok(_) => {},
        Err(e) => return Err(e),
    }
    match cfg_u64(&mut cfg.raft_store.consistency_check_tick_interval, c, "raftstore.consistency-check-interval") {
        Ok(_) => {},
        Err(e) => return Err(e),
    }
    Ok(())
}

/// Applies the `storage` options that the file gives; every other setting stays.
pub fn apply_storage_options(cfg: &mut Config, c: &ConfigValue) -> (r: Result<(), ConfigError>)
    ensures
        r is Ok <==> (bounded_override(*c, "storage.scheduler-notify-capacity"@, usize::MAX as int) is Ok && bounded_override(*c, "storage.scheduler-messages-per-tick"@, usize::MAX as int) is Ok && bounded_override(*c, "storage.scheduler-concurrency"@, usize::MAX as int) is Ok && bounded_override(*c, "storage.scheduler-worker-pool-size"@, usize::MAX as int) is Ok && bounded_override(*c, "storage.scheduler-too-busy-threshold"@, usize::MAX as int) is Ok),
        r is Ok ==> *final(cfg) == (Config {
            storage: StorageConfig {
                scheduler_notify_capacity: usize_from(*c, "storage.scheduler-notify-capacity"@, old(cfg).storage.scheduler_notify_capacity),
                scheduler_message_per_tick: usize_from(*c, "storage.scheduler-messages-per-tick"@, old(cfg).storage.scheduler_message_per_tick),
                scheduler_concurrency: usize_from(*c, "storage.scheduler-concurrency"@, old(cfg).storage.scheduler_concurrency),
                scheduler_worker_pool_size: usize_from(*c, "storage.scheduler-worker-pool-size"@, old(cfg).storage.scheduler_worker_pool_size),
                scheduler_too_busy_threshold: usize_from(*c, "storage.scheduler-too-busy-threshold"@, old(cfg).storage.scheduler_too_busy_threshold),
                ..old(cfg).storage
            },
            ..*old(cfg)
        }),
{
    match cfg_usize(&mut cfg.storage.scheduler_notify_capacity, c, "storage.scheduler-notify-capacity") {
        Ok(_) => {},
        Err(e) => return Err(e),
    }
    match cfg_usize(&mut cfg.storage.scheduler_message_per_tick, c, "storage.scheduler-messages-per-tick") {
        Ok(_) => {},
        Err(e) => return Err(e),
    }
    match cfg_usize(&mut cfg.storage.scheduler_concurrency, c, "storage.scheduler-concurrency") {
        Ok(_) => {},
        Err(e) => return Err(e),
    }
    match cfg_usize(&mut cfg.storage.scheduler_worker_pool_size, c, "storage.scheduler-worker-pool-size") {
        Ok(_) => {},
        Err(e) => return Err(e),
    }
    match cfg_usize(&mut cfg.storage.scheduler_too_busy_threshold, c, "storage.scheduler-too-busy-threshold") {
        Ok(_) => {},
        Err(e) => return Err(e),
    }
    Ok(())
}


/// An address that names the current network, `0.x.x.x`.
pub open spec fn names_current_network(addr: Seq<char>) -> bool {
    addr.len() >= 2 && addr[0] == '0' && addr[1] == '.'
}

/// What is wrong with an address to advertise, if anything: it must be
/// `host:port`, and must not name the current network.
pub open spec fn advertise_addr_error(addr: Seq<char>) -> Option<ConfigErrorKind> {
    if !valid_addr(addr) {
        Some(ConfigErrorKind::InvalidAddr)
    } else if names_current_network(addr) {
        Some(ConfigErrorKind::InvalidAdvertiseAddr)
    } else {
        None
    }
}

pub fn check_advertise_address(addr: &str) -> (r: Result<(), ConfigError>)
    ensures
        match advertise_addr_error(addr@) {
            Some(kind) => r is Err && err_view(r->Err_0) == (kind, addr@),
            None => r is Ok,
        },
{
    if !check_addr(addr) {
        return Err(ConfigError::new(ConfigErrorKind::InvalidAddr, addr));
    }
    let cs = crate::text::chars_of(addr);
    if cs.len() >= 2 && cs[0] == '0' && cs[1] == '.' {
        return Err(ConfigError::new(ConfigErrorKind::InvalidAdvertiseAddr, addr));
    }
    Ok(())
}

/// The cluster id zero is reserved: it means the cluster is not initialised.
pub fn check_cluster_id(cluster_id: u64) -> (r: Result<(), ConfigError>)
    ensures
        cluster_id == 0 <==> r is Err,
        r is Err ==> err_view(r->Err_0) == (ConfigErrorKind::ZeroClusterId, "cluster-id"@),
{
    if cluster_id == 0 {
        Err(ConfigError::new(ConfigErrorKind::ZeroClusterId, "cluster-id"))
    } else {
        Ok(())
    }
}

/// The command line's values, as given.
#[derive(Debug)]
pub struct Flags {
    pub addr: Option<String>,
    pub advertise_addr: Option<String>,
    pub log_level: Option<String>,
    pub log_file: Option<String>,
    pub data_dir: Option<String>,
    pub capacity: Option<String>,
    pub pd_endpoints: Option<Vec<String>>,
    pub labels: Option<String>,
}

/// An option given both ways: the flag's value if given, else the file's.
pub open spec fn flag_then_file(flag: Option<String>, config: ConfigValue, name: Seq<char>) -> Option<Seq<char>> {
    match flag {
        Some(f) => Some(f@),
        None => string_in_file(config, name),
    }
}

pub fn flag_or_file(flag: &Option<String>, config: &ConfigValue, name: &str) -> (r: Option<String>)
    ensures
        opt_view(r) == flag_then_file(*flag, *config, name@),
{
    match flag {
        Some(f) => Some(f.clone()),
        None => get_toml_string_opt(config, name),
    }
}

/// Where an option is given both on the command line and in the file, the
/// command line's value is the one taken.
pub proof fn law_flag_wins(flag: String, config: ConfigValue, name: Seq<char>)
    requires
        string_in_file(config, name) is Some,
    ensures
        flag_then_file(Some(flag), config, name) == Some(flag@),
{
}

/// The listening address: the flag's, else the file's, else the default.
pub open spec fn listen_addr_for(flag: Option<String>, config: ConfigValue) -> Seq<char> {
    match flag_then_file(flag, config, "server.addr"@) {
        Some(a) => a,
        None => DEFAULT_LISTENING_ADDR@,
    }
}

/// The listening address, which must be `host:port`.
pub fn resolve_addr(flags: &Flags, config: &ConfigValue) -> (r: Result<String, ConfigError>)
    ensures
        valid_addr(listen_addr_for(flags.addr, *config)) <==> r is Ok,
        r is Ok ==> r->Ok_0@ == listen_addr_for(flags.addr, *config),
        r is Err ==> err_view(r->Err_0) == (ConfigErrorKind::InvalidAddr, listen_addr_for(flags.addr, *config)),
{
    let addr = match flag_or_file(&flags.addr, config, "server.addr") {
        Some(a) => a,
        None => DEFAULT_LISTENING_ADDR.to_owned(),
    };
    if check_addr(addr.as_str()) {
        Ok(addr)
    } else {
        Err(ConfigError::new(ConfigErrorKind::InvalidAddr, addr.as_str()))
    }
}

/// The log level: the flag's, else the file's, else `info`.
pub fn resolve_log_level(flags: &Flags, config: &ConfigValue) -> (r: String)
    ensures
        r@ == (match flag_then_file(flags.log_level, *config, "server.log-level"@) {
            Some(l) => l,
            None => "info"@,
        }),
{
    match flag_or_file(&flags.log_level, config, "server.log-level") {
        Some(l) => l,
        None => "info".to_owned(),
    }
}

/// The log file, if one is named; logs go to the standard error otherwise.
pub fn resolve_log_file(flags: &Flags, config: &ConfigValue) -> (r: Option<String>)
    ensures
        opt_view(r) == flag_then_file(flags.log_file, *config, "server.log-file"@),
{
    flag_or_file(&flags.log_file, config, "server.log-file")
}

/// The store capacity: the flag's text, read as an integer or a size, else
/// the file's option; it must not be negative.
pub open spec fn capacity_setting(flag: Option<String>, config: ConfigValue) -> Result<Option<u64>, ErrorView> {
    let given: Result<Option<i64>, ErrorView> = match flag {
        Some(f) => match int_option_value(f@) {
            Some(v) => Ok(Some(v)),
            None => Err((ConfigErrorKind::BadInteger, "capacity"@)),
        },
        None => int_in_file(config, "server.capacity"@),
    };
    match given {
        Ok(Some(v)) => if v >= 0 {
            Ok(Some(v as u64))
        } else {
            Err((ConfigErrorKind::OutOfRange, "capacity"@))
        },
        Ok(None) => Ok(None),
        Err(e) => Err(e),
    }
}

pub fn resolve_capacity(flags: &Flags, config: &ConfigValue) -> (r: Result<Option<u64>, ConfigError>)
    ensures
        view_result(r) == capacity_setting(flags.capacity, *config),
{
    let given = match &flags.capacity {
        Some(_) => match get_flag_int(&flags.capacity, "capacity") {
            Ok(v) => v,
            Err(e) => {
                return Err(e);
            },
        },
        None => match get_toml_int_opt(config, "server.capacity") {
            Ok(v) => v,
            Err(e) => {
                return Err(e);
            },
        },
    };
    match given {
        Some(v) => if v >= 0 {
            Ok(Some(v as u64))
        } else {
            Err(ConfigError::new(ConfigErrorKind::OutOfRange, "capacity"))
        },
        None => Ok(None),
    }
}

/// The address to advertise: the flag's, else the file's, else the
/// listening address.
pub open spec fn advertise_addr_for(flag: Option<String>, config: ConfigValue, addr: Seq<char>) -> Result<Seq<char>, ErrorView> {
    match flag {
        Some(f) => Ok(f@),
        None => string_setting(config, "server.advertise-addr"@, Some(addr)),
    }
}

/// The address to advertise, checked by `check_advertise_address`.
pub fn resolve_advertise_addr(flags: &Flags, config: &ConfigValue, addr: &String) -> (r: Result<String, ConfigError>)
    ensures
        match advertise_addr_for(flags.advertise_addr, *config, addr@) {
            Ok(a) => match advertise_addr_error(a) {
                Some(kind) => r is Err && err_view(r->Err_0) == (kind, a),
                None => r is Ok && r->Ok_0@ == a,
            },
            Err(e) => r is Err && err_view(r->Err_0) == e,
        },
{
    let a = match &flags.advertise_addr {
        Some(f) => f.clone(),
        None => match get_toml_string(config, "server.advertise-addr", Some(addr.clone())) {
            Ok(a) => a,
            Err(e) => {
                return Err(e);
            },
        },
    };
    match check_advertise_address(a.as_str()) {
        Ok(()) => Ok(a),
        Err(e) => Err(e),
    }
}

/// The node's settings from the command line, the configuration file, the
/// cluster id and the host's CPU count. Every option the file gives replaces
/// the built-in value; the coprocessor concurrency, unless given, follows the
/// CPU count. The topology labels and the data directory are left empty.
pub fn build_cfg(flags: &Flags, config: &ConfigValue, cluster_id: u64, addr: String, total_cpu_num: usize) -> (r: Result<Config, ConfigError>)
    ensures
        r is Ok <==> (cluster_id != 0
            && bounded_override(*config, "server.end-point-concurrency"@, usize::MAX as int) is Ok
            && bounded_override(*config, "server.notify-capacity"@, usize::MAX as int) is Ok
            && bounded_override(*config, "server.grpc-concurrency"@, usize::MAX as int) is Ok
            && bounded_override(*config, "server.grpc-concurrent-stream"@, usize::MAX as int) is Ok
            && bounded_override(*config, "server.grpc-raft-conn-num"@, usize::MAX as int) is Ok
            && bounded_override(*config, "server.grpc-stream-initial-window-size"@, usize::MAX as int) is Ok
            && bounded_override(*config, "server.messages-per-tick"@, usize::MAX as int) is Ok
            && bounded_override(*config, "raftstore.notify-capacity"@, usize::MAX as int) is Ok
            && bounded_override(*config, "raftstore.messages-per-tick"@, usize::MAX as int) is Ok
            && bounded_override(*config, "raftstore.raft-base-tick-interval"@, u64::MAX as int) is Ok
            && bounded_override(*config, "raftstore.raft-heartbeat-ticks"@, usize::MAX as int) is Ok
            && bounded_override(*config, "raftstore.raft-election-timeout-ticks"@, usize::MAX as int) is Ok
            && bounded_override(*config, "raftstore.split-region-check-tick-interval"@, u64::MAX as int) is Ok
            && bounded_override(*config, "raftstore.region-split-size"@, u64::MAX as int) is Ok
            && bounded_override(*config, "raftstore.region-max-size"@, u64::MAX as int) is Ok
            && bounded_override(*config, "raftstore.region-split-check-diff"@, u64::MAX as int) is Ok
            && bounded_override(*config, "raftstore.raft-log-gc-tick-interval"@, u64::MAX as int) is Ok
            && bounded_override(*config, "raftstore.raft-log-gc-threshold"@, u64::MAX as int) is Ok
            && bounded_override(*config, "raftstore.raft-log-gc-count-limit"@, u64::MAX as int) is Ok
            && bounded_override(*config, "raftstore.raft-log-gc-size-limit"@, u64::MAX as int) is Ok
            && bounded_override(*config, "raftstore.region-compact-check-interval"@, u64::MAX as int) is Ok
            && bounded_override(*config, "raftstore.region-compact-delete-keys-count"@, u64::MAX as int) is Ok
            && bounded_override(*config, "raftstore.lock-cf-compact-interval"@, u64::MAX as int) is Ok
            && bounded_override(*config, "raftstore.lock-cf-compact-bytes-threshold"@, u64::MAX as int) is Ok
            && bounded_override(*config, "raftstore.raft-entry-max-size"@, u64::MAX as int) is Ok
            && bounded_override(*config, "raftstore.max-peer-down-duration"@, u64::MAX as int) is Ok
            && bounded_override(*config, "raftstore.pd-heartbeat-tick-interval"@, u64::MAX as int) is Ok
            && bounded_override(*config, "raftstore.pd-store-heartbeat-tick-interval"@, u64::MAX as int) is Ok
            && bounded_override(*config, "raftstore.consistency-check-interval"@, u64::MAX as int) is Ok
            && bounded_override(*config, "storage.scheduler-notify-capacity"@, usize::MAX as int) is Ok
            && bounded_override(*config, "storage.scheduler-messages-per-tick"@, usize::MAX as int) is Ok
            && bounded_override(*config, "storage.scheduler-concurrency"@, usize::MAX as int) is Ok
            && bounded_override(*config, "storage.scheduler-worker-pool-size"@, usize::MAX as int) is Ok
            && bounded_override(*config, "storage.scheduler-too-busy-threshold"@, usize::MAX as int) is Ok
            && capacity_setting(flags.capacity, *config) is Ok
            && advertise_addr_for(flags.advertise_addr, *config, addr@) is Ok
            && advertise_addr_error(advertise_addr_for(flags.advertise_addr, *config, addr@)->Ok_0) is None
            && bool_setting(*config, "raftstore.sync-log"@, Some(true)) is Ok
            && bool_setting(*config, "raftstore.use-sst-file-snapshot"@, Some(true)) is Ok),
        cluster_id == 0 ==> r is Err && err_view(r->Err_0) == (ConfigErrorKind::ZeroClusterId, "cluster-id"@),
        r is Ok ==> r->Ok_0.cluster_id == cluster_id,
        r is Ok ==> r->Ok_0.addr@ == addr@,
        r is Ok ==> r->Ok_0.labels@.len() == 0,
        r is Ok ==> r->Ok_0.storage.data_dir@.len() == 0,
        r is Ok ==> r->Ok_0.end_point_concurrency == (match bounded_override(*config, "server.end-point-concurrency"@, usize::MAX as int) {
            Ok(Some(i)) => i,
            _ => end_points_for(total_cpu_num as int),
        }),
        r is Ok ==> r->Ok_0.raft_store.capacity == (match capacity_setting(flags.capacity, *config) {
            Ok(Some(c)) => c,
            _ => 0,
        }),
        r is Ok ==> r->Ok_0.advertise_addr@ == advertise_addr_for(flags.advertise_addr, *config, addr@)->Ok_0,
        r is Ok ==> r->Ok_0.raft_store.sync_log == bool_setting(*config, "raftstore.sync-log"@, Some(true))->Ok_0,
        r is Ok ==> r->Ok_0.raft_store.use_sst_file_snapshot == bool_setting(*config, "raftstore.use-sst-file-snapshot"@, Some(true))->Ok_0,
        r is Ok ==> r->Ok_0.notify_capacity == usize_from(*config, "server.notify-capacity"@, (40960) as usize),
        r is Ok ==> r->Ok_0.grpc_concurrency == usize_from(*config, "server.grpc-concurrency"@, (4) as usize),
        r is Ok ==> r->Ok_0.grpc_concurrent_stream == usize_from(*config, "server.grpc-concurrent-stream"@, (1024) as usize),
        r is Ok ==> r->Ok_0.grpc_raft_conn_num == usize_from(*config, "server.grpc-raft-conn-num"@, (10) as usize),
        r is Ok ==> r->Ok_0.grpc_stream_initial_window_size == usize_from(*config, "server.grpc-stream-initial-window-size"@, (2 * 1024 * 1024) as usize),
        r is Ok ==> r->Ok_0.messages_per_tick == usize_from(*config, "server.messages-per-tick"@, (4096) as usize),
        r is Ok ==> r->Ok_0.raft_store.notify_capacity == usize_from(*config, "raftstore.notify-capacity"@, (40960) as usize),
        r is Ok ==> r->Ok_0.raft_store.messages_per_tick == usize_from(*config, "raftstore.messages-per-tick"@, (4096) as usize),
        r is Ok ==> r->Ok_0.raft_store.raft_base_tick_interval == u64_from(*config, "raftstore.raft-base-tick-interval"@, (1000) as u64),
        r is Ok ==> r->Ok_0.raft_store.raft_heartbeat_ticks == usize_from(*config, "raftstore.raft-heartbeat-ticks"@, (2) as usize),
        r is Ok ==> r->Ok_0.raft_store.raft_election_timeout_ticks == usize_from(*config, "raftstore.raft-election-timeout-ticks"@, (10) as usize),
        r is Ok ==> r->Ok_0.raft_store.split_region_check_tick_interval == u64_from(*config, "raftstore.split-region-check-tick-interval"@, (10000) as u64),
        r is Ok ==> r->Ok_0.raft_store.region_split_size == u64_from(*config, "raftstore.region-split-size"@, (64 * 1024 * 1024) as u64),
        r is Ok ==> r->Ok_0.raft_store.region_max_size == u64_from(*config, "raftstore.region-max-size"@, (80 * 1024 * 1024) as u64),
        r is Ok ==> r->Ok_0.raft_store.region_check_size_diff == u64_from(*config, "raftstore.region-split-check-diff"@, (8 * 1024 * 1024) as u64),
        r is Ok ==> r->Ok_0.raft_store.raft_log_gc_tick_interval == u64_from(*config, "raftstore.raft-log-gc-tick-interval"@, (10000) as u64),
        r is Ok ==> r->Ok_0.raft_store.raft_log_gc_threshold == u64_from(*config, "raftstore.raft-log-gc-threshold"@, (50) as u64),
        r is Ok ==> r->Ok_0.raft_store.raft_log_gc_count_limit == u64_from(*config, "raftstore.raft-log-gc-count-limit"@, (196608) as u64),
        r is Ok ==> r->Ok_0.raft_store.raft_log_gc_size_limit == u64_from(*config, "raftstore.raft-log-gc-size-limit"@, (192 * 1024 * 1024) as u64),
        r is Ok ==> r->Ok_0.raft_store.region_compact_check_interval == u64_from(*config, "raftstore.region-compact-check-interval"@, (300000) as u64),
        r is Ok ==> r->Ok_0.raft_store.region_compact_delete_keys_count == u64_from(*config, "raftstore.region-compact-delete-keys-count"@, (1000000) as u64),
        r is Ok ==> r->Ok_0.raft_store.lock_cf_compact_interval == u64_from(*config, "raftstore.lock-cf-compact-interval"@, (600000) as u64),
        r is Ok ==> r->Ok_0.raft_store.lock_cf_compact_bytes_threshold == u64_from(*config, "raftstore.lock-cf-compact-bytes-threshold"@, (256 * 1024 * 1024) as u64),
        r is Ok ==> r->Ok_0.raft_store.raft_entry_max_size == u64_from(*config, "raftstore.raft-entry-max-size"@, (8 * 1024 * 1024) as u64),
        r is Ok ==> duration_nanos(r->Ok_0.raft_store.max_peer_down_duration) == (match bounded_override(*config, "raftstore.max-peer-down-duration"@, u64::MAX as int) {
            Ok(Some(i)) => i,
            _ => 300000,
        }) * NANOS_PER_MILLI,
        r is Ok ==> r->Ok_0.raft_store.pd_heartbeat_tick_interval == u64_from(*config, "raftstore.pd-heartbeat-tick-interval"@, (60000) as u64),
        r is Ok ==> r->Ok_0.raft_store.pd_store_heartbeat_tick_interval == u64_from(*config, "raftstore.pd-store-heartbeat-tick-interval"@, (10000) as u64),
        r is Ok ==> r->Ok_0.raft_store.consistency_check_tick_interval == u64_from(*config, "raftstore.consistency-check-interval"@, (0) as u64),
        r is Ok ==> r->Ok_0.storage.scheduler_notify_capacity == usize_from(*config, "storage.scheduler-notify-capacity"@, (10240) as usize),
        r is Ok ==> r->Ok_0.storage.scheduler_message_per_tick == usize_from(*config, "storage.scheduler-messages-per-tick"@, (1024) as usize),
        r is Ok ==> r->Ok_0.storage.scheduler_concurrency == usize_from(*config, "storage.scheduler-concurrency"@, (102400) as usize),
        r is Ok ==> r->Ok_0.storage.scheduler_worker_pool_size == usize_from(*config, "storage.scheduler-worker-pool-size"@, (4) as usize),
        r is Ok ==> r->Ok_0.storage.scheduler_too_busy_threshold == usize_from(*config, "storage.scheduler-too-busy-threshold"@, (1000) as usize),
{
    match check_cluster_id(cluster_id) {
        Ok(()) => {},
        Err(e) => return Err(e),
    }
    let mut cfg = Config::new();
    cfg.cluster_id = cluster_id;
    cfg.addr = addr.clone();
    match apply_server_options(&mut cfg, config) {
        Ok(()) => {},
        Err(e) => return Err(e),
    }
    match cfg_usize(&mut cfg.end_point_concurrency, config, "server.end-point-concurrency") {
        Ok(true) => {},
        Ok(false) => {
            cfg.end_point_concurrency = adjust_end_points_by_cpu_num(total_cpu_num);
        },
        Err(e) => return Err(e),
    }
    match apply_server_tick_options(&mut cfg, config) {
        Ok(()) => {},
        Err(e) => return Err(e),
    }
    match resolve_capacity(flags, config) {
        Ok(Some(c)) => {
            cfg.raft_store.capacity = c;
        },
        Ok(None) => {},
        Err(e) => return Err(e),
    }
    match resolve_advertise_addr(flags, config, &addr) {
        Ok(a) => {
            cfg.advertise_addr = a;
        },
        Err(e) => return Err(e),
    }
    match get_toml_boolean(config, "raftstore.sync-log", Some(true)) {
        Ok(b) => {
            cfg.raft_store.sync_log = b;
        },
        Err(e) => return Err(e),
    }
    match apply_raft_tick_options(&mut cfg, config) {
        Ok(()) => {},
        Err(e) => return Err(e),
    }
    match apply_region_options(&mut cfg, config) {
        Ok(()) => {},
        Err(e) => return Err(e),
    }
    match apply_compaction_options(&mut cfg, config) {
        Ok(()) => {},
        Err(e) => return Err(e),
    }
    match get_toml_boolean(config, "raftstore.use-sst-file-snapshot", Some(true)) {
        Ok(b) => {
            cfg.raft_store.use_sst_file_snapshot = b;
        },
        Err(e) => return Err(e),
    }
    match apply_storage_options(&mut cfg, config) {
        Ok(()) => {},
        Err(e) => return Err(e),
    }
    Ok(cfg)
}


/// The labels that the pieces of a label list name, in order, or nothing
/// if a piece is not `key=value` with non-empty key and value, or repeats a
/// key. Empty pieces are skipped.
pub open spec fn labels_of_pieces(pieces: Seq<Seq<char>>) -> Option<Seq<(Seq<char>, Seq<char>)>>
    decreases pieces.len(),
{
    if pieces.len() == 0 {
        Some(Seq::empty())
    } else {
        match labels_of_pieces(pieces.drop_last()) {
            None => None,
            Some(prev) => {
                let piece = pieces.last();
                let kv = split_seq(piece, '=');
                if piece.len() == 0 {
                    Some(prev)
                } else if kv.len() == 2 && kv[0].len() > 0 && kv[1].len() > 0 && !(exists|j: int|
                    0 <= j < prev.len() && (#[trigger] prev[j]).0 == kv[0]) {
                    Some(prev.push((kv[0], kv[1])))
                } else {
                    None
                }
            },
        }
    }
}

/// The labels that a list `k=v,k=v` names.
pub open spec fn labels_of(s: Seq<char>) -> Option<Seq<(Seq<char>, Seq<char>)>> {
    labels_of_pieces(split_seq(s, ','))
}

pub open spec fn pairs_view(v: Seq<(String, String)>) -> Seq<(Seq<char>, Seq<char>)> {
    v.map_values(|p: (String, String)| (p.0@, p.1@))
}

/// Reads a label list `k=v,k=v` into its pairs, in order.
pub fn parse_store_labels(labels: &str) -> (r: Result<Vec<(String, String)>, ConfigError>)
    ensures
        match labels_of(labels@) {
            Some(pairs) => r is Ok && pairs_view(r->Ok_0@) == pairs,
            None => r is Err && err_view(r->Err_0) == (ConfigErrorKind::InvalidLabels, labels@),
        },
{
    let pieces = split_on(labels, ',');
    let ghost views = strings_view(pieces@);
    let mut out: Vec<(String, String)> = Vec::new();
    let mut i: usize = 0;
    while i < pieces.len()
        invariant
            i <= pieces.len(),
            views == strings_view(pieces@),
            views == split_seq(labels@, ','),
            labels_of_pieces(views.take(i as int)) == Some(pairs_view(out@)),
        decreases pieces.len() - i,
    {
        assert(views.take(i as int + 1).drop_last() =~= views.take(i as int));
        assert(views.take(i as int + 1).last() == pieces@[i as int]@);
        let piece = pieces[i].as_str();
        if piece.unicode_len() > 0 {
            let kv = split_on(piece, '=');
            proof {
                lemma_split_seq_nonempty(piece@, '=');
            }
            assert(kv@.len() >= 1 ==> kv@[0]@ == split_seq(piece@, '=')[0]);
            assert(kv@.len() >= 2 ==> kv@[1]@ == split_seq(piece@, '=')[1]);
            if kv.len() != 2 || kv[0].unicode_len() == 0 || kv[1].unicode_len() == 0 {
                proof {
                    lemma_labels_fail_forever(views, i as int + 1);
                }
                return Err(ConfigError::new(ConfigErrorKind::InvalidLabels, labels));
            }
            let mut j: usize = 0;
            #[verifier::loop_isolation(false)]
            while j < out.len()
                invariant
                    j <= out.len(),
                    kv@.len() == 2,
                    forall|m: int| 0 <= m < j ==> (#[trigger] pairs_view(out@)[m]).0 != kv@[0]@,
                decreases out.len() - j,
            {
                if out[j].0 == kv[0] {
                    assert(pairs_view(out@)[j as int].0 == kv@[0]@);
                    proof {
                        lemma_labels_fail_forever(views, i as int + 1);
                    }
                    return Err(ConfigError::new(ConfigErrorKind::InvalidLabels, labels));
                }
                j = j + 1;
            }
            let ghost prev_out = out@;
            assert(kv@[0]@ == split_seq(piece@, '=')[0]);
            assert(kv@[1]@ == split_seq(piece@, '=')[1]);
            out.push((kv[0].clone(), kv[1].clone()));
            proof {
                assert(pairs_view(out@) =~= pairs_view(prev_out).push((kv@[0]@, kv@[1]@)));
            }
        }
        i = i + 1;
    }
    assert(views.take(i as int) =~= views);
    Ok(out)
}

/// Once a prefix of the pieces names no labels, no longer prefix does.
proof fn lemma_labels_fail_forever(pieces: Seq<Seq<char>>, k: int)
    requires
        0 <= k <= pieces.len(),
        labels_of_pieces(pieces.take(k)) is None,
    ensures
        labels_of_pieces(pieces) is None,
    decreases pieces.len() - k,
{
    if k < pieces.len() {
        assert(pieces.take(k + 1).drop_last() =~= pieces.take(k));
        lemma_labels_fail_forever(pieces, k + 1);
    } else {
        assert(pieces.take(k) =~= pieces);
    }
}


/// The topology labels: the flag's list, else the file's, else none.
pub fn resolve_labels(flags: &Flags, config: &ConfigValue) -> (r: Result<Vec<(String, String)>, ConfigError>)
    ensures
        ({
            let text = match flag_then_file(flags.labels, *config, "server.labels"@) {
                Some(t) => t,
                None => ""@,
            };
            match labels_of(text) {
                Some(pairs) => r is Ok && pairs_view(r->Ok_0@) == pairs,
                None => r is Err && err_view(r->Err_0) == (ConfigErrorKind::InvalidLabels, text),
            }
        }),
{
    let text = match flag_or_file(&flags.labels, config, "server.labels") {
        Some(t) => t,
        None => {
            proof {
                reveal_strlit("");
            }
            String::new()
        },
    };
    parse_store_labels(text.as_str())
}

/// A copy of a list of strings.
pub fn clone_strings(v: &Vec<String>) -> (r: Vec<String>)
    ensures
        strings_view(r@) == strings_view(v@),
{
    let mut r: Vec<String> = Vec::new();
    for i in 0..v.len()
        invariant
            r@.len() == i,
            strings_view(r@) == strings_view(v@).take(i as int),
    {
        let ghost prev = r@;
        r.push(v[i].clone());
        assert(strings_view(r@) =~= strings_view(v@).take(i as int + 1));
    }
    assert(strings_view(v@).take(v@.len() as int) =~= strings_view(v@));
    r
}

/// The placement driver's endpoints: the flag's list, else the file's
/// comma-separated list.
pub open spec fn pd_endpoints_for(flag: Option<Vec<String>>, config: ConfigValue) -> Option<Seq<Seq<char>>> {
    match flag {
        Some(v) => Some(strings_view(v@)),
        None => match string_in_file(config, "pd.endpoints"@) {
            Some(t) => Some(split_seq(t, ',')),
            None => None,
        },
    }
}

/// The placement driver's endpoints, each of which must be `host:port`.
pub fn resolve_pd_endpoints(flags: &Flags, config: &ConfigValue) -> (r: Result<Vec<String>, ConfigError>)
    ensures
        match pd_endpoints_for(flags.pd_endpoints, *config) {
            None => r is Err && err_view(r->Err_0) == (ConfigErrorKind::Missing, "pd-endpoints"@),
            Some(eps) => {
                &&& (forall|i: int| 0 <= i < eps.len() ==> valid_addr(#[trigger] eps[i])) <==> r is Ok
                &&& r is Ok ==> strings_view(r->Ok_0@) == eps
                &&& r is Err ==> exists|i: int|
                    0 <= i < eps.len() && !valid_addr(#[trigger] eps[i]) && err_view(r->Err_0) == (
                    ConfigErrorKind::InvalidAddr, eps[i])
            },
        },
{
    let eps: Vec<String> = match &flags.pd_endpoints {
        Some(v) => clone_strings(v),
        None => match get_toml_string_opt(config, "pd.endpoints") {
            Some(t) => split_on(t.as_str(), ','),
            None => {
                return Err(ConfigError::new(ConfigErrorKind::Missing, "pd-endpoints"));
            },
        },
    };
    let ghost want = pd_endpoints_for(flags.pd_endpoints, *config)->0;
    assert(strings_view(eps@) == want);
    assert(pd_endpoints_for(flags.pd_endpoints, *config) == Some(want));
    let mut i: usize = 0;
    while i < eps.len()
        invariant
            i <= eps.len(),
            strings_view(eps@) == want,
            pd_endpoints_for(flags.pd_endpoints, *config) == Some(want),
            forall|k: int| 0 <= k < i ==> valid_addr(#[trigger] want[k]),
        decreases eps.len() - i,
    {
        assert(want[i as int] == eps@[i as int]@);
        if !check_addr(eps[i].as_str()) {
            assert(!valid_addr(want[i as int]));
            assert(!(forall|k: int| 0 <= k < want.len() ==> valid_addr(#[trigger] want[k])));
            let e = ConfigError::new(ConfigErrorKind::InvalidAddr, eps[i].as_str());
            return Err(e);
        }
        i = i + 1;
    }
    assert(want.len() == eps@.len());
    Ok(eps)
}

/// The data directory of a temporary engine.
pub const TEMP_DIR: &'static str = "";

/// The data directory as given: the flag's, else the file's
/// `server.data-dir`, else its `server.store`.
pub open spec fn data_dir_for(flag: Option<String>, config: ConfigValue) -> Option<Seq<char>> {
    match flag_then_file(flag, config, "server.data-dir"@) {
        Some(d) => Some(d),
        None => string_in_file(config, "server.store"@),
    }
}

/// The data directory as given, before it is made absolute; none means a
/// temporary engine.
pub fn select_data_dir(flags: &Flags, config: &ConfigValue) -> (r: Option<String>)
    ensures
        opt_view(r) == data_dir_for(flags.data_dir, *config),
{
    match flag_or_file(&flags.data_dir, config, "server.data-dir") {
        Some(d) => Some(d),
        None => get_toml_string_opt(config, "server.store"),
    }
}

/// `dir` joined with `name`, one separator between them.
pub open spec fn join_path(dir: Seq<char>, name: Seq<char>) -> Seq<char> {
    if dir.len() > 0 && dir.last() == '/' {
        dir + name
    } else {
        dir + "/"@ + name
    }
}

/// The backup directory as given: the file's `server.backup-dir`, else its
/// `server.backup`; where none is given, `backup` under a data directory
/// that is not temporary; empty to disable backups.
pub open spec fn backup_dir_for(config: ConfigValue, data_dir: Seq<char>) -> Seq<char> {
    let given = match string_in_file(config, "server.backup-dir"@) {
        Some(b) => b,
        None => match string_in_file(config, "server.backup"@) {
            Some(b) => b,
            None => ""@,
        },
    };
    if given.len() == 0 && data_dir != TEMP_DIR@ {
        join_path(data_dir, "backup"@)
    } else {
        given
    }
}

pub fn select_backup_dir(config: &ConfigValue, data_dir: &str) -> (r: String)
    ensures
        r@ == backup_dir_for(*config, data_dir@),
{
    let given = match get_toml_string_opt(config, "server.backup-dir") {
        Some(b) => b,
        None => match get_toml_string_opt(config, "server.backup") {
            Some(b) => b,
            None => String::new(),
        },
    };
    proof {
        reveal_strlit("");
    }
    let n = data_dir.unicode_len();
    assert(TEMP_DIR@ =~= Seq::<char>::empty());
    assert(n == 0 <==> data_dir@ =~= TEMP_DIR@);
    if given.unicode_len() == 0 && n != 0 {
        if n > 0 && data_dir.get_char(n - 1) == '/' {
            data_dir.to_owned().concat("backup")
        } else {
            data_dir.to_owned().concat("/").concat("backup")
        }
    } else {
        given
    }
}


/// Where and how often the node pushes its metrics.
#[derive(Debug)]
pub struct MetricPush {
    pub interval_ms: i64,
    pub address: String,
    pub job: String,
}

/// The metric push, if one is configured: a positive `metric.interval` and
/// a non-empty `metric.address`; the job `metric.job`, `tikv` by default,
/// with `_<store id>` after it where the store id is known.
pub open spec fn metric_push_for(config: ConfigValue, node_id: Option<u64>) -> Result<Option<(i64, Seq<char>, Seq<char>)>, ErrorView> {
    match int_setting(config, "metric.interval"@, Some(0)) {
        Err(e) => Err(e),
        Ok(interval) => if interval <= 0 {
            Ok(None)
        } else {
            match string_setting(config, "metric.address"@, Some(""@)) {
                Err(e) => Err(e),
                Ok(address) => if address.len() == 0 {
                    Ok(None)
                } else {
                    match string_setting(config, "metric.job"@, Some("tikv"@)) {
                        Err(e) => Err(e),
                        Ok(job) => Ok(
                            Some(
                                (
                                    interval,
                                    address,
                                    match node_id {
                                        Some(id) => job + "_"@ + decimal_digits(id as nat),
                                        None => job,
                                    },
                                ),
                            ),
                        ),
                    }
                },
            }
        },
    }
}

pub open spec fn push_view(r: Result<Option<MetricPush>, ConfigError>) -> Result<Option<(i64, Seq<char>, Seq<char>)>, ErrorView> {
    match r {
        Ok(Some(p)) => Ok(Some((p.interval_ms, p.address@, p.job@))),
        Ok(None) => Ok(None),
        Err(e) => Err(err_view(e)),
    }
}

pub fn initial_metric(config: &ConfigValue, node_id: Option<u64>) -> (r: Result<Option<MetricPush>, ConfigError>)
    ensures
        push_view(r) == metric_push_for(*config, node_id),
        r is Ok ==> (r->Ok_0 is Some <==> (int_setting(*config, "metric.interval"@, Some(0))->Ok_0 > 0
            && string_setting(*config, "metric.address"@, Some(""@))->Ok_0.len() > 0)),
        r matches Ok(Some(p)) ==> p.interval_ms > 0,
{
    proof {
        reveal_strlit("");
    }
    let push_interval = match get_toml_int(config, "metric.interval", Some(0)) {
        Ok(i) => i,
        Err(e) => return Err(e),
    };
    if push_interval <= 0 {
        return Ok(None);
    }
    let push_address = match get_toml_string(config, "metric.address", Some(String::new())) {
        Ok(a) => a,
        Err(e) => return Err(e),
    };
    if push_address.unicode_len() == 0 {
        return Ok(None);
    }
    let push_job = match get_toml_string(config, "metric.job", Some("tikv".to_owned())) {
        Ok(j) => j,
        Err(e) => return Err(e),
    };
    let job = match node_id {
        Some(id) => push_job.concat("_").concat(decimal_text(id).as_str()),
        None => push_job,
    };
    Ok(Some(MetricPush { interval_ms: push_interval, address: push_address, job }))
}

/// An integer flag's text, read as a decimal integer or a size with a unit.
pub fn get_flag_int(value: &Option<String>, name: &str) -> (r: Result<Option<i64>, ConfigError>)
    ensures
        match value {
            Some(v) => match int_option_value(v@) {
                Some(i) => r == Ok::<Option<i64>, ConfigError>(Some(i)),
                None => r is Err && err_view(r->Err_0) == (ConfigErrorKind::BadInteger, name@),
            },
            None => r == Ok::<Option<i64>, ConfigError>(None),
        },
{
    match value {
        Some(v) => match parse_int_option(v.as_str()) {
            Some(i) => Ok(Some(i)),
            None => Err(ConfigError::new(ConfigErrorKind::BadInteger, name)),
        },
        None => Ok(None),
    }
}


/// Whether the process may hold open the files that the engine may open:
/// `expect` files, or any number where `expect` is negative; a limit of
/// `u64::MAX` is no limit.
pub open spec fn open_files_fit(expect: i64, soft_limit: u64) -> bool {
    if expect < 0 {
        soft_limit == u64::MAX
    } else {
        expect as u64 <= soft_limit
    }
}

/// Checks the engine's `rocksdb.max-open-files` against the process's
/// limit on open files.
pub fn check_max_open_fds(expect: i64, soft_limit: u64) -> (r: Result<(), ConfigError>)
    ensures
        r is Ok <==> open_files_fit(expect, soft_limit),
        r is Err ==> err_view(r->Err_0) == (ConfigErrorKind::OpenFilesOverLimit, "rocksdb.max-open-files"@),
{
    let fits = if expect < 0 {
        soft_limit == u64::MAX
    } else {
        expect as u64 <= soft_limit
    };
    if fits {
        Ok(())
    } else {
        Err(ConfigError::new(ConfigErrorKind::OpenFilesOverLimit, "rocksdb.max-open-files"))
    }
}

} // verus!

use tikv_node::config::{ConfigErrorKind, ConfigValue};
use tikv_node::engine::{
    get_rocksdb_db_option, get_rocksdb_default_cf_option, get_rocksdb_lock_cf_option,
    get_rocksdb_raftlog_cf_option, get_rocksdb_write_cf_option, parse_rocksdb_compaction_pri,
    parse_rocksdb_per_level_compression, parse_rocksdb_wal_recovery_mode, CompactionPriority,
    Compression, PrefixExtractor, WalRecoveryMode, RAFT_PREFIX_LEN,
};
use tikv_node::node::{
    build_cfg, check_advertise_address, check_cluster_id, check_max_open_fds, initial_metric, parse_store_labels,
    resolve_addr, resolve_capacity, resolve_labels, resolve_log_level, resolve_pd_endpoints,
    select_backup_dir, select_data_dir, Flags,
};
use tikv_node::sizing::{
    adjust_block_cache_size, adjust_end_points_by_cpu_num, align_to_mb, block_cache_sizes,
    sanitize_memory_usage, GB, MB,
};

fn text(s: &str) -> ConfigValue {
    ConfigValue::Str(s.to_owned())
}

fn table(entries: Vec<(&str, ConfigValue)>) -> ConfigValue {
    ConfigValue::Table(entries.into_iter().map(|(k, v)| (k.to_owned(), v)).collect())
}

fn no_flags() -> Flags {
    Flags {
        addr: None,
        advertise_addr: None,
        log_level: None,
        log_file: None,
        data_dir: None,
        capacity: None,
        pd_endpoints: None,
        labels: None,
    }
}

#[test]
fn auto_sizing_for_a_large_host() {
    let total_mem = 64 * GB;
    let empty = table(vec![]);
    let cfg = build_cfg(&no_flags(), &empty, 1, "127.0.0.1:20160".to_owned(), 32).unwrap();
    assert_eq!(cfg.end_point_concurrency, 25);
    let sizes = block_cache_sizes(total_mem);
    assert_eq!(sizes.default_cf, 16 * GB);
    assert_eq!(sizes.write_cf, 9830 * MB);
    assert_eq!(sizes.raft_cf, 1310 * MB);
    assert_eq!(sizes.lock_cf, GB);
    assert!(sizes.default_cf + sizes.write_cf + sizes.raft_cf + sizes.lock_cf <= total_mem);
}

#[test]
fn cache_sizes_are_clamped_and_aligned() {
    let small = block_cache_sizes(GB);
    assert_eq!(small.raft_cf, 256 * MB);
    assert_eq!(small.lock_cf, 256 * MB);
    assert!(small.default_cf + small.write_cf + small.raft_cf + small.lock_cf <= GB);
    let huge = block_cache_sizes(u64::MAX);
    assert_eq!(huge.raft_cf, 2 * GB);
    assert_eq!(huge.lock_cf, GB);
    assert_eq!(huge.default_cf % MB, 0);
    assert_eq!(huge.write_cf % MB, 0);
    let edge = block_cache_sizes(851 * MB);
    assert!(edge.default_cf + edge.write_cf + edge.raft_cf + edge.lock_cf <= 851 * MB);
    let below = block_cache_sizes(850 * MB);
    assert!(below.default_cf + below.write_cf + below.raft_cf + below.lock_cf > 850 * MB);
    let none = block_cache_sizes(0);
    assert_eq!(none.default_cf, 0);
    assert_eq!(none.raft_cf, 256 * MB);
    assert_eq!(align_to_mb(3 * MB + 17), 3 * MB);
    assert_eq!(align_to_mb(MB - 1), 0);
    assert_eq!(adjust_block_cache_size(5, 10, 20), 10);
    assert_eq!(adjust_block_cache_size(25, 10, 20), 20);
    assert_eq!(adjust_block_cache_size(15, 10, 20), 15);
    assert!(sanitize_memory_usage());
}

#[test]
fn end_points_follow_cpu_count() {
    assert_eq!(adjust_end_points_by_cpu_num(32), 25);
    assert_eq!(adjust_end_points_by_cpu_num(8), 6);
    assert_eq!(adjust_end_points_by_cpu_num(7), 5);
    assert_eq!(adjust_end_points_by_cpu_num(1), 4);
    assert_eq!(adjust_end_points_by_cpu_num(0), 4);
}

#[test]
fn cli_address_overrides_file() {
    let config = table(vec![("server", table(vec![("addr", text("10.0.0.2:20160"))]))]);
    let mut flags = no_flags();
    flags.addr = Some("10.0.0.1:20160".to_owned());
    assert_eq!(resolve_addr(&flags, &config).unwrap(), "10.0.0.1:20160");
    assert_eq!(resolve_addr(&no_flags(), &config).unwrap(), "10.0.0.2:20160");
    assert_eq!(resolve_addr(&no_flags(), &table(vec![])).unwrap(), "127.0.0.1:20160");
    let bad = table(vec![("server", table(vec![("addr", text("nowhere"))]))]);
    assert_eq!(resolve_addr(&no_flags(), &bad).unwrap_err().kind, ConfigErrorKind::InvalidAddr);
}

#[test]
fn advertise_address_of_the_current_network_is_refused() {
    let e = check_advertise_address("0.0.0.0:20160").unwrap_err();
    assert_eq!(e.kind, ConfigErrorKind::InvalidAdvertiseAddr);
    assert!(e.message().contains("advertise-addr"));
    assert!(check_advertise_address("10.0.0.1:20160").is_ok());
    assert_eq!(
        check_advertise_address("10.0.0.1").unwrap_err().kind,
        ConfigErrorKind::InvalidAddr
    );
    let mut flags = no_flags();
    flags.advertise_addr = Some("0.0.0.0:20160".to_owned());
    let e = build_cfg(&flags, &table(vec![]), 1, "127.0.0.1:20160".to_owned(), 4).unwrap_err();
    assert_eq!(e.kind, ConfigErrorKind::InvalidAdvertiseAddr);
}

#[test]
fn cluster_id_zero_is_refused() {
    let e = check_cluster_id(0).unwrap_err();
    assert_eq!(e.kind, ConfigErrorKind::ZeroClusterId);
    assert!(check_cluster_id(7).is_ok());
    let e = build_cfg(&no_flags(), &table(vec![]), 0, "127.0.0.1:20160".to_owned(), 4).unwrap_err();
    assert_eq!(e.kind, ConfigErrorKind::ZeroClusterId);
}

#[test]
fn build_cfg_reads_the_file() {
    let config = table(vec![
        (
            "server",
            table(vec![
                ("grpc-concurrency", ConfigValue::Integer(9)),
                ("end-point-concurrency", ConfigValue::Integer(3)),
                ("capacity", text("2G")),
                ("advertise-addr", text("10.1.1.1:20160")),
            ]),
        ),
        (
            "raftstore",
            table(vec![
                ("sync-log", ConfigValue::Boolean(false)),
                ("raft-election-timeout-ticks", ConfigValue::Integer(20)),
                ("max-peer-down-duration", ConfigValue::Integer(1000)),
            ]),
        ),
        ("storage", table(vec![("scheduler-worker-pool-size", ConfigValue::Integer(16))])),
    ]);
    let cfg = build_cfg(&no_flags(), &config, 5, "127.0.0.1:20160".to_owned(), 64).unwrap();
    assert_eq!(cfg.cluster_id, 5);
    assert_eq!(cfg.grpc_concurrency, 9);
    assert_eq!(cfg.end_point_concurrency, 3);
    assert_eq!(cfg.raft_store.capacity, 2 * 1024 * 1024 * 1024);
    assert_eq!(cfg.advertise_addr, "10.1.1.1:20160");
    assert!(!cfg.raft_store.sync_log);
    assert_eq!(cfg.raft_store.raft_election_timeout_ticks, 20);
    assert_eq!(cfg.raft_store.max_peer_down_duration, std::time::Duration::from_secs(1));
    assert_eq!(cfg.storage.scheduler_worker_pool_size, 16);
    assert_eq!(cfg.grpc_raft_conn_num, 10);
    let mut flags = no_flags();
    flags.capacity = Some("1K".to_owned());
    let cfg = build_cfg(&flags, &config, 5, "127.0.0.1:20160".to_owned(), 64).unwrap();
    assert_eq!(cfg.raft_store.capacity, 1024);
    let bad = table(vec![("storage", table(vec![("scheduler-concurrency", ConfigValue::Integer(-1))]))]);
    let e = build_cfg(&no_flags(), &bad, 5, "127.0.0.1:20160".to_owned(), 64).unwrap_err();
    assert_eq!(e.kind, ConfigErrorKind::OutOfRange);
    assert_eq!(e.subject, "storage.scheduler-concurrency");
}

#[test]
fn capacity_flag_wins_and_must_parse() {
    let config = table(vec![("server", table(vec![("capacity", text("2G"))]))]);
    assert_eq!(resolve_capacity(&no_flags(), &config).unwrap(), Some(2 * 1024 * 1024 * 1024));
    let mut flags = no_flags();
    flags.capacity = Some("10M".to_owned());
    assert_eq!(resolve_capacity(&flags, &config).unwrap(), Some(10 * 1024 * 1024));
    flags.capacity = Some("-1".to_owned());
    assert_eq!(resolve_capacity(&flags, &config).unwrap_err().kind, ConfigErrorKind::OutOfRange);
    flags.capacity = Some("ten".to_owned());
    assert_eq!(resolve_capacity(&flags, &config).unwrap_err().kind, ConfigErrorKind::BadInteger);
}

#[test]
fn labels_are_pairs_with_distinct_keys() {
    let labels = parse_store_labels("zone=cn,disk=ssd").unwrap();
    assert_eq!(
        labels,
        vec![("zone".to_owned(), "cn".to_owned()), ("disk".to_owned(), "ssd".to_owned())]
    );
    assert_eq!(parse_store_labels("").unwrap(), vec![]);
    assert_eq!(parse_store_labels("a=b,,").unwrap(), vec![("a".to_owned(), "b".to_owned())]);
    assert_eq!(parse_store_labels("a=b,a=c").unwrap_err().kind, ConfigErrorKind::InvalidLabels);
    assert_eq!(parse_store_labels("a").unwrap_err().kind, ConfigErrorKind::InvalidLabels);
    assert_eq!(parse_store_labels("a=b=c").unwrap_err().kind, ConfigErrorKind::InvalidLabels);
    assert_eq!(parse_store_labels("=b").unwrap_err().kind, ConfigErrorKind::InvalidLabels);
    let config = table(vec![("server", table(vec![("labels", text("rack=r1"))]))]);
    let mut flags = no_flags();
    assert_eq!(resolve_labels(&flags, &config).unwrap(), vec![("rack".to_owned(), "r1".to_owned())]);
    flags.labels = Some("host=h2".to_owned());
    assert_eq!(resolve_labels(&flags, &config).unwrap(), vec![("host".to_owned(), "h2".to_owned())]);
}

#[test]
fn pd_endpoints_from_flag_or_file() {
    let config = table(vec![("pd", table(vec![("endpoints", text("a:1,b:2"))]))]);
    assert_eq!(resolve_pd_endpoints(&no_flags(), &config).unwrap(), vec!["a:1", "b:2"]);
    let mut flags = no_flags();
    flags.pd_endpoints = Some(vec!["c:3".to_owned()]);
    assert_eq!(resolve_pd_endpoints(&flags, &config).unwrap(), vec!["c:3"]);
    flags.pd_endpoints = Some(vec!["c:3".to_owned(), "d".to_owned()]);
    let e = resolve_pd_endpoints(&flags, &config).unwrap_err();
    assert_eq!(e.kind, ConfigErrorKind::InvalidAddr);
    assert_eq!(e.subject, "d");
    let e = resolve_pd_endpoints(&no_flags(), &table(vec![])).unwrap_err();
    assert_eq!(e.kind, ConfigErrorKind::Missing);
}

#[test]
fn directories() {
    let config = table(vec![("server", table(vec![("store", text("/data/old"))]))]);
    assert_eq!(select_data_dir(&no_flags(), &config), Some("/data/old".to_owned()));
    let mut flags = no_flags();
    flags.data_dir = Some("/data/new".to_owned());
    assert_eq!(select_data_dir(&flags, &config), Some("/data/new".to_owned()));
    assert_eq!(select_data_dir(&no_flags(), &table(vec![])), None);
    assert_eq!(select_backup_dir(&table(vec![]), "/data/new"), "/data/new/backup");
    assert_eq!(select_backup_dir(&table(vec![]), "/"), "/backup");
    assert_eq!(select_backup_dir(&table(vec![]), ""), "");
    let config = table(vec![("server", table(vec![("backup", text("/b"))]))]);
    assert_eq!(select_backup_dir(&config, "/data/new"), "/b");
}

#[test]
fn log_level_defaults_to_info() {
    assert_eq!(resolve_log_level(&no_flags(), &table(vec![])), "info");
    let config = table(vec![("server", table(vec![("log-level", text("warn"))]))]);
    assert_eq!(resolve_log_level(&no_flags(), &config), "warn");
    let mut flags = no_flags();
    flags.log_level = Some("debug".to_owned());
    assert_eq!(resolve_log_level(&flags, &config), "debug");
}

#[test]
fn metric_push_settings() {
    assert!(initial_metric(&table(vec![]), Some(1)).unwrap().is_none());
    let config = table(vec![(
        "metric",
        table(vec![("interval", ConfigValue::Integer(15000)), ("address", text("pushgw:9091"))]),
    )]);
    let push = initial_metric(&config, Some(42)).unwrap().unwrap();
    assert_eq!(push.interval_ms, 15000);
    assert_eq!(push.address, "pushgw:9091");
    assert_eq!(push.job, "tikv_42");
    let push = initial_metric(&config, None).unwrap().unwrap();
    assert_eq!(push.job, "tikv");
    let negative = table(vec![(
        "metric",
        table(vec![("interval", ConfigValue::Integer(-5)), ("address", text("pushgw:9091"))]),
    )]);
    assert!(initial_metric(&negative, Some(1)).unwrap().is_none());
}

#[test]
fn engine_enums() {
    assert_eq!(
        parse_rocksdb_per_level_compression("no:no:lz4:lz4:lz4:zstd:zstd").unwrap(),
        vec![
            Compression::No,
            Compression::No,
            Compression::Lz4,
            Compression::Lz4,
            Compression::Lz4,
            Compression::Zstd,
            Compression::Zstd
        ]
    );
    assert_eq!(
        parse_rocksdb_per_level_compression("snappy:zlib:bzip2:lz4hc").unwrap(),
        vec![Compression::Snappy, Compression::Zlib, Compression::Bz2, Compression::Lz4hc]
    );
    let e = parse_rocksdb_per_level_compression("no:gzip").unwrap_err();
    assert_eq!(e.kind, ConfigErrorKind::BadCompression);
    assert_eq!(parse_rocksdb_compaction_pri(3).unwrap(), CompactionPriority::MinOverlappingRatio);
    assert_eq!(parse_rocksdb_compaction_pri(4).unwrap_err().kind, ConfigErrorKind::BadCompactionPri);
    assert_eq!(parse_rocksdb_wal_recovery_mode(2).unwrap(), WalRecoveryMode::PointInTime);
    assert_eq!(
        parse_rocksdb_wal_recovery_mode(-1).unwrap_err().kind,
        ConfigErrorKind::BadWalRecoveryMode
    );
}

#[test]
fn column_family_defaults() {
    let empty = table(vec![]);
    let total = 64 * GB;
    let d = get_rocksdb_default_cf_option(&empty, total).unwrap();
    assert_eq!(d.options.block_cache_size, (16 * GB) as i64);
    assert_eq!(d.options.compaction_pri, CompactionPriority::MinOverlappingRatio);
    assert!(d.options.bloom_filter.unwrap().whole_key_filtering);
    assert!(d.size_properties_collector);
    let w = get_rocksdb_write_cf_option(&empty, total).unwrap();
    assert_eq!(w.prefix_extractor, PrefixExtractor::FixedSuffix(8));
    assert!(!w.options.bloom_filter.unwrap().whole_key_filtering);
    assert!(w.mvcc_properties_collector);
    let r = get_rocksdb_raftlog_cf_option(&empty, total).unwrap();
    assert_eq!(r.options.block_cache_size, (1310 * MB) as i64);
    assert_eq!(r.memtable_insert_hint_prefix_len, Some(RAFT_PREFIX_LEN));
    assert!(r.options.bloom_filter.is_none());
    let l = get_rocksdb_lock_cf_option(&empty, total).unwrap();
    assert_eq!(l.options.block_cache_size, GB as i64);
    assert_eq!(l.options.block_size, 16 * 1024);
    assert_eq!(l.options.level_zero_file_num_compaction_trigger, 1);
    assert_eq!(l.options.max_bytes_for_level_base, (128 * MB) as i64);
    assert_eq!(l.options.compression_per_level, vec![Compression::No; 7]);
    assert_eq!(l.prefix_extractor, PrefixExtractor::Noop);
    let config = table(vec![(
        "rocksdb",
        table(vec![("lockcf", table(vec![("block-size", text("32K"))]))]),
    )]);
    let l = get_rocksdb_lock_cf_option(&config, total).unwrap();
    assert_eq!(l.options.block_size, 32 * 1024);
}

#[test]
fn db_option_defaults_and_overrides() {
    let o = get_rocksdb_db_option(&table(vec![])).unwrap();
    assert_eq!(o.wal_recovery_mode, WalRecoveryMode::PointInTime);
    assert!(o.wal_dir.is_none());
    assert_eq!(o.max_open_files, 40960);
    assert_eq!(o.stats_dump_period_sec, Some(600));
    assert!(o.rate_bytes_per_sec.is_none());
    assert!(o.enable_pipelined_write);
    let config = table(vec![(
        "rocksdb",
        table(vec![
            ("wal-size-limit", text("3M")),
            ("info-log-roll-time", ConfigValue::Integer(7200000)),
            ("enable-statistics", ConfigValue::Boolean(false)),
            ("rate-bytes-per-sec", ConfigValue::Integer(1024)),
            ("wal-dir", text("/wal")),
        ]),
    )]);
    let o = get_rocksdb_db_option(&config).unwrap();
    assert_eq!(o.wal_size_limit_mb, 3);
    assert_eq!(o.info_log_roll_time_secs, 7200);
    assert_eq!(o.stats_dump_period_sec, None);
    assert_eq!(o.rate_bytes_per_sec, Some(1024));
    assert_eq!(o.wal_dir, Some("/wal".to_owned()));
    let bad = table(vec![("rocksdb", table(vec![("wal-recovery-mode", ConfigValue::Integer(9))]))]);
    assert_eq!(get_rocksdb_db_option(&bad).unwrap_err().kind, ConfigErrorKind::BadWalRecoveryMode);
}

#[test]
fn open_files_must_fit_the_limit() {
    assert!(check_max_open_fds(40960, 65536).is_ok());
    assert!(check_max_open_fds(40960, 40960).is_ok());
    let e = check_max_open_fds(40960, 1024).unwrap_err();
    assert_eq!(e.kind, ConfigErrorKind::OpenFilesOverLimit);
    assert!(check_max_open_fds(-1, u64::MAX).is_ok());
    assert!(check_max_open_fds(-1, 1 << 20).is_err());
}

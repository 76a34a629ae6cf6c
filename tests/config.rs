use std::time::Duration;

use tikv_node::config::{
    cfg_duration, cfg_u64, cfg_usize, get_toml_boolean, get_toml_int, get_toml_int_opt,
    get_toml_string, get_toml_string_opt, lookup, ConfigErrorKind, ConfigValue,
};
use tikv_node::text::{
    check_addr, decimal_text, parse_i64, parse_int_option, parse_readable_int, split_on,
};

fn text(s: &str) -> ConfigValue {
    ConfigValue::Str(s.to_owned())
}

fn table(entries: Vec<(&str, ConfigValue)>) -> ConfigValue {
    ConfigValue::Table(entries.into_iter().map(|(k, v)| (k.to_owned(), v)).collect())
}

fn sample() -> ConfigValue {
    table(vec![
        ("foo", text("bar")),
        (
            "rocksdb",
            table(vec![
                ("compaction-readahead-size", ConfigValue::Integer(0)),
                ("defaultcf", table(vec![("compression-per-level", text("no"))])),
            ]),
        ),
    ])
}

#[test]
fn test_lookup() {
    let value = sample();
    let queries = vec![
        ("foo", ConfigValue::Str("bar".to_owned())),
        ("rocksdb.compaction-readahead-size", ConfigValue::Integer(0)),
        ("rocksdb.defaultcf.compression-per-level", ConfigValue::Str("no".to_owned())),
    ];
    for (key, exp) in queries {
        let res = lookup(&value, key).unwrap();
        assert_eq!(*res, exp);
    }
    assert!(lookup(&value, "foo1").is_none());
}

#[test]
fn lookup_needs_every_prefix() {
    let value = sample();
    assert!(lookup(&value, "rocksdb.defaultcf.nothing").is_none());
    assert!(lookup(&value, "rocksdb.writecf.compression-per-level").is_none());
    assert!(lookup(&value, "foo.bar").is_none());
    assert!(lookup(&ConfigValue::Integer(0), "foo").is_none());
    assert!(lookup(&value, "rocksdb").is_some());
}

#[test]
fn size_text_with_unit() {
    let config = table(vec![("server", table(vec![("capacity", text("2G"))]))]);
    assert_eq!(get_toml_int_opt(&config, "server.capacity").unwrap(), Some(2 * 1024 * 1024 * 1024));
    assert_eq!(parse_readable_int("16K"), Some(16 * 1024));
    assert_eq!(parse_readable_int("3M"), Some(3 * 1024 * 1024));
    assert_eq!(parse_readable_int("1T"), Some(1024 * 1024 * 1024 * 1024));
    assert_eq!(parse_readable_int("512"), Some(512));
    assert_eq!(parse_readable_int("G"), None);
    assert_eq!(parse_readable_int("2X"), None);
    assert_eq!(parse_readable_int(""), None);
    assert_eq!(parse_readable_int("9999999T"), None);
}

#[test]
fn decimal_integers() {
    assert_eq!(parse_i64("-42"), Some(-42));
    assert_eq!(parse_i64("+7"), Some(7));
    assert_eq!(parse_i64("9223372036854775807"), Some(i64::MAX));
    assert_eq!(parse_i64("-9223372036854775808"), Some(i64::MIN));
    assert_eq!(parse_i64("9223372036854775808"), None);
    assert_eq!(parse_i64("1_000"), None);
    assert_eq!(parse_i64("-"), None);
    assert_eq!(parse_int_option("-3"), Some(-3));
    assert_eq!(parse_int_option("4K"), Some(4096));
    assert_eq!(decimal_text(0), "0");
    assert_eq!(decimal_text(1207), "1207");
}

#[test]
fn splitting_keeps_empty_pieces() {
    assert_eq!(split_on("a.b.c", '.'), vec!["a", "b", "c"]);
    assert_eq!(split_on("", '.'), vec![""]);
    assert_eq!(split_on("a..", '.'), vec!["a", "", ""]);
}

#[test]
fn addresses() {
    assert!(check_addr("127.0.0.1:20160"));
    assert!(check_addr("pd:2379"));
    assert!(!check_addr("127.0.0.1"));
    assert!(!check_addr(":20160"));
    assert!(!check_addr("127.0.0.1:65536"));
    assert!(!check_addr("a:b:1"));
}

#[test]
fn typed_options_and_their_errors() {
    let config = table(vec![
        ("flag", ConfigValue::Boolean(false)),
        ("name", text("node")),
        ("count", ConfigValue::Integer(-1)),
        ("size", text("lots")),
    ]);
    assert_eq!(get_toml_boolean(&config, "flag", Some(true)).unwrap(), false);
    assert_eq!(get_toml_boolean(&config, "other", Some(true)).unwrap(), true);
    let e = get_toml_boolean(&config, "name", None).unwrap_err();
    assert_eq!(e.kind, ConfigErrorKind::NotBoolean);
    assert_eq!(e.message(), "name boolean is expected");
    let e = get_toml_string(&config, "count", None).unwrap_err();
    assert_eq!(e.kind, ConfigErrorKind::NotString);
    assert_eq!(e.message(), "count string is expected");
    let e = get_toml_string(&config, "missing", None).unwrap_err();
    assert_eq!(e.kind, ConfigErrorKind::Missing);
    assert_eq!(e.message(), "please specify missing");
    assert_eq!(get_toml_string(&config, "missing", Some("x".to_owned())).unwrap(), "x");
    assert_eq!(get_toml_string_opt(&config, "name"), Some("node".to_owned()));
    assert_eq!(get_toml_string_opt(&config, "flag"), None);
    let e = get_toml_int(&config, "size", Some(1)).unwrap_err();
    assert_eq!(e.kind, ConfigErrorKind::BadInteger);
    let e = get_toml_int(&config, "flag", Some(1)).unwrap_err();
    assert_eq!(e.kind, ConfigErrorKind::NotInteger);
    assert_eq!(get_toml_int(&config, "nothing", Some(9)).unwrap(), 9);
    assert_eq!(get_toml_int(&config, "count", None).unwrap(), -1);
}

#[test]
fn setters_keep_the_value_unless_given() {
    let config = table(vec![
        ("a", ConfigValue::Integer(12)),
        ("neg", ConfigValue::Integer(-5)),
        ("ms", ConfigValue::Integer(1500)),
    ]);
    let mut u: usize = 3;
    assert_eq!(cfg_usize(&mut u, &config, "a").unwrap(), true);
    assert_eq!(u, 12);
    assert_eq!(cfg_usize(&mut u, &config, "b").unwrap(), false);
    assert_eq!(u, 12);
    let e = cfg_usize(&mut u, &config, "neg").unwrap_err();
    assert_eq!(e.kind, ConfigErrorKind::OutOfRange);
    assert_eq!(u, 12);
    let mut v: u64 = 7;
    cfg_u64(&mut v, &config, "a").unwrap();
    assert_eq!(v, 12);
    assert!(cfg_u64(&mut v, &config, "neg").is_err());
    assert_eq!(v, 12);
    let mut d = Duration::from_secs(1);
    cfg_duration(&mut d, &config, "ms").unwrap();
    assert_eq!(d, Duration::from_millis(1500));
    cfg_duration(&mut d, &config, "none").unwrap();
    assert_eq!(d, Duration::from_millis(1500));
}

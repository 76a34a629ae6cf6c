//! A node's configuration tree and the typed reading of options from it.

use vstd::prelude::*;
use vstd::string::{StrSliceExecFns, StringExecFns};
use core::time::Duration;
use crate::time::{duration_nanos, NANOS_PER_MILLI};
use crate::text::{strings_view, split_on, split_seq, parse_readable_int, readable_value, fits_i64};

verus! {

/// A value of the hierarchical configuration file.
#[derive(Debug, PartialEq)]
pub enum ConfigValue {
    Integer(i64),
    Str(String),
    Boolean(bool),
    /// Keys and values of a section, in the file's order.
    Table(Vec<(String, ConfigValue)>),
    /// A value that no option here reads as such (a float, an array, a date).
    Other,
}

/// The value under `key` among a section's entries: the first entry with
/// that key.
pub open spec fn table_get(entries: Seq<(String, ConfigValue)>, key: Seq<char>) -> Option<ConfigValue>
    decreases entries.len(),
{
    if entries.len() == 0 {
        None
    } else if entries[0].0@ == key {
        Some(entries[0].1)
    } else {
        table_get(entries.drop_first(), key)
    }
}

/// The value under `key` in `v`, if `v` is a section that has it.
pub open spec fn child(v: ConfigValue, key: Seq<char>) -> Option<ConfigValue> {
    match v {
        ConfigValue::Table(entries) => table_get(entries@, key),
        _ => None,
    }
}

/// The value reached from `v` by following `keys`, one section at a time.
pub open spec fn lookup_path(v: ConfigValue, keys: Seq<Seq<char>>) -> Option<ConfigValue>
    decreases keys.len(),
{
    if keys.len() == 0 {
        Some(v)
    } else {
        match child(v, keys[0]) {
            Some(c) => lookup_path(c, keys.drop_first()),
            None => None,
        }
    }
}

/// The keys of a dotted name: `"a.b.c"` names `a`, then `b`, then `c`.
pub open spec fn key_path(name: Seq<char>) -> Seq<Seq<char>> {
    split_seq(name, '.')
}

/// The value that the dotted name `name` reaches in `config`.
pub open spec fn lookup_spec(config: ConfigValue, name: Seq<char>) -> Option<ConfigValue> {
    lookup_path(config, key_path(name))
}

/// Following a path in two legs is following it at once.
pub proof fn lemma_lookup_path_append(v: ConfigValue, a: Seq<Seq<char>>, b: Seq<Seq<char>>)
    ensures
        lookup_path(v, a + b) == (match lookup_path(v, a) {
            Some(w) => lookup_path(w, b),
            None => None,
        }),
    decreases a.len(),
{
    if a.len() > 0 {
        assert((a + b).drop_first() =~= a.drop_first() + b);
        assert((a + b)[0] == a[0]);
        match child(v, a[0]) {
            Some(c) => lemma_lookup_path_append(c, a.drop_first(), b),
            None => {},
        }
    } else {
        assert(a + b =~= b);
    }
}

/// A nested value is found exactly when every prefix of its path leads to a
/// value; otherwise nothing is found.
pub proof fn law_lookup_prefixes(v: ConfigValue, keys: Seq<Seq<char>>)
    ensures
        lookup_path(v, keys) is Some <==> forall|i: int|
            0 <= i <= keys.len() ==> #[trigger] lookup_path(v, keys.take(i)) is Some,
{
    if lookup_path(v, keys) is Some {
        assert forall|i: int| 0 <= i <= keys.len() implies #[trigger] lookup_path(v, keys.take(i)) is Some by {
            lemma_lookup_path_append(v, keys.take(i), keys.skip(i));
            assert(keys.take(i) + keys.skip(i) =~= keys);
        }
    } else {
        assert(keys.take(keys.len() as int) =~= keys);
    }
}

/// `lookup` of a dotted name such as `"a.b.c"` finds a value exactly when
/// each of `a`, `a.b` and `a.b.c` leads to one, and finds the value under
/// the last key of the section that the others lead to.
pub proof fn law_lookup_dotted(config: ConfigValue, name: Seq<char>)
    ensures
        lookup_spec(config, name) is Some <==> forall|i: int|
            0 <= i <= key_path(name).len() ==> #[trigger] lookup_path(config, key_path(name).take(i)) is Some,
        key_path(name).len() > 0 ==> lookup_spec(config, name) == (match lookup_path(config, key_path(name).drop_last()) {
            Some(section) => child(section, key_path(name).last()),
            None => None,
        }),
{
    law_lookup_prefixes(config, key_path(name));
    let keys = key_path(name);
    if keys.len() > 0 {
        lemma_lookup_path_append(config, keys.drop_last(), seq![keys.last()]);
        assert(keys.drop_last() + seq![keys.last()] =~= keys);
        match lookup_path(config, keys.drop_last()) {
            Some(section) => {
                let last = seq![keys.last()];
                assert(last.drop_first() =~= Seq::<Seq<char>>::empty());
                assert(last[0] == keys.last());
                match child(section, keys.last()) {
                    Some(c) => {
                        assert(lookup_path(c, Seq::<Seq<char>>::empty()) == Some(c));
                    },
                    None => {},
                }
            },
            None => {},
        }
    }
}

/// The value under `key` in `v`, as `child` states.
fn get_child<'a>(v: &'a ConfigValue, key: &String) -> (r: Option<&'a ConfigValue>)
    ensures
        match r {
            Some(c) => child(*v, key@) == Some(*c),
            None => child(*v, key@) is None,
        },
{
    match v {
        ConfigValue::Table(entries) => {
            assert(child(*v, key@) == table_get(entries@, key@));
            let mut i: usize = 0;
            assert(entries@.skip(0) =~= entries@);
            while i < entries.len()
                invariant
                    i <= entries.len(),
                    child(*v, key@) == table_get(entries@, key@),
                    table_get(entries@, key@) == table_get(entries@.skip(i as int), key@),
                decreases entries.len() - i,
            {
                assert(entries@.skip(i as int).drop_first() =~= entries@.skip(i as int + 1));
                assert(entries@.skip(i as int)[0] == entries@[i as int]);
                if entries[i].0 == *key {
                    return Some(&entries[i].1);
                }
                i = i + 1;
            }
            assert(entries@.skip(i as int) =~= Seq::<(String, ConfigValue)>::empty());
            None
        },
        _ => None,
    }
}

/// The value that the dotted name `name` reaches in `config`: `"a.b.c"` is
/// `c` in section `b` of section `a`.
pub fn lookup<'a>(config: &'a ConfigValue, name: &str) -> (r: Option<&'a ConfigValue>)
    ensures
        match r {
            Some(v) => lookup_spec(*config, name@) == Some(*v),
            None => lookup_spec(*config, name@) is None,
        },
{
    let keys = split_on(name, '.');
    let ghost path = strings_view(keys@);
    let mut res: &ConfigValue = config;
    let mut i: usize = 0;
    assert(path.skip(0) =~= path);
    while i < keys.len()
        invariant
            i <= keys.len(),
            path == strings_view(keys@),
            path == key_path(name@),
            lookup_path(*config, path) == lookup_path(*res, path.skip(i as int)),
        decreases keys.len() - i,
    {
        assert(path.skip(i as int).drop_first() =~= path.skip(i as int + 1));
        assert(path.skip(i as int)[0] == keys@[i as int]@);
        match get_child(res, &keys[i]) {
            Some(c) => {
                res = c;
            },
            None => {
                return None;
            },
        }
        i = i + 1;
    }
    assert(path.skip(i as int) =~= Seq::<Seq<char>>::empty());
    Some(res)
}


/// What is wrong with a configuration.
#[derive(Copy, Clone, Debug, PartialEq, Eq, Structural)]
pub enum ConfigErrorKind {
    /// An option with no default is not given.
    Missing,
    /// An option's value is not a boolean.
    NotBoolean,
    /// An option's value is not a string.
    NotString,
    /// An option's value is neither an integer nor a size text.
    NotInteger,
    /// An option's text is not an integer that fits.
    BadInteger,
    /// An option's integer is outside the range its setting takes.
    OutOfRange,
    /// An address is not `host:port`.
    InvalidAddr,
    /// An advertised address is not `host:port`, or names the current network.
    InvalidAdvertiseAddr,
    /// A label list is not `key=value` pairs with distinct keys.
    InvalidLabels,
    /// The cluster id is the reserved value zero.
    ZeroClusterId,
    /// A write-ahead-log recovery mode is not one of `0` to `3`.
    BadWalRecoveryMode,
    /// A compaction priority is not one of `0` to `3`.
    BadCompactionPri,
    /// A per-level compression list names an unknown compression.
    BadCompression,
    /// The engine may open more files than the process may hold open.
    OpenFilesOverLimit,
}

/// A configuration error: its kind, and the option or value it concerns.
#[derive(Debug)]
pub struct ConfigError {
    pub kind: ConfigErrorKind,
    pub subject: String,
}

/// An error as plain values: its kind and its subject's text.
pub type ErrorView = (ConfigErrorKind, Seq<char>);

pub open spec fn err_view(e: ConfigError) -> ErrorView {
    (e.kind, e.subject@)
}

pub open spec fn view_result<T>(r: Result<T, ConfigError>) -> Result<T, ErrorView> {
    match r {
        Ok(v) => Ok(v),
        Err(e) => Err(err_view(e)),
    }
}

pub open spec fn view_string_result(r: Result<String, ConfigError>) -> Result<Seq<char>, ErrorView> {
    match r {
        Ok(v) => Ok(v@),
        Err(e) => Err(err_view(e)),
    }
}

/// The text before and after the subject in an error's message.
pub open spec fn message_frame(kind: ConfigErrorKind) -> (Seq<char>, Seq<char>) {
    match kind {
        ConfigErrorKind::Missing => ("please specify "@, ""@),
        ConfigErrorKind::NotBoolean => (""@, " boolean is expected"@),
        ConfigErrorKind::NotString => (""@, " string is expected"@),
        ConfigErrorKind::NotInteger => (""@, " int or readable int is expected"@),
        ConfigErrorKind::BadInteger => (""@, " parse failed"@),
        ConfigErrorKind::OutOfRange => (""@, " is invalid"@),
        ConfigErrorKind::InvalidAddr => ("invalid address: "@, ""@),
        ConfigErrorKind::InvalidAdvertiseAddr => ("invalid advertise-addr: "@, ""@),
        ConfigErrorKind::InvalidLabels => ("invalid labels: "@, ""@),
        ConfigErrorKind::ZeroClusterId => ("cluster id must be greater than 0: "@, ""@),
        ConfigErrorKind::BadWalRecoveryMode => ("unknown wal recovery mode: "@, ""@),
        ConfigErrorKind::BadCompactionPri => ("unknown compaction priority: "@, ""@),
        ConfigErrorKind::BadCompression => ("unknown compression: "@, ""@),
        ConfigErrorKind::OpenFilesOverLimit => ("the maximum number of open file descriptors is too small for "@, ""@),
    }
}

fn frame_of(kind: ConfigErrorKind) -> (r: (&'static str, &'static str))
    ensures
        (r.0@, r.1@) == message_frame(kind),
{
    match kind {
        ConfigErrorKind::Missing => ("please specify ", ""),
        ConfigErrorKind::NotBoolean => ("", " boolean is expected"),
        ConfigErrorKind::NotString => ("", " string is expected"),
        ConfigErrorKind::NotInteger => ("", " int or readable int is expected"),
        ConfigErrorKind::BadInteger => ("", " parse failed"),
        ConfigErrorKind::OutOfRange => ("", " is invalid"),
        ConfigErrorKind::InvalidAddr => ("invalid address: ", ""),
        ConfigErrorKind::InvalidAdvertiseAddr => ("invalid advertise-addr: ", ""),
        ConfigErrorKind::InvalidLabels => ("invalid labels: ", ""),
        ConfigErrorKind::ZeroClusterId => ("cluster id must be greater than 0: ", ""),
        ConfigErrorKind::BadWalRecoveryMode => ("unknown wal recovery mode: ", ""),
        ConfigErrorKind::BadCompactionPri => ("unknown compaction priority: ", ""),
        ConfigErrorKind::BadCompression => ("unknown compression: ", ""),
        ConfigErrorKind::OpenFilesOverLimit => ("the maximum number of open file descriptors is too small for ", ""),
    }
}

impl ConfigError {
    pub fn new(kind: ConfigErrorKind, subject: &str) -> (e: ConfigError)
        ensures
            err_view(e) == (kind, subject@),
    {
        ConfigError { kind, subject: subject.to_owned() }
    }

    /// The message that reports the error.
    pub fn message(&self) -> (r: String)
        ensures
            r@ == message_frame(self.kind).0 + self.subject@ + message_frame(self.kind).1,
    {
        let (before, after) = frame_of(self.kind);
        before.to_owned().concat(self.subject.as_str()).concat(after)
    }
}

/// A boolean option: the file's value, else the default, else missing.
pub open spec fn bool_setting(config: ConfigValue, name: Seq<char>, default: Option<bool>) -> Result<bool, ErrorView> {
    match lookup_spec(config, name) {
        Some(ConfigValue::Boolean(b)) => Ok(b),
        Some(_) => Err((ConfigErrorKind::NotBoolean, name)),
        None => match default {
            Some(b) => Ok(b),
            None => Err((ConfigErrorKind::Missing, name)),
        },
    }
}

pub fn get_toml_boolean(config: &ConfigValue, name: &str, default: Option<bool>) -> (r: Result<bool, ConfigError>)
    ensures
        view_result(r) == bool_setting(*config, name@, default),
{
    match lookup(config, name) {
        Some(ConfigValue::Boolean(b)) => Ok(*b),
        Some(_) => Err(ConfigError::new(ConfigErrorKind::NotBoolean, name)),
        None => match default {
            Some(b) => Ok(b),
            None => Err(ConfigError::new(ConfigErrorKind::Missing, name)),
        },
    }
}

/// A string option: the file's value, else the default, else missing.
pub open spec fn string_setting(config: ConfigValue, name: Seq<char>, default: Option<Seq<char>>) -> Result<Seq<char>, ErrorView> {
    match lookup_spec(config, name) {
        Some(ConfigValue::Str(s)) => Ok(s@),
        Some(_) => Err((ConfigErrorKind::NotString, name)),
        None => match default {
            Some(s) => Ok(s),
            None => Err((ConfigErrorKind::Missing, name)),
        },
    }
}

pub open spec fn opt_view(s: Option<String>) -> Option<Seq<char>> {
    match s {
        Some(s) => Some(s@),
        None => None,
    }
}

pub fn get_toml_string(config: &ConfigValue, name: &str, default: Option<String>) -> (r: Result<String, ConfigError>)
    ensures
        view_string_result(r) == string_setting(*config, name@, opt_view(default)),
{
    match lookup(config, name) {
        Some(ConfigValue::Str(s)) => Ok(s.clone()),
        Some(_) => Err(ConfigError::new(ConfigErrorKind::NotString, name)),
        None => match default {
            Some(s) => Ok(s),
            None => Err(ConfigError::new(ConfigErrorKind::Missing, name)),
        },
    }
}

/// A string option's value in the file, if it is there as a string.
pub open spec fn string_in_file(config: ConfigValue, name: Seq<char>) -> Option<Seq<char>> {
    match lookup_spec(config, name) {
        Some(ConfigValue::Str(s)) => Some(s@),
        _ => None,
    }
}

pub fn get_toml_string_opt(config: &ConfigValue, name: &str) -> (r: Option<String>)
    ensures
        opt_view(r) == string_in_file(*config, name@),
{
    match lookup(config, name) {
        Some(ConfigValue::Str(s)) => Some(s.clone()),
        _ => None,
    }
}

/// An integer option's value in the file: an integer, or a size text.
pub open spec fn int_in_file(config: ConfigValue, name: Seq<char>) -> Result<Option<i64>, ErrorView> {
    match lookup_spec(config, name) {
        Some(ConfigValue::Integer(i)) => Ok(Some(i)),
        Some(ConfigValue::Str(s)) => match fits_i64(readable_value(s@)) {
            Some(v) => Ok(Some(v)),
            None => Err((ConfigErrorKind::BadInteger, name)),
        },
        Some(_) => Err((ConfigErrorKind::NotInteger, name)),
        None => Ok(None),
    }
}

pub fn get_toml_int_opt(config: &ConfigValue, name: &str) -> (r: Result<Option<i64>, ConfigError>)
    ensures
        view_result(r) == int_in_file(*config, name@),
{
    match lookup(config, name) {
        Some(ConfigValue::Integer(i)) => Ok(Some(*i)),
        Some(ConfigValue::Str(s)) => match parse_readable_int(s.as_str()) {
            Some(v) => Ok(Some(v)),
            None => Err(ConfigError::new(ConfigErrorKind::BadInteger, name)),
        },
        Some(_) => Err(ConfigError::new(ConfigErrorKind::NotInteger, name)),
        None => Ok(None),
    }
}

/// An integer option: the file's value, else the default, else missing.
pub open spec fn int_setting(config: ConfigValue, name: Seq<char>, default: Option<i64>) -> Result<i64, ErrorView> {
    match int_in_file(config, name) {
        Ok(Some(i)) => Ok(i),
        Ok(None) => match default {
            Some(i) => Ok(i),
            None => Err((ConfigErrorKind::Missing, name)),
        },
        Err(e) => Err(e),
    }
}

pub fn get_toml_int(config: &ConfigValue, name: &str, default: Option<i64>) -> (r: Result<i64, ConfigError>)
    ensures
        view_result(r) == int_setting(*config, name@, default),
{
    match get_toml_int_opt(config, name) {
        Ok(Some(i)) => Ok(i),
        Ok(None) => match default {
            Some(i) => Ok(i),
            None => Err(ConfigError::new(ConfigErrorKind::Missing, name)),
        },
        Err(e) => Err(e),
    }
}

/// The value that a file's integer option sets, where the setting takes
/// integers from `0` to `max`.
pub open spec fn bounded_override(config: ConfigValue, name: Seq<char>, max: int) -> Result<Option<int>, ErrorView> {
    match int_in_file(config, name) {
        Ok(Some(i)) => if 0 <= i <= max {
            Ok(Some(i as int))
        } else {
            Err((ConfigErrorKind::OutOfRange, name))
        },
        Ok(None) => Ok(None),
        Err(e) => Err(e),
    }
}

/// Sets `target` from the file's integer option, if it is there; says
/// whether it was. A negative value, or one too large for `usize`, is an
/// error, and `target` then keeps its value.
pub fn cfg_usize(target: &mut usize, config: &ConfigValue, name: &str) -> (r: Result<bool, ConfigError>)
    ensures
        match bounded_override(*config, name@, usize::MAX as int) {
            Ok(Some(i)) => r == Ok::<bool, ConfigError>(true) && *final(target) == i,
            Ok(None) => r == Ok::<bool, ConfigError>(false) && *final(target) == *old(target),
            Err(e) => r is Err && err_view(r->Err_0) == e && *final(target) == *old(target),
        },
{
    match get_toml_int_opt(config, name) {
        Ok(Some(i)) => {
            if i >= 0 && i as u64 <= usize::MAX as u64 {
                *target = i as usize;
                Ok(true)
            } else {
                Err(ConfigError::new(ConfigErrorKind::OutOfRange, name))
            }
        },
        Ok(None) => Ok(false),
        Err(e) => Err(e),
    }
}

/// Sets `target` from the file's integer option, if it is there. A negative
/// value is an error, and `target` then keeps its value.
pub fn cfg_u64(target: &mut u64, config: &ConfigValue, name: &str) -> (r: Result<(), ConfigError>)
    ensures
        match bounded_override(*config, name@, u64::MAX as int) {
            Ok(Some(i)) => r is Ok && *final(target) == i,
            Ok(None) => r is Ok && *final(target) == *old(target),
            Err(e) => r is Err && err_view(r->Err_0) == e && *final(target) == *old(target),
        },
{
    match get_toml_int_opt(config, name) {
        Ok(Some(i)) => {
            if i >= 0 {
                *target = i as u64;
                Ok(())
            } else {
                Err(ConfigError::new(ConfigErrorKind::OutOfRange, name))
            }
        },
        Ok(None) => Ok(()),
        Err(e) => Err(e),
    }
}

/// Sets `target` from the file's option, a count of milliseconds, if it is
/// there. A negative value is an error, and `target` then keeps its value.
pub fn cfg_duration(target: &mut Duration, config: &ConfigValue, name: &str) -> (r: Result<(), ConfigError>)
    ensures
        match bounded_override(*config, name@, u64::MAX as int) {
            Ok(Some(i)) => r is Ok && duration_nanos(*final(target)) == i * NANOS_PER_MILLI,
            Ok(None) => r is Ok && *final(target) == *old(target),
            Err(e) => r is Err && err_view(r->Err_0) == e && *final(target) == *old(target),
        },
{
    match get_toml_int_opt(config, name) {
        Ok(Some(i)) => {
            if i >= 0 {
                let d = Duration::from_millis(i as u64);
                proof {
                    let m = i as int;
                    assert((m / 1000) * 1_000_000_000 + (m % 1000) * 1_000_000 == m * 1_000_000) by (nonlinear_arith)
                        requires
                            m >= 0,
                    {
                        vstd::arithmetic::div_mod::lemma_fundamental_div_mod(m, 1000);
                    }
                }
                *target = d;
                Ok(())
            } else {
                Err(ConfigError::new(ConfigErrorKind::OutOfRange, name))
            }
        },
        Ok(None) => Ok(()),
        Err(e) => Err(e),
    }
}


/// The value of a `usize` setting after the file's option, if given, is
/// applied to `old`.
pub open spec fn usize_from(config: ConfigValue, name: Seq<char>, old: usize) -> usize {
    match bounded_override(config, name, usize::MAX as int) {
        Ok(Some(i)) => i as usize,
        _ => old,
    }
}

/// The value of a `u64` setting after the file's option, if given, is
/// applied to `old`.
pub open spec fn u64_from(config: ConfigValue, name: Seq<char>, old: u64) -> u64 {
    match bounded_override(config, name, u64::MAX as int) {
        Ok(Some(i)) => i as u64,
        _ => old,
    }
}

/// Whether `new` is the duration setting after the file's option, a count
/// of milliseconds, if given, is applied to `old`.
pub open spec fn duration_from(config: ConfigValue, name: Seq<char>, old: Duration, new: Duration) -> bool {
    match bounded_override(config, name, u64::MAX as int) {
        Ok(Some(i)) => duration_nanos(new) == i * NANOS_PER_MILLI,
        _ => new == old,
    }
}

} // verus!

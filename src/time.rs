//! Monotonic clocks, instants and conversions of `std::time::Duration`.

use core::cmp::Ordering;
use core::time::Duration;
use nix::time::ClockId;
use vstd::prelude::*;
use vstd::std_specs::cmp::PartialOrdSpec;
use vstd::std_specs::ops::{AddSpec, SubSpec};

verus! {

pub const NANOS_PER_SEC: u64 = 1_000_000_000;

pub const NANOS_PER_MILLI: u64 = 1_000_000;

/// The whole seconds of a duration, as `Duration::as_secs` reports them.
pub uninterp spec fn duration_secs(d: Duration) -> u64;

/// The fractional part of a duration in nanoseconds, as
/// `Duration::subsec_nanos` reports it.
pub uninterp spec fn duration_subsec_nanos(d: Duration) -> u32;

/// The length of a duration in nanoseconds.
pub open spec fn duration_nanos(d: Duration) -> int {
    duration_secs(d) * NANOS_PER_SEC + duration_subsec_nanos(d)
}

/// Relies on `Duration::as_secs`: the whole seconds of the duration.
pub assume_specification[ Duration::as_secs ](d: &Duration) -> (r: u64)
    ensures
        r == duration_secs(*d),
;

/// Relies on `Duration::subsec_nanos`: the fractional part in nanoseconds,
/// always below one second.
pub assume_specification[ Duration::subsec_nanos ](d: &Duration) -> (r: u32)
    ensures
        r == duration_subsec_nanos(*d),
        r < NANOS_PER_SEC,
;

/// Relies on `Duration::new`: nanoseconds beyond a second carry into the
/// seconds; it panics when that carry overflows, which `requires` rules out.
pub assume_specification[ Duration::new ](secs: u64, nanos: u32) -> (r: Duration)
    requires
        secs + nanos as int / NANOS_PER_SEC as int <= u64::MAX,
    ensures
        duration_secs(r) == secs + nanos as int / NANOS_PER_SEC as int,
        duration_subsec_nanos(r) == nanos as int % NANOS_PER_SEC as int,
;

/// Relies on `Duration::from_secs`: a duration of whole seconds.
pub assume_specification[ Duration::from_secs ](secs: u64) -> (r: Duration)
    ensures
        duration_secs(r) == secs,
        duration_subsec_nanos(r) == 0,
;

/// Relies on `Duration::from_millis`: a duration of `millis` milliseconds.
pub assume_specification[ Duration::from_millis ](millis: u64) -> (r: Duration)
    ensures
        duration_secs(r) == millis / 1000,
        duration_subsec_nanos(r) == (millis % 1000) as int * NANOS_PER_MILLI as int,
;

/// Converts a duration to whole milliseconds, rounding down.
pub fn duration_to_ms(d: Duration) -> (r: u64)
    requires
        duration_nanos(d) / (NANOS_PER_MILLI as int) <= u64::MAX,
    ensures
        r == duration_nanos(d) / (NANOS_PER_MILLI as int),
{
    let nanos = d.subsec_nanos() as u64;
    let secs = d.as_secs();
    proof {
        let s = secs as int;
        let n = nanos as int;
        assert((s * 1_000_000_000 + n) / 1_000_000 == s * 1000 + n / 1_000_000) by (nonlinear_arith)
            requires
                0 <= n < 1_000_000_000,
                s >= 0,
        ;
        assert(s * 1000 <= s * 1000 + n / 1_000_000) by (nonlinear_arith)
            requires
                0 <= n,
        ;
    }
    secs * 1_000 + nanos / NANOS_PER_MILLI
}

/// Converts a duration to nanoseconds.
pub fn duration_to_nanos(d: Duration) -> (r: u64)
    requires
        duration_nanos(d) <= u64::MAX,
    ensures
        r == duration_nanos(d),
{
    let nanos = d.subsec_nanos() as u64;
    d.as_secs() * NANOS_PER_SEC + nanos
}


/// A point on a clock: whole seconds and nanoseconds since the clock's origin.
#[derive(Copy, Clone, Debug, PartialEq, Eq, PartialOrd, Ord, Structural)]
pub struct Timespec {
    pub sec: i64,
    pub nsec: i32,
}

impl Timespec {
    /// The nanoseconds part lies within one second.
    pub open spec fn wf(self) -> bool {
        0 <= self.nsec < NANOS_PER_SEC
    }

    /// Nanoseconds since the clock's origin.
    pub open spec fn nanos(self) -> int {
        self.sec * NANOS_PER_SEC + self.nsec
    }

    /// The point `n` nanoseconds after the origin.
    pub open spec fn of_nanos(n: int) -> Timespec {
        Timespec { sec: (n / NANOS_PER_SEC as int) as i64, nsec: (n % NANOS_PER_SEC as int) as i32 }
    }

    /// Whether a point `n` nanoseconds after the origin has seconds that fit in `i64`.
    pub open spec fn in_range(n: int) -> bool {
        i64::MIN <= n / NANOS_PER_SEC as int <= i64::MAX
    }

    pub fn new(sec: i64, nsec: i32) -> (r: Timespec)
        requires
            0 <= nsec < NANOS_PER_SEC,
        ensures
            r.sec == sec,
            r.nsec == nsec,
            r.wf(),
    {
        Timespec { sec, nsec }
    }

    /// Compares two points by seconds, then by nanoseconds.
    pub fn compare(&self, other: &Timespec) -> (r: Ordering)
        ensures
            r == cmp_timespec(*self, *other),
    {
        if self.sec < other.sec {
            Ordering::Less
        } else if self.sec > other.sec {
            Ordering::Greater
        } else if self.nsec < other.nsec {
            Ordering::Less
        } else if self.nsec > other.nsec {
            Ordering::Greater
        } else {
            Ordering::Equal
        }
    }
}

/// The order of two points: by seconds, then by nanoseconds.
pub open spec fn cmp_timespec(a: Timespec, b: Timespec) -> Ordering {
    if a.sec < b.sec {
        Ordering::Less
    } else if a.sec > b.sec {
        Ordering::Greater
    } else if a.nsec < b.nsec {
        Ordering::Less
    } else if a.nsec > b.nsec {
        Ordering::Greater
    } else {
        Ordering::Equal
    }
}

/// On well-formed points the lexicographic order is the order of their
/// nanosecond counts.
pub proof fn lemma_cmp_timespec_nanos(a: Timespec, b: Timespec)
    requires
        a.wf(),
        b.wf(),
    ensures
        (cmp_timespec(a, b) == Ordering::Less) <==> a.nanos() < b.nanos(),
        (cmp_timespec(a, b) == Ordering::Equal) <==> a == b,
        (cmp_timespec(a, b) == Ordering::Greater) <==> a.nanos() > b.nanos(),
        a.nanos() == b.nanos() <==> a == b,
{
    let (x, y) = (a.sec as int, b.sec as int);
    if x < y {
        assert(x * NANOS_PER_SEC + NANOS_PER_SEC <= y * NANOS_PER_SEC) by (nonlinear_arith)
            requires
                x < y,
        ;
    } else if x > y {
        assert(y * NANOS_PER_SEC + NANOS_PER_SEC <= x * NANOS_PER_SEC) by (nonlinear_arith)
            requires
                y < x,
        ;
    }
}

/// A well-formed point is the one its nanosecond count names.
pub proof fn lemma_of_nanos(t: Timespec)
    requires
        t.wf(),
    ensures
        Timespec::of_nanos(t.nanos()) == t,
        Timespec::in_range(t.nanos()),
{
    let n = t.nanos();
    assert(n / NANOS_PER_SEC as int == t.sec && n % NANOS_PER_SEC as int == t.nsec) by (nonlinear_arith)
        requires
            n == t.sec * 1_000_000_000 + t.nsec,
            0 <= t.nsec < 1_000_000_000,
    ;
}

/// The point named by a nanosecond count in range is well formed and has
/// that count.
pub proof fn lemma_nanos_of(n: int)
    requires
        Timespec::in_range(n),
    ensures
        Timespec::of_nanos(n).wf(),
        Timespec::of_nanos(n).nanos() == n,
{
    let q = n / NANOS_PER_SEC as int;
    let r = n % NANOS_PER_SEC as int;
    assert(q * 1_000_000_000 + r == n && 0 <= r < 1_000_000_000) by (nonlinear_arith)
        requires
            q == n / 1_000_000_000,
            r == n % 1_000_000_000,
    ;
}

/// The duration from `earlier` to `later`, for `earlier` not after `later`.
pub fn elapsed_duration(later: Timespec, earlier: Timespec) -> (r: Duration)
    requires
        later.wf(),
        earlier.wf(),
        earlier.nanos() <= later.nanos(),
    ensures
        duration_nanos(r) == later.nanos() - earlier.nanos(),
{
    let secs = (later.sec as i128 - earlier.sec as i128);
    let diff: Duration;
    if later.nsec >= earlier.nsec {
        proof {
            assert(secs >= 0) by (nonlinear_arith)
                requires
                    later.sec * 1_000_000_000 + later.nsec >= earlier.sec * 1_000_000_000 + earlier.nsec,
                    0 <= later.nsec < 1_000_000_000,
                    0 <= earlier.nsec < 1_000_000_000,
                    secs == later.sec - earlier.sec,
            ;
        }
        diff = Duration::new(secs as u64, (later.nsec - earlier.nsec) as u32);
    } else {
        proof {
            assert(secs >= 1) by (nonlinear_arith)
                requires
                    later.sec * 1_000_000_000 + later.nsec >= earlier.sec * 1_000_000_000 + earlier.nsec,
                    later.nsec < earlier.nsec,
                    0 <= later.nsec < 1_000_000_000,
                    0 <= earlier.nsec < 1_000_000_000,
                    secs == later.sec - earlier.sec,
            ;
        }
        let nsec = (later.nsec as i64 + NANOS_PER_SEC as i64 - earlier.nsec as i64) as u32;
        diff = Duration::new((secs - 1) as u64, nsec);
    }
    proof {
        assert(secs * NANOS_PER_SEC == later.sec * NANOS_PER_SEC - earlier.sec * NANOS_PER_SEC) by (nonlinear_arith)
            requires
                secs == later.sec - earlier.sec,
        ;
    }
    diff
}


/// The kernel clocks that instants are read from.
#[derive(Copy, Clone, Debug, PartialEq, Eq, Structural)]
pub enum ClockSource {
    /// Monotonic, and not slewed by time adjustments.
    MonotonicRaw,
    /// Monotonic.
    Monotonic,
    /// Monotonic, cheap to read, about a millisecond of resolution.
    MonotonicCoarse,
}

/// Relies on `nix::time::clock_gettime`: reads a kernel clock and yields its
/// seconds and nanoseconds, or nothing when the kernel refuses the read.
/// What it yields depends on the machine and the moment: nothing is promised.
#[verifier::external_body]
fn clock_gettime(source: ClockSource) -> (r: Option<(i64, i64)>) {
    let id = match source {
        ClockSource::MonotonicRaw => ClockId::CLOCK_MONOTONIC_RAW,
        ClockSource::Monotonic => ClockId::CLOCK_MONOTONIC,
        ClockSource::MonotonicCoarse => ClockId::CLOCK_MONOTONIC_COARSE,
    };
    nix::time::clock_gettime(id).ok().map(|t| (t.tv_sec() as i64, t.tv_nsec() as i64))
}

/// The point that a clock reading denotes: the reading itself when its
/// nanoseconds lie within a second, and the clock's origin when the clock
/// could not be read or gave a malformed value.
pub open spec fn reading_timespec(reading: Option<(i64, i64)>) -> Timespec {
    match reading {
        Some((sec, nsec)) => if 0 <= nsec < NANOS_PER_SEC {
            Timespec { sec, nsec: nsec as i32 }
        } else {
            Timespec { sec: 0, nsec: 0 }
        },
        None => Timespec { sec: 0, nsec: 0 },
    }
}

/// Turns a clock reading into a point, as `reading_timespec` states.
pub fn timespec_from_reading(reading: Option<(i64, i64)>) -> (r: Timespec)
    ensures
        r == reading_timespec(reading),
        r.wf(),
{
    match reading {
        Some((sec, nsec)) => if 0 <= nsec && nsec < NANOS_PER_SEC as i64 {
            Timespec { sec, nsec: nsec as i32 }
        } else {
            Timespec { sec: 0, nsec: 0 }
        },
        None => Timespec { sec: 0, nsec: 0 },
    }
}

/// Reads a clock. The kernel keeps these clocks monotonic; the value read
/// depends on the moment, so only its well-formedness is promised.
pub fn read_clock(source: ClockSource) -> (r: Timespec)
    ensures
        r.wf(),
{
    timespec_from_reading(clock_gettime(source))
}

/// The monotonic raw time since some unspecified starting point.
pub fn monotonic_raw_now() -> (r: Timespec)
    ensures
        r.wf(),
{
    read_clock(ClockSource::MonotonicRaw)
}

/// The monotonic time since some unspecified starting point.
pub fn monotonic_now() -> (r: Timespec)
    ensures
        r.wf(),
{
    read_clock(ClockSource::Monotonic)
}

/// The coarse monotonic time since some unspecified starting point.
pub fn monotonic_coarse_now() -> (r: Timespec)
    ensures
        r.wf(),
{
    read_clock(ClockSource::MonotonicCoarse)
}

/// A measurement of a monotonically increasing clock, tagged with the clock
/// it was read from.
#[derive(Copy, Clone, Debug, Eq)]
pub enum Instant {
    Monotonic(Timespec),
    MonotonicCoarse(Timespec),
}

impl Instant {
    /// The point on the clock, whatever the tag.
    pub open spec fn timespec(self) -> Timespec {
        match self {
            Instant::Monotonic(t) => t,
            Instant::MonotonicCoarse(t) => t,
        }
    }

    pub open spec fn wf(self) -> bool {
        self.timespec().wf()
    }

    /// The same tag, on another point.
    pub open spec fn with_timespec(self, t: Timespec) -> Instant {
        match self {
            Instant::Monotonic(_) => Instant::Monotonic(t),
            Instant::MonotonicCoarse(_) => Instant::MonotonicCoarse(t),
        }
    }

    pub fn now() -> (r: Instant)
        ensures
            r is Monotonic,
            r.wf(),
    {
        Instant::Monotonic(monotonic_now())
    }

    pub fn now_coarse() -> (r: Instant)
        ensures
            r is MonotonicCoarse,
            r.wf(),
    {
        Instant::MonotonicCoarse(monotonic_coarse_now())
    }

    fn get_timespec(&self) -> (r: Timespec)
        ensures
            r == self.timespec(),
    {
        match *self {
            Instant::Monotonic(t) => t,
            Instant::MonotonicCoarse(t) => t,
        }
    }

    /// The time passed since this instant on its own clock, or nothing where
    /// the clock reads earlier than the instant: a clock that went backwards,
    /// which the caller reports.
    pub fn elapsed(&self) -> (r: Option<Duration>)
        requires
            self.wf(),
        ensures
            exists|now: Timespec| now.wf() && elapsed_outcome(now, self.timespec(), r),
    {
        let t = self.get_timespec();
        let now = match *self {
            Instant::Monotonic(_) => monotonic_now(),
            Instant::MonotonicCoarse(_) => monotonic_coarse_now(),
        };
        checked_since(now, t)
    }

    /// The duration from `earlier` to this instant, whatever their tags.
    pub fn duration_since(&self, earlier: Instant) -> (r: Duration)
        requires
            self.wf(),
            earlier.wf(),
            earlier.timespec().nanos() <= self.timespec().nanos(),
        ensures
            duration_nanos(r) == self.timespec().nanos() - earlier.timespec().nanos(),
    {
        let later = self.get_timespec();
        let earlier = earlier.get_timespec();
        elapsed_duration(later, earlier)
    }
}

/// Whether `r` is the duration from `start` to `now`, or nothing where `now`
/// is earlier than `start`.
pub open spec fn elapsed_outcome(now: Timespec, start: Timespec, r: Option<Duration>) -> bool {
    if start.nanos() <= now.nanos() {
        r is Some && duration_nanos(r->0) == now.nanos() - start.nanos()
    } else {
        r is None
    }
}

/// The duration from `start` to `now`, or nothing if `now` is earlier.
pub fn checked_since(now: Timespec, start: Timespec) -> (r: Option<Duration>)
    requires
        now.wf(),
        start.wf(),
    ensures
        elapsed_outcome(now, start, r),
{
    proof {
        lemma_cmp_timespec_nanos(now, start);
    }
    match start.compare(&now) {
        Ordering::Greater => None,
        _ => Some(elapsed_duration(now, start)),
    }
}

impl PartialEq for Instant {
    fn eq(&self, other: &Instant) -> (r: bool) {
        let a = self.get_timespec();
        let b = other.get_timespec();
        a.sec == b.sec && a.nsec == b.nsec
    }
}

impl vstd::std_specs::cmp::PartialEqSpecImpl for Instant {
    open spec fn obeys_eq_spec() -> bool {
        true
    }

    open spec fn eq_spec(&self, other: &Instant) -> bool {
        self.timespec() == other.timespec()
    }
}

impl PartialOrd for Instant {
    fn partial_cmp(&self, other: &Instant) -> (r: Option<Ordering>) {
        Some(self.get_timespec().compare(&other.get_timespec()))
    }
}

impl vstd::std_specs::cmp::PartialOrdSpecImpl for Instant {
    open spec fn obeys_partial_cmp_spec() -> bool {
        true
    }

    open spec fn partial_cmp_spec(&self, other: &Instant) -> Option<Ordering> {
        Some(cmp_timespec(self.timespec(), other.timespec()))
    }
}


/// A count `n` split as `q` seconds and `r` nanoseconds, with `r` within a
/// second, is the count that `of_nanos` reads back.
proof fn lemma_split_nanos(n: int, q: int, r: int)
    requires
        n == q * NANOS_PER_SEC + r,
        0 <= r < NANOS_PER_SEC,
    ensures
        n / NANOS_PER_SEC as int == q,
        n % NANOS_PER_SEC as int == r,
{
    vstd::arithmetic::div_mod::lemma_fundamental_div_mod_converse(n, NANOS_PER_SEC as int, q, r);
}

impl Timespec {
    /// The point `d` after this one.
    pub fn add_duration(&self, d: Duration) -> (r: Timespec)
        requires
            self.wf(),
            Timespec::in_range(self.nanos() + duration_nanos(d)),
        ensures
            r == Timespec::of_nanos(self.nanos() + duration_nanos(d)),
            r.wf(),
    {
        let ghost n = self.nanos() + duration_nanos(d);
        let mut sec: i128 = self.sec as i128 + d.as_secs() as i128;
        let mut nsec: i64 = self.nsec as i64 + d.subsec_nanos() as i64;
        if nsec >= NANOS_PER_SEC as i64 {
            sec = sec + 1;
            nsec = nsec - NANOS_PER_SEC as i64;
        }
        proof {
            assert(n == sec * NANOS_PER_SEC + nsec) by (nonlinear_arith)
                requires
                    n == self.sec * 1_000_000_000 + self.nsec + duration_secs(d) * 1_000_000_000
                        + duration_subsec_nanos(d),
                    sec * 1_000_000_000 + nsec == (self.sec + duration_secs(d)) * 1_000_000_000
                        + self.nsec + duration_subsec_nanos(d),
            ;
            lemma_split_nanos(n, sec as int, nsec as int);
        }
        Timespec { sec: sec as i64, nsec: nsec as i32 }
    }

    /// The point `d` before this one.
    pub fn sub_duration(&self, d: Duration) -> (r: Timespec)
        requires
            self.wf(),
            Timespec::in_range(self.nanos() - duration_nanos(d)),
        ensures
            r == Timespec::of_nanos(self.nanos() - duration_nanos(d)),
            r.wf(),
    {
        let ghost n = self.nanos() - duration_nanos(d);
        let mut sec: i128 = self.sec as i128 - d.as_secs() as i128;
        let mut nsec: i64 = self.nsec as i64 - d.subsec_nanos() as i64;
        if nsec < 0 {
            sec = sec - 1;
            nsec = nsec + NANOS_PER_SEC as i64;
        }
        proof {
            assert(n == sec * NANOS_PER_SEC + nsec) by (nonlinear_arith)
                requires
                    n == self.sec * 1_000_000_000 + self.nsec - duration_secs(d) * 1_000_000_000
                        - duration_subsec_nanos(d),
                    sec * 1_000_000_000 + nsec == (self.sec - duration_secs(d)) * 1_000_000_000
                        + self.nsec - duration_subsec_nanos(d),
            ;
            lemma_split_nanos(n, sec as int, nsec as int);
        }
        Timespec { sec: sec as i64, nsec: nsec as i32 }
    }
}

impl core::ops::Add<Duration> for Instant {
    type Output = Instant;

    fn add(self, other: Duration) -> (r: Instant) {
        match self {
            Instant::Monotonic(t) => Instant::Monotonic(t.add_duration(other)),
            Instant::MonotonicCoarse(t) => Instant::MonotonicCoarse(t.add_duration(other)),
        }
    }
}

impl vstd::std_specs::ops::AddSpecImpl<Duration> for Instant {
    open spec fn obeys_add_spec() -> bool {
        true
    }

    open spec fn add_req(self, rhs: Duration) -> bool {
        self.wf() && Timespec::in_range(self.timespec().nanos() + duration_nanos(rhs))
    }

    open spec fn add_spec(self, rhs: Duration) -> Instant {
        self.with_timespec(Timespec::of_nanos(self.timespec().nanos() + duration_nanos(rhs)))
    }
}

impl core::ops::Sub<Duration> for Instant {
    type Output = Instant;

    fn sub(self, other: Duration) -> (r: Instant) {
        match self {
            Instant::Monotonic(t) => Instant::Monotonic(t.sub_duration(other)),
            Instant::MonotonicCoarse(t) => Instant::MonotonicCoarse(t.sub_duration(other)),
        }
    }
}

impl vstd::std_specs::ops::SubSpecImpl<Duration> for Instant {
    open spec fn obeys_sub_spec() -> bool {
        true
    }

    open spec fn sub_req(self, rhs: Duration) -> bool {
        self.wf() && Timespec::in_range(self.timespec().nanos() - duration_nanos(rhs))
    }

    open spec fn sub_spec(self, rhs: Duration) -> Instant {
        self.with_timespec(Timespec::of_nanos(self.timespec().nanos() - duration_nanos(rhs)))
    }
}

impl core::ops::Sub<Instant> for Instant {
    type Output = Duration;

    fn sub(self, other: Instant) -> (r: Duration)
        ensures
            duration_nanos(r) == self.timespec().nanos() - other.timespec().nanos(),
    {
        self.duration_since(other)
    }
}

/// Subtracting an instant demands that `rhs` is not later; the duration it
/// gives is stated on `sub` itself.
impl vstd::std_specs::ops::SubSpecImpl<Instant> for Instant {
    open spec fn obeys_sub_spec() -> bool {
        false
    }

    open spec fn sub_req(self, rhs: Instant) -> bool {
        self.wf() && rhs.wf() && rhs.timespec().nanos() <= self.timespec().nanos()
    }

    open spec fn sub_spec(self, rhs: Instant) -> Duration {
        arbitrary()
    }
}


/// Adding a duration to an instant and then measuring from the instant gives
/// back the duration.
pub proof fn law_add_then_since(t: Instant, d: Duration)
    requires
        t.wf(),
        Timespec::in_range(t.timespec().nanos() + duration_nanos(d)),
    ensures
        t.add_spec(d).wf(),
        t.add_spec(d) is Monotonic <==> t is Monotonic,
        t.timespec().nanos() <= t.add_spec(d).timespec().nanos(),
        t.add_spec(d).timespec().nanos() - t.timespec().nanos() == duration_nanos(d),
{
    lemma_nanos_of(t.timespec().nanos() + duration_nanos(d));
}

/// Subtracting a duration from an instant and adding it back gives the
/// instant.
pub proof fn law_sub_then_add(t: Instant, d: Duration)
    requires
        t.wf(),
        Timespec::in_range(t.timespec().nanos() - duration_nanos(d)),
    ensures
        t.sub_spec(d).add_req(d),
        t.sub_spec(d).add_spec(d) == t,
{
    lemma_nanos_of(t.timespec().nanos() - duration_nanos(d));
    lemma_of_nanos(t.timespec());
}

/// Of two well-formed instants where the first does not compare greater,
/// the later may be measured from the earlier, and the duration between
/// them is not negative.
pub proof fn law_ordered_instants(a: Instant, b: Instant)
    requires
        a.wf(),
        b.wf(),
        a.partial_cmp_spec(&b) != Some(Ordering::Greater),
    ensures
        b.sub_req(a),
        b.timespec().nanos() - a.timespec().nanos() >= 0,
{
    lemma_cmp_timespec_nanos(a.timespec(), b.timespec());
}

/// Whether duration `a` is at least as long as duration `b`.
pub fn duration_at_least(a: &Duration, b: &Duration) -> (r: bool)
    ensures
        r == (duration_nanos(*a) >= duration_nanos(*b)),
{
    let (sa, sb) = (a.as_secs(), b.as_secs());
    let (na, nb) = (a.subsec_nanos(), b.subsec_nanos());
    proof {
        let (x, y) = (sa as int, sb as int);
        if x < y {
            assert(x * NANOS_PER_SEC + NANOS_PER_SEC <= y * NANOS_PER_SEC) by (nonlinear_arith)
                requires
                    x < y,
            ;
        } else if x > y {
            assert(y * NANOS_PER_SEC + NANOS_PER_SEC <= x * NANOS_PER_SEC) by (nonlinear_arith)
                requires
                    y < x,
            ;
        }
    }
    sa > sb || (sa == sb && na >= nb)
}

pub const DEFAULT_SLOW_SECS: u64 = 1;

/// A timer started on the coarse clock, slow once a threshold has elapsed.
pub struct SlowTimer {
    slow_time: Duration,
    t: Instant,
}

impl SlowTimer {
    /// The threshold past which the timer is slow.
    pub closed spec fn threshold(&self) -> Duration {
        self.slow_time
    }

    /// The instant the timer was started at.
    pub closed spec fn start(&self) -> Instant {
        self.t
    }

    pub open spec fn wf(&self) -> bool {
        self.start().wf() && self.start() is MonotonicCoarse
    }

    /// A timer with a threshold of one second.
    pub fn new() -> (r: SlowTimer)
        ensures
            r.wf(),
            duration_nanos(r.threshold()) == DEFAULT_SLOW_SECS * NANOS_PER_SEC,
    {
        SlowTimer::from_secs(DEFAULT_SLOW_SECS)
    }

    /// A timer with the given threshold, started now.
    pub fn from(slow_time: Duration) -> (r: SlowTimer)
        ensures
            r.wf(),
            r.threshold() == slow_time,
    {
        SlowTimer { slow_time: slow_time, t: Instant::now_coarse() }
    }

    pub fn from_secs(secs: u64) -> (r: SlowTimer)
        ensures
            r.wf(),
            duration_nanos(r.threshold()) == secs * NANOS_PER_SEC,
    {
        SlowTimer::from(Duration::from_secs(secs))
    }

    pub fn from_millis(millis: u64) -> (r: SlowTimer)
        ensures
            r.wf(),
            duration_nanos(r.threshold()) == millis * NANOS_PER_MILLI,
    {
        let d = Duration::from_millis(millis);
        proof {
            let m = millis as int;
            assert((m / 1000) * 1_000_000_000 + (m % 1000) * 1_000_000 == m * 1_000_000) by (nonlinear_arith)
                requires
                    m >= 0,
            {
                vstd::arithmetic::div_mod::lemma_fundamental_div_mod(m, 1000);
            }
        }
        SlowTimer::from(d)
    }

    /// The time passed since the timer was started, or nothing where the
    /// clock went backwards.
    pub fn elapsed(&self) -> (r: Option<Duration>)
        requires
            self.wf(),
        ensures
            exists|now: Timespec| now.wf() && elapsed_outcome(now, self.start().timespec(), r),
    {
        self.t.elapsed()
    }

    /// Whether the time passed since the start has reached the threshold, or
    /// nothing where the clock went backwards.
    pub fn is_slow(&self) -> (r: Option<bool>)
        requires
            self.wf(),
        ensures
            exists|now: Timespec|
                now.wf() && if self.start().timespec().nanos() <= now.nanos() {
                    r == Some(now.nanos() - self.start().timespec().nanos() >= duration_nanos(self.threshold()))
                } else {
                    r is None
                },
    {
        match self.elapsed() {
            Some(e) => Some(duration_at_least(&e, &self.slow_time)),
            None => None,
        }
    }
}

impl Default for SlowTimer {
    fn default() -> (r: SlowTimer)
        ensures
            r.wf(),
            duration_nanos(r.threshold()) == DEFAULT_SLOW_SECS * NANOS_PER_SEC,
    {
        SlowTimer::from_secs(DEFAULT_SLOW_SECS)
    }
}

/// Whether the wall clock moved backwards between two samples taken in that
/// order.
pub fn jumped_back(before: Timespec, after: Timespec) -> (r: bool)
    requires
        before.wf(),
        after.wf(),
    ensures
        r == (after.nanos() < before.nanos()),
{
    proof {
        lemma_cmp_timespec_nanos(after, before);
    }
    match after.compare(&before) {
        Ordering::Less => true,
        _ => false,
    }
}


/// A second sample that lies a positive duration before the first is a jump
/// backwards; one at or after it is not.
pub proof fn law_backward_sample_is_a_jump(t: Timespec, d: Duration)
    requires
        t.wf(),
        Timespec::in_range(t.nanos() - duration_nanos(d)),
    ensures
        Timespec::of_nanos(t.nanos() - duration_nanos(d)).wf(),
        (Timespec::of_nanos(t.nanos() - duration_nanos(d)).nanos() < t.nanos()) <==> duration_nanos(d) > 0,
{
    lemma_nanos_of(t.nanos() - duration_nanos(d));
}

} // verus!

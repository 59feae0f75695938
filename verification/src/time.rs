//! Points in time, spans of time and how they are printed.

use vstd::prelude::*;

verus! {

/// Nanoseconds in one second.
pub const NANOS_PER_SEC: u32 = 1_000_000_000;

/// Seconds in one day.
pub const SECS_PER_DAY: u64 = 86_400;

/// Seconds since the Unix epoch of the earliest calendar second, the start of the year -262143.
pub const MIN_SECS: i64 = -8_334_601_228_800;

/// Seconds since the Unix epoch of the latest calendar second, the end of the year 262142.
pub const MAX_SECS: i64 = 8_210_266_876_799;

/// The earliest point in time, in nanoseconds since the Unix epoch.
pub open spec fn min_time() -> int {
    MIN_SECS * NANOS_PER_SEC
}

/// The latest point in time, in nanoseconds since the Unix epoch.
pub open spec fn max_time() -> int {
    MAX_SECS * NANOS_PER_SEC + (NANOS_PER_SEC - 1)
}

/// The longest span of time, in nanoseconds.
pub open spec fn max_span() -> int {
    u64::MAX * NANOS_PER_SEC + (NANOS_PER_SEC - 1)
}

/// A span of time. Its view is its length in nanoseconds.
#[derive(Debug, Clone, Copy, PartialEq, Eq, Structural)]
pub struct Duration {
    secs: u64,
    nanos: u32,
}

impl View for Duration {
    type V = int;

    closed spec fn view(&self) -> int {
        self.secs * NANOS_PER_SEC + self.nanos
    }
}

impl Duration {
    #[verifier::type_invariant]
    spec fn inv(self) -> bool {
        self.nanos < NANOS_PER_SEC
    }

    /// A span of whole seconds and the given number of nanoseconds on top of them, if the
    /// nanoseconds are less than one second.
    pub fn new(secs: u64, nanos: u32) -> (res: Option<Duration>)
        ensures
            res is Some <==> nanos < NANOS_PER_SEC,
            res matches Some(d) ==> d@ == secs * NANOS_PER_SEC + nanos,
    {
        if nanos < NANOS_PER_SEC {
            Some(Duration { secs, nanos })
        } else {
            None
        }
    }

    /// A span of whole seconds.
    pub fn from_secs(secs: u64) -> (res: Duration)
        ensures
            res@ == secs * NANOS_PER_SEC,
    {
        Duration { secs, nanos: 0 }
    }

    /// The whole seconds of the span.
    pub fn as_secs(&self) -> (res: u64)
        ensures
            res == self@ / (NANOS_PER_SEC as int),
            0 <= self@ <= max_span(),
    {
        proof {
            use_type_invariant(self);
        }
        self.secs
    }

    /// The nanoseconds beyond the whole seconds.
    pub fn subsec_nanos(&self) -> (res: u32)
        ensures
            res == self@ % (NANOS_PER_SEC as int),
            res < NANOS_PER_SEC,
    {
        proof {
            use_type_invariant(self);
        }
        self.nanos
    }

    /// Whether the span has no length.
    pub fn is_zero(&self) -> (res: bool)
        ensures
            res == (self@ == 0),
            0 <= self@ <= max_span(),
    {
        proof {
            use_type_invariant(self);
        }
        self.secs == 0 && self.nanos == 0
    }

    /// Whether this span is at least as long as the other one.
    pub fn at_least(&self, other: Duration) -> (res: bool)
        ensures
            res == (self@ >= other@),
    {
        proof {
            use_type_invariant(self);
            use_type_invariant(&other);
        }
        self.secs > other.secs || (self.secs == other.secs && self.nanos >= other.nanos)
    }

    /// The span that is left when the other one is taken away, or no time at all if the other
    /// one is longer.
    pub fn saturating_sub(&self, other: Duration) -> (res: Duration)
        ensures
            res@ == if self@ >= other@ {
                self@ - other@
            } else {
                0
            },
    {
        proof {
            use_type_invariant(self);
            use_type_invariant(&other);
        }
        if !self.at_least(other) {
            Duration { secs: 0, nanos: 0 }
        } else if self.nanos >= other.nanos {
            Duration { secs: self.secs - other.secs, nanos: self.nanos - other.nanos }
        } else {
            Duration {
                secs: self.secs - other.secs - 1,
                nanos: NANOS_PER_SEC - other.nanos + self.nanos,
            }
        }
    }

    /// One tenth of the span, rounded down to whole nanoseconds.
    pub fn tenth(&self) -> (res: Duration)
        ensures
            res@ == self@ / 10,
            0 <= res@ <= self@,
    {
        proof {
            use_type_invariant(self);
        }
        let rest: u64 = self.secs % 10;
        let carry: u64 = rest * 1_000_000_000 + self.nanos as u64;
        Duration { secs: self.secs / 10, nanos: (carry / 10) as u32 }
    }

    /// The span without the part below one second.
    pub fn truncated(&self) -> (res: Duration)
        ensures
            res@ == whole_seconds(self@),
    {
        proof {
            use_type_invariant(self);
        }
        Duration { secs: self.secs, nanos: 0 }
    }
}

/// The given number of nanoseconds, rounded down to whole seconds.
pub open spec fn whole_seconds(nanos: int) -> int {
    nanos / (NANOS_PER_SEC as int) * NANOS_PER_SEC
}

/// A point in time. Its view is the number of nanoseconds since the Unix epoch, leap seconds not
/// counted. A leap second itself has no representation: neither the system clock nor the
/// database ever yields one.
#[derive(Debug, Clone, Copy, PartialEq, Eq, Structural)]
pub struct Timestamp {
    secs: i64,
    nanos: u32,
}

impl View for Timestamp {
    type V = int;

    closed spec fn view(&self) -> int {
        self.secs * NANOS_PER_SEC + self.nanos
    }
}

impl Timestamp {
    #[verifier::type_invariant]
    spec fn inv(self) -> bool {
        MIN_SECS <= self.secs <= MAX_SECS && self.nanos < NANOS_PER_SEC
    }

    /// The point in time the given number of seconds and nanoseconds after the Unix epoch, if
    /// the calendar reaches that far.
    pub fn new(secs: i64, nanos: u32) -> (res: Option<Timestamp>)
        ensures
            res is Some <==> MIN_SECS <= secs <= MAX_SECS && nanos < NANOS_PER_SEC,
            res matches Some(t) ==> t@ == secs * NANOS_PER_SEC + nanos,
    {
        if MIN_SECS <= secs && secs <= MAX_SECS && nanos < NANOS_PER_SEC {
            Some(Timestamp { secs, nanos })
        } else {
            None
        }
    }

    /// The whole seconds since the Unix epoch.
    pub fn secs(&self) -> (res: i64)
        ensures
            res == self@ / (NANOS_PER_SEC as int),
            min_time() <= self@ <= max_time(),
    {
        proof {
            use_type_invariant(self);
        }
        self.secs
    }

    /// The nanoseconds since the last whole second.
    pub fn subsec_nanos(&self) -> (res: u32)
        ensures
            res == self@ % (NANOS_PER_SEC as int),
            res < NANOS_PER_SEC,
    {
        proof {
            use_type_invariant(self);
        }
        self.nanos
    }

    /// Whether this point in time comes before the other one.
    pub fn is_before(&self, other: Timestamp) -> (res: bool)
        ensures
            res == (self@ < other@),
    {
        proof {
            use_type_invariant(self);
            use_type_invariant(&other);
        }
        self.secs < other.secs || (self.secs == other.secs && self.nanos < other.nanos)
    }

    /// The earlier of two points in time.
    pub fn min(self, other: Timestamp) -> (res: Timestamp)
        ensures
            res@ == earlier(self@, other@),
    {
        if other.is_before(self) {
            other
        } else {
            self
        }
    }

    /// Whether the calendar still covers the point in time the given span later.
    pub fn can_add(&self, span: Duration) -> (res: bool)
        ensures
            res == (self@ + span@ <= max_time()),
            0 <= span@ <= max_span(),
    {
        proof {
            use_type_invariant(self);
            use_type_invariant(&span);
        }
        let secs: i128 = self.secs as i128 + span.secs as i128;
        let nanos: u32 = self.nanos + span.nanos;
        let carry: i128 = if nanos >= NANOS_PER_SEC {
            1
        } else {
            0
        };
        secs + carry <= MAX_SECS as i128
    }

    /// The point in time the given span later.
    pub fn plus(self, span: Duration) -> (res: Timestamp)
        requires
            self@ + span@ <= max_time(),
        ensures
            res@ == self@ + span@,
    {
        utc_plus(self, span)
    }

    /// The span from the given point in time to this one, if it does not lie in the future.
    pub fn since(self, start: Timestamp) -> (res: Option<Duration>)
        ensures
            res is Some <==> start@ <= self@,
            res matches Some(d) ==> d@ == self@ - start@,
    {
        utc_since(self, start)
    }

    /// Date, time of day and offset, as in `2025-01-31 12:00:00 +00:00`.
    pub fn format(self) -> (res: String)
        ensures
            res@ == utc_text(self@),
    {
        utc_format(UTC_PATTERN, self)
    }

    /// The notation of RFC 3339.
    pub fn to_rfc3339(self) -> (res: String)
        ensures
            res@ == rfc3339_text(self@),
    {
        utc_to_rfc3339(self)
    }
}

/// The earlier of two points in time.
pub open spec fn earlier(a: int, b: int) -> int {
    if b < a {
        b
    } else {
        a
    }
}

/// The view of a point in time that may be missing.
pub open spec fn view_opt(t: Option<Timestamp>) -> Option<int> {
    match t {
        Some(t) => Some(t@),
        None => None,
    }
}

/// A reading of a clock that never runs backwards. Its view is the number of nanoseconds since
/// the origin of that clock.
#[derive(Debug, Clone, Copy, PartialEq, Eq, Structural)]
pub struct Instant {
    since_origin: Duration,
}

impl View for Instant {
    type V = int;

    closed spec fn view(&self) -> int {
        self.since_origin@
    }
}

impl Instant {
    /// The reading the given span after the clock's origin.
    pub fn new(since_origin: Duration) -> (res: Instant)
        ensures
            res@ == since_origin@,
    {
        Instant { since_origin }
    }

    /// Whether this reading was taken before the other one.
    pub fn is_before(&self, other: Instant) -> (res: bool)
        ensures
            res == (self@ < other@),
    {
        !self.since_origin.at_least(other.since_origin)
    }

    /// The span from the given reading to this one, or no time at all if the given one is later.
    pub fn duration_since(&self, start: Instant) -> (res: Duration)
        ensures
            res@ == span_between(start@, self@),
    {
        self.since_origin.saturating_sub(start.since_origin)
    }
}

/// The nanoseconds from one clock reading to another, or 0 if the first one is later.
pub open spec fn span_between(start: int, end: int) -> int {
    if start <= end {
        end - start
    } else {
        0
    }
}

/// Adds a span to a point in time with chrono's `DateTime<Utc> + std::time::Duration`.
///
/// Not proved: the sum is exact to the nanosecond. The operator panics where the sum lies
/// beyond the calendar, which the precondition rules out; the span is then short enough for
/// chrono's own type of signed spans, too.
#[verifier::external_body]
fn utc_plus(t: Timestamp, span: Duration) -> (res: Timestamp)
    requires
        t@ + span@ <= max_time(),
    ensures
        res@ == t@ + span@,
{
    let start = chrono::DateTime::<chrono::Utc>::from_timestamp(t.secs, t.nanos).unwrap();
    let sum = start + std::time::Duration::new(span.secs, span.nanos);
    Timestamp { secs: sum.timestamp(), nanos: sum.timestamp_subsec_nanos() }
}

/// The difference of two points in time by chrono's `DateTime<Utc> - DateTime<Utc>` and
/// `TimeDelta::to_std`.
///
/// Not proved: the difference is exact to the nanosecond, and the conversion fails if and only
/// if the difference is negative.
#[verifier::external_body]
fn utc_since(end: Timestamp, start: Timestamp) -> (res: Option<Duration>)
    ensures
        res is Some <==> start@ <= end@,
        res matches Some(d) ==> d@ == end@ - start@,
{
    let from = chrono::DateTime::<chrono::Utc>::from_timestamp(start.secs, start.nanos).unwrap();
    let to = chrono::DateTime::<chrono::Utc>::from_timestamp(end.secs, end.nanos).unwrap();
    match (to - from).to_std() {
        Ok(d) => Some(Duration { secs: d.as_secs(), nanos: d.subsec_nanos() }),
        Err(_) => None,
    }
}

/// How points in time are printed: date, time of day and offset.
pub const UTC_PATTERN: &'static str = "%F %T %:z";

/// What chrono's `DateTime::<Utc>::format` prints under the given pattern for the point in time
/// the given number of nanoseconds after the Unix epoch.
pub uninterp spec fn utc_format_text(pattern: Seq<char>, t: int) -> Seq<char>;

/// Date, time of day and offset of the point in time the given number of nanoseconds after the
/// Unix epoch.
pub open spec fn utc_text(t: int) -> Seq<char> {
    utc_format_text(UTC_PATTERN@, t)
}

/// Prints a point in time with chrono's `DateTime::<Utc>::format`.
///
/// Not proved: the text depends on the pattern and the point in time alone. Under a pattern that
/// is not well formed the call panics, so it is made with one pattern only.
#[verifier::external_body]
fn utc_format(pattern: &str, t: Timestamp) -> (res: String)
    requires
        pattern@ == UTC_PATTERN@,
    ensures
        res@ == utc_format_text(pattern@, t@),
{
    let utc = chrono::DateTime::<chrono::Utc>::from_timestamp(t.secs, t.nanos).unwrap();
    utc.format(pattern).to_string()
}

/// What chrono's `DateTime::<Utc>::to_rfc3339` prints for the point in time the given number of
/// nanoseconds after the Unix epoch.
pub uninterp spec fn rfc3339_text(t: int) -> Seq<char>;

/// Prints a point in time with chrono's `DateTime::<Utc>::to_rfc3339`.
///
/// Not proved: the text depends on the point in time alone.
#[verifier::external_body]
fn utc_to_rfc3339(t: Timestamp) -> (res: String)
    ensures
        res@ == rfc3339_text(t@),
{
    let utc = chrono::DateTime::<chrono::Utc>::from_timestamp(t.secs, t.nanos).unwrap();
    utc.to_rfc3339()
}

/// What humantime's `Duration` prints for a span of the given number of nanoseconds.
pub uninterp spec fn humantime_text(nanos: int) -> Seq<char>;

/// Prints a span with the `Display` of humantime's `Duration`, as in `1h 30m`.
///
/// Not proved: the text depends on the length of the span alone.
#[verifier::external_body]
pub(crate) fn format_duration(span: Duration) -> (res: String)
    ensures
        res@ == humantime_text(span@),
{
    humantime::Duration::from(std::time::Duration::new(span.secs, span.nanos)).to_string()
}

/// The calendar reaches from the year -262143 to the year 262142.
pub proof fn law_bounds_of_the_calendar()
    ensures
        min_time() == -8_334_601_228_800_000_000_000,
        max_time() == 8_210_266_876_799_999_999_999,
        max_span() == 18_446_744_073_709_551_615_999_999_999,
{
}

/// Of two points in time, the earlier one is one of them and comes no later than the other.
pub proof fn law_earlier_is_a_minimum(a: int, b: int)
    ensures
        earlier(a, b) <= a,
        earlier(a, b) <= b,
        earlier(a, b) == a || earlier(a, b) == b,
{
}

/// Whole seconds leave out less than a second.
pub proof fn law_whole_seconds_round_down(nanos: int)
    ensures
        whole_seconds(nanos) <= nanos < whole_seconds(nanos) + 1_000_000_000,
        whole_seconds(nanos) % 1_000_000_000 == 0,
{
}

/// The span between two clock readings leads from the first to the second, if that is later.
pub proof fn law_span_leads_to_the_end(start: int, end: int)
    ensures
        start <= end ==> start + span_between(start, end) == end,
        end <= start ==> span_between(start, end) == 0,
{
}

/// A point in time that may be missing is shown as itself.
pub proof fn law_view_of_a_missing_time(t: Timestamp)
    ensures
        view_opt(Some(t)) == Some(t@),
        view_opt(None) is None,
{
}

/// Any point in time is printed under the same pattern.
pub proof fn law_one_pattern_for_all_times(t: int)
    ensures
        utc_text(t) == utc_format_text("%F %T %:z"@, t),
{
}

} // verus!

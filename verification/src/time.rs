//! Wall-clock instants as plain integers, and the clock that yields them.

use vstd::prelude::*;

verus! {

/// Seconds since the Unix epoch of the earliest instant a `chrono` UTC
/// date-time can hold (1 January of the year -262143, at midnight).
pub const MIN_SECS: i64 = -8_334_601_228_800;

/// Seconds since the Unix epoch of the last second a `chrono` UTC date-time
/// can hold (31 December of the year 262142, 23:59:59).
pub const MAX_SECS: i64 = 8_210_266_876_799;

/// Number of nanoseconds in one second.
pub const NANOS_PER_SEC: u32 = 1_000_000_000;

/// A UTC instant: whole seconds since the Unix epoch and the nanoseconds
/// within that second.
#[derive(Clone, Copy, Debug, PartialEq, Eq, Structural)]
pub struct Timestamp {
    pub secs: i64,
    pub nanos: u32,
}

/// The text that `chrono` writes for the instant `secs` seconds and `nanos`
/// nanoseconds after the epoch, in RFC 3339 form with six fractional digits
/// and a numeric offset.
pub uninterp spec fn rfc3339_micros_text(secs: int, nanos: int) -> Seq<char>;

/// Calls `chrono::DateTime::<Utc>::MIN_UTC` and takes it apart: the earliest
/// date-time lies `MIN_SECS` seconds from the epoch, at the start of its
/// second.
#[verifier::external_body]
fn chrono_min_utc() -> (t: Timestamp)
    ensures
        t.secs == MIN_SECS,
        t.nanos == 0,
{
    let min = chrono::DateTime::<chrono::Utc>::MIN_UTC;
    Timestamp { secs: min.timestamp(), nanos: min.timestamp_subsec_nanos() }
}

/// Calls `chrono::Utc::now` and takes the reading apart. Whatever the clock
/// says, the reading is a date-time that `chrono` can hold and never a leap
/// second, so it is well formed. (`chrono` itself stops the program if the
/// system clock stands before the Unix epoch.)
#[verifier::external_body]
fn chrono_utc_now() -> (t: Timestamp)
    ensures
        t.wf(),
{
    let now = chrono::Utc::now();
    Timestamp { secs: now.timestamp(), nanos: now.timestamp_subsec_nanos() }
}

/// Calls `chrono::DateTime::to_rfc3339_opts` with `SecondsFormat::Micros` and
/// a numeric offset on the date-time built by `DateTime::from_timestamp`. The
/// text depends on the instant alone; a well-formed instant is always in
/// `from_timestamp`'s range.
#[verifier::external_body]
fn chrono_rfc3339_micros(t: Timestamp) -> (text: String)
    requires
        t.wf(),
    ensures
        text@ == rfc3339_micros_text(t.secs as int, t.nanos as int),
{
    let instant = chrono::DateTime::from_timestamp(t.secs, t.nanos).expect("instant in range");
    instant.to_rfc3339_opts(chrono::SecondsFormat::Micros, false)
}

/// `std::time::Instant`: a reading of the monotonic clock.
#[verifier::external_type_specification]
#[verifier::external_body]
pub struct ExInstant(std::time::Instant);

/// Calls `std::time::Instant::now`. Nothing is known of the reading.
#[verifier::external_body]
fn instant_now() -> (reading: std::time::Instant) {
    std::time::Instant::now()
}

/// Calls `std::time::Instant::elapsed` and turns the time that has passed
/// into nanoseconds. Nothing is known of their number.
#[verifier::external_body]
fn instant_elapsed_nanos(start: &std::time::Instant) -> (nanos: u128) {
    start.elapsed().as_nanos()
}

/// Measures the time that has passed since it was started, on the monotonic
/// clock.
#[derive(Debug, Clone, Copy)]
pub(crate) struct Stopwatch {
    started: std::time::Instant,
}

impl Stopwatch {
    /// Starts a stopwatch now.
    pub(crate) fn start() -> (watch: Stopwatch) {
        Stopwatch { started: instant_now() }
    }

    /// Nanoseconds since the start.
    pub(crate) fn elapsed_nanos(&self) -> (nanos: u128) {
        instant_elapsed_nanos(&self.started)
    }
}

impl Timestamp {
    /// The instant is one that a `chrono` UTC date-time can hold, and its
    /// sub-second part is a proper fraction of a second.
    pub open spec fn wf(self) -> bool {
        &&& MIN_SECS <= self.secs <= MAX_SECS
        &&& self.nanos < NANOS_PER_SEC
    }

    /// The instant as a count of nanoseconds since the epoch.
    pub open spec fn total_nanos(self) -> int {
        self.secs * 1_000_000_000 + self.nanos
    }

    /// The RFC 3339 text of the instant, to the microsecond.
    pub open spec fn rfc3339_micros(self) -> Seq<char> {
        rfc3339_micros_text(self.secs as int, self.nanos as int)
    }

    /// The instant made of `secs` and `nanos`, if it is well formed.
    pub fn new(secs: i64, nanos: u32) -> (r: Option<Timestamp>)
        ensures
            r == (if (Timestamp { secs, nanos }).wf() {
                Some(Timestamp { secs, nanos })
            } else {
                None
            }),
    {
        if MIN_SECS <= secs && secs <= MAX_SECS && nanos < NANOS_PER_SEC {
            Some(Timestamp { secs, nanos })
        } else {
            None
        }
    }

    /// Whether the instant is well formed.
    pub fn is_valid(&self) -> (b: bool)
        ensures
            b == self.wf(),
    {
        MIN_SECS <= self.secs && self.secs <= MAX_SECS && self.nanos < NANOS_PER_SEC
    }

    /// The earliest instant: what an absent renew time counts as.
    pub fn earliest() -> (t: Timestamp)
        ensures
            t == (Timestamp { secs: MIN_SECS, nanos: 0 }),
            t.wf(),
    {
        chrono_min_utc()
    }

    /// The present instant on this machine's clock. Two readings need not
    /// agree, nor follow each other in order.
    pub fn now() -> (t: Timestamp)
        ensures
            t.wf(),
    {
        chrono_utc_now()
    }

    /// The instant as RFC 3339 text with microsecond precision, as a lease
    /// record carries it.
    pub fn to_rfc3339_micros(&self) -> (text: String)
        requires
            self.wf(),
        ensures
            text@ == self.rfc3339_micros(),
    {
        chrono_rfc3339_micros(*self)
    }

    /// Whether this instant is `other` or comes before it.
    pub fn at_or_before(&self, other: &Timestamp) -> (b: bool)
        ensures
            b == (self.total_nanos() <= other.total_nanos()),
    {
        let a: i128 = self.secs as i128 * 1_000_000_000 + self.nanos as i128;
        let b: i128 = other.secs as i128 * 1_000_000_000 + other.nanos as i128;
        a <= b
    }
}

} // verus!

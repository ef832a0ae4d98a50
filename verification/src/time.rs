//! Instants of time as plain numbers, and their RFC 3339 text as the
//! `chrono` crate writes and reads it.

use vstd::prelude::*;

verus! {

/// An instant of UTC: whole seconds since 1970-01-01T00:00:00Z, and the
/// nanoseconds that follow them.
#[derive(Clone, Copy, Debug, PartialEq, Eq, Structural)]
pub struct Timestamp {
    pub secs: i64,
    pub nanos: u32,
}

/// The number of nanoseconds in a second.
pub const NANOS_PER_SEC: u32 = 1_000_000_000;

/// The number of seconds for which freshly built claims are valid.
pub const VALIDITY_SECS: i64 = 3600;

impl Timestamp {
    /// Whether `self` is strictly later than `other`.
    pub open spec fn is_after(self, other: Timestamp) -> bool {
        self.secs > other.secs || (self.secs == other.secs && self.nanos > other.nanos)
    }

    /// Whether `self` is strictly later than `other`.
    pub fn later_than(&self, other: &Timestamp) -> (r: bool)
        ensures
            r == self.is_after(*other),
    {
        self.secs > other.secs || (self.secs == other.secs && self.nanos > other.nanos)
    }
}

/// The text that `chrono` writes for an instant with
/// `DateTime::to_rfc3339_opts(SecondsFormat::Secs, true)`, or `None` where
/// `DateTime::from_timestamp` has no date for it.
pub uninterp spec fn rfc3339_text(instant: Timestamp) -> Option<Seq<char>>;

/// The instant that `chrono` reads from a text as a `DateTime<Utc>`, or
/// `None` where it reports an error.
pub uninterp spec fn rfc3339_instant(text: Seq<char>) -> Option<Timestamp>;

/// What holds of every reading of the clock: it is an ordinary second, and
/// it has a text.
pub open spec fn is_clock_reading(now: Timestamp) -> bool {
    now.nanos < NANOS_PER_SEC && rfc3339_text(now) is Some
}

/// Calls `Utc::now` of `chrono` and takes the instant apart with
/// `DateTime::timestamp` and `DateTime::timestamp_subsec_nanos`. The clock
/// decides the result; the contract says what holds of every reading: it
/// is an ordinary second, not a leap second, and it has a text, since
/// `Utc::now` makes its value with the `DateTime::from_timestamp` that
/// stands behind `rfc3339_text`. `Utc::now` itself gives up where the
/// system's clock stands before 1970.
#[verifier::external_body]
pub(crate) fn current_time() -> (now: Timestamp)
    ensures
        now.nanos < NANOS_PER_SEC,
        rfc3339_text(now) is Some,
{
    let now = chrono::Utc::now();
    Timestamp { secs: now.timestamp(), nanos: now.timestamp_subsec_nanos() }
}

/// Calls `DateTime::from_timestamp` of `chrono` and, where that gives a
/// date, `DateTime::to_rfc3339_opts` for whole seconds and the `Z`
/// designator. The contract names the text, and claims that `chrono` reads
/// the text of an ordinary second back as the start of that second.
#[verifier::external_body]
pub(crate) fn format_rfc3339(instant: Timestamp) -> (text: Option<String>)
    ensures
        text is Some <==> rfc3339_text(instant) is Some,
        text is Some ==> rfc3339_text(instant) == Some(text.unwrap()@),
        text is Some && instant.nanos < NANOS_PER_SEC ==> rfc3339_instant(text.unwrap()@) == Some(
            (Timestamp { secs: instant.secs, nanos: 0 }),
        ),
{
    match chrono::DateTime::from_timestamp(instant.secs, instant.nanos) {
        Some(date) => Some(date.to_rfc3339_opts(chrono::SecondsFormat::Secs, true)),
        None => None,
    }
}

/// Calls `str::parse` for `chrono`'s `DateTime<Utc>` and takes the instant
/// apart with `DateTime::timestamp` and `DateTime::timestamp_subsec_nanos`;
/// gives `None` where the text is refused. The contract names the result.
#[verifier::external_body]
pub(crate) fn parse_rfc3339(text: &str) -> (instant: Option<Timestamp>)
    ensures
        instant == rfc3339_instant(text@),
{
    match text.parse::<chrono::DateTime<chrono::Utc>>() {
        Ok(date) => Some(
            Timestamp { secs: date.timestamp(), nanos: date.timestamp_subsec_nanos() },
        ),
        Err(_) => None,
    }
}

} // verus!

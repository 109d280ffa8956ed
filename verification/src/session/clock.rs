//! Points in time.

use std::fmt::Write;
use vstd::prelude::*;

verus! {

/// A point in time: whole seconds since 1970-01-01 00:00:00 UTC, and the nanoseconds since
/// the last full second.
#[derive(Clone, Copy, Debug, PartialEq, Eq, Structural)]
pub struct Timestamp {
    pub secs: i64,
    pub nanos: u32,
}

impl Timestamp {
    /// The nanoseconds between 1970-01-01 00:00:00 UTC and this point in time.
    pub open spec fn since_epoch(self) -> int {
        self.secs * 1_000_000_000 + self.nanos
    }

    /// Whether this point in time is `other` or comes after it.
    pub open spec fn not_before(self, other: Timestamp) -> bool {
        self.since_epoch() >= other.since_epoch()
    }

    /// Whether the nanoseconds stay below one second, as they do outside a leap second.
    pub open spec fn regular(self) -> bool {
        self.nanos < 1_000_000_000
    }

    /// The start of the epoch.
    pub fn epoch() -> (start: Timestamp)
        ensures
            start == (Timestamp { secs: 0, nanos: 0 }),
    {
        Timestamp { secs: 0, nanos: 0 }
    }

    /// Whether this point in time is `other` or comes after it.
    pub fn is_not_before(&self, other: &Timestamp) -> (later: bool)
        ensures
            later == self.not_before(*other),
    {
        let mine: i128 = self.secs as i128 * 1_000_000_000 + self.nanos as i128;
        let theirs: i128 = other.secs as i128 * 1_000_000_000 + other.nanos as i128;
        mine >= theirs
    }
}

/// Reads the clock: `chrono::Utc::now`, taken apart by `DateTime::timestamp` and
/// `DateTime::timestamp_subsec_nanos`.
///
/// Believed, not proved: the time read does not lie before 1970 and is no leap second.
/// `Utc::now` builds its result from the duration since the epoch that the system clock
/// reports, and panics where the clock stands before the epoch. Nothing is claimed about
/// which time it is, nor that a later call gives a later time.
#[verifier::external_body]
pub(crate) fn now() -> (time: Timestamp)
    ensures
        time.secs >= 0,
        time.regular(),
{
    let time = chrono::Utc::now();
    Timestamp { secs: time.timestamp(), nanos: time.timestamp_subsec_nanos() }
}

/// The text that `chrono` makes of a point in time under a `strftime` layout: `None` where
/// `chrono` cannot represent the point in time or rejects the layout.
pub uninterp spec fn formatted_time(secs: int, nanos: int, layout: Seq<char>) -> Option<Seq<char>>;

/// The RFC 3339 text that `chrono` makes of a point in time: `None` where `chrono` cannot
/// represent the point in time.
pub uninterp spec fn rfc3339_text(secs: int, nanos: int) -> Option<Seq<char>>;

/// Writes `time` in UTC under a `strftime` layout: `chrono::DateTime::format`, on the value
/// that `DateTime::from_timestamp` makes of `time`.
///
/// Believed, not proved: the text depends on the point in time and the layout alone.
#[verifier::external_body]
pub(crate) fn format_time(time: Timestamp, layout: &str) -> (text: Option<String>)
    ensures
        match text {
            Some(text) => formatted_time(time.secs as int, time.nanos as int, layout@) == Some(
                text@,
            ),
            None => formatted_time(time.secs as int, time.nanos as int, layout@) is None,
        },
{
    let moment = chrono::DateTime::from_timestamp(time.secs, time.nanos)?;
    let mut text = String::new();
    match write!(text, "{}", moment.format(layout)) {
        Ok(()) => Some(text),
        Err(_) => None,
    }
}

/// Writes `time` in UTC as RFC 3339 asks: `chrono::DateTime::to_rfc3339`, on the value that
/// `DateTime::from_timestamp` makes of `time`.
///
/// Believed, not proved: the text depends on the point in time alone.
#[verifier::external_body]
pub(crate) fn rfc3339(time: Timestamp) -> (text: Option<String>)
    ensures
        match text {
            Some(text) => rfc3339_text(time.secs as int, time.nanos as int) == Some(text@),
            None => rfc3339_text(time.secs as int, time.nanos as int) is None,
        },
{
    match chrono::DateTime::from_timestamp(time.secs, time.nanos) {
        Some(moment) => Some(moment.to_rfc3339()),
        None => None,
    }
}

} // verus!

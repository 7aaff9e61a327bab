//! A point in time as the local clock showed it.

use vstd::prelude::*;

verus! {

/// A point in time together with the offset of the local clock from UTC at
/// that time: what a `chrono::DateTime<chrono::Local>` holds, as numbers.
#[derive(Clone, Copy, Debug, PartialEq, Eq, Structural)]
pub struct Timestamp {
    /// Seconds since 1970-01-01 00:00:00 UTC, not counting leap seconds.
    pub secs: i64,
    /// Nanoseconds since the last second boundary; a billion or more
    /// within a leap second.
    pub nanos: u32,
    /// Seconds that the local clock is ahead of UTC.
    pub offset: i32,
}

/// What `chrono` writes for the point in time `secs`, `nanos` on a clock
/// that is `offset` seconds ahead of UTC, under the strftime pattern
/// `pattern`; `None` where `chrono` cannot represent the time or the offset,
/// or rejects the pattern.
pub uninterp spec fn formatted_time(
    secs: int,
    nanos: int,
    offset: int,
    pattern: Seq<char>,
) -> Option<Seq<char>>;

impl Timestamp {
    /// Whole milliseconds since 1970-01-01 00:00:00 UTC.
    pub open spec fn spec_millis(self) -> int {
        self.secs * 1000 + self.nanos / 1_000_000
    }

    /// This point in time comes after `other`. The offsets play no part.
    pub open spec fn spec_later_than(self, other: Timestamp) -> bool {
        self.secs > other.secs || (self.secs == other.secs && self.nanos > other.nanos)
    }

    /// Both are the same point in time, whatever the offsets.
    pub open spec fn spec_same_instant(self, other: Timestamp) -> bool {
        self.secs == other.secs && self.nanos == other.nanos
    }

    /// Whole milliseconds since 1970-01-01 00:00:00 UTC.
    pub fn millis(&self) -> (ms: i128)
        ensures
            ms == self.spec_millis(),
    {
        let secs: i128 = self.secs as i128;
        let sub: i128 = (self.nanos / 1_000_000) as i128;
        secs * 1000 + sub
    }

    /// Whether this point in time comes after `other`.
    pub fn later_than(&self, other: &Timestamp) -> (r: bool)
        ensures
            r == self.spec_later_than(*other),
    {
        self.secs > other.secs || (self.secs == other.secs && self.nanos > other.nanos)
    }

    /// Whether both are the same point in time.
    pub fn same_instant(&self, other: &Timestamp) -> (r: bool)
        ensures
            r == self.spec_same_instant(*other),
    {
        self.secs == other.secs && self.nanos == other.nanos
    }
}

/// The current time: `chrono::Local::now()`, read off as seconds
/// (`timestamp`), nanoseconds (`timestamp_subsec_nanos`) and offset
/// (`offset().local_minus_utc()`). Nothing is claimed of the result: it is
/// whatever the clock and the time zone of the machine say. `chrono` gives
/// up where the clock of the machine reads before 1970 or beyond the years
/// it can hold, or where the time zone data is unusable; nothing that is
/// passed in can bring that about.
#[verifier::external_body]
pub(crate) fn local_now() -> Timestamp {
    let now = chrono::Local::now();
    Timestamp {
        secs: now.timestamp(),
        nanos: now.timestamp_subsec_nanos(),
        offset: now.offset().local_minus_utc(),
    }
}

/// `chrono::DateTime::format` on the time that `at` stands for, in the
/// fixed offset `at.offset`. The time is built with
/// `DateTime::from_timestamp` and `FixedOffset::east_opt`, which give `None`
/// outside what `chrono` can represent; the text is written with
/// `DelayedFormat::write_to`, which fails on a pattern that `chrono`
/// rejects. The contract only names the result: the same numbers and the
/// same pattern give the same text.
#[verifier::external_body]
pub(crate) fn format_time(at: &Timestamp, pattern: &str) -> (text: Option<String>)
    ensures
        match text {
            Some(t) => formatted_time(at.secs as int, at.nanos as int, at.offset as int, pattern@)
                == Some(t@),
            None => formatted_time(at.secs as int, at.nanos as int, at.offset as int, pattern@)
                is None,
        },
{
    let utc = chrono::DateTime::from_timestamp(at.secs, at.nanos)?;
    let zone = chrono::FixedOffset::east_opt(at.offset)?;
    let mut text = String::new();
    utc.with_timezone(&zone).format(pattern).write_to(&mut text).ok()?;
    Some(text)
}

} // verus!

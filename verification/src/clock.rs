//! Clock readings and the arithmetic on them.
//!
//! The crate reads no clock. Its callers pass in two readings: one of a
//! monotonic clock, in nanoseconds since an origin of the caller's choosing,
//! and one of the wall clock, as a [`WallTime`].

use vstd::prelude::*;

verus! {

/// The nanoseconds in one second.
pub const NANOS_PER_SEC: u64 = 1_000_000_000;

/// A point on the wall clock: whole seconds since the Unix epoch, and the
/// nanoseconds past that second (more than a second's worth only within a
/// leap second).
#[derive(Debug, Clone, Copy, PartialEq, Eq)]
pub struct WallTime {
    pub secs: i64,
    pub nanos: u32,
}

impl WallTime {
    /// The nanoseconds since the Unix epoch.
    pub open spec fn total_nanos(self) -> int {
        self.secs * 1_000_000_000 + self.nanos
    }

    /// The nanoseconds since the Unix epoch.
    pub fn as_nanos(&self) -> (r: i128)
        ensures
            r == self.total_nanos(),
    {
        let secs: i128 = self.secs as i128;
        secs * 1_000_000_000 + (self.nanos as i128)
    }
}

/// The point in time that chrono reads out of a text in its relaxed form of
/// RFC 3339, as seconds since the Unix epoch and nanoseconds past the
/// second; nothing where chrono rejects the text.
pub uninterp spec fn rfc3339_timestamp(text: Seq<char>) -> Option<(i64, u32)>;

/// chrono's `FromStr` for `DateTime<FixedOffset>`, followed by its
/// `timestamp` and `timestamp_subsec_nanos`. The contract only names the
/// result: the same text always gives the same point in time, whatever the
/// time zone of the machine.
#[verifier::external_body]
fn parse_rfc3339(text: &str) -> (r: Option<(i64, u32)>)
    ensures
        r == rfc3339_timestamp(text@),
{
    match text.parse::<chrono::DateTime<chrono::FixedOffset>>() {
        Ok(at) => Some((at.timestamp(), at.timestamp_subsec_nanos())),
        Err(_) => None,
    }
}

/// The wall-clock time that a timestamp text denotes, if it denotes one.
pub open spec fn timestamp_of(text: Seq<char>) -> Option<WallTime> {
    match rfc3339_timestamp(text) {
        Some((secs, nanos)) => Some(WallTime { secs, nanos }),
        None => None,
    }
}

/// Reads a timestamp such as `2022-05-01T12:00:00Z`.
pub fn parse_timestamp(text: &str) -> (r: Option<WallTime>)
    ensures
        r == timestamp_of(text@),
{
    match parse_rfc3339(text) {
        Some((secs, nanos)) => Some(WallTime { secs, nanos }),
        None => None,
    }
}

/// The text that the time crate displays a point in time as, in UTC; nothing
/// where the point lies outside of what that crate can hold.
pub uninterp spec fn offset_date_time_text(nanos: i128) -> Option<Seq<char>>;

/// time's `OffsetDateTime::from_unix_timestamp_nanos`, followed by the
/// `Display` of what it made. The contract only names the result.
#[verifier::external_body]
fn display_offset_date_time(nanos: i128) -> (r: Option<String>)
    ensures
        match r {
            Some(text) => offset_date_time_text(nanos) == Some(text@),
            None => offset_date_time_text(nanos) is None,
        },
{
    match time::OffsetDateTime::from_unix_timestamp_nanos(nanos) {
        Ok(at) => Some(at.to_string()),
        Err(_) => None,
    }
}

/// The text that chrono displays a point in time as, in UTC; nothing where
/// the point lies outside of what that crate can hold.
pub uninterp spec fn utc_date_time_text(secs: i64, nanos: u32) -> Option<Seq<char>>;

/// chrono's `DateTime::<Utc>::from_timestamp`, followed by the `Display` of
/// what it made. The contract only names the result.
#[verifier::external_body]
fn display_utc_date_time(secs: i64, nanos: u32) -> (r: Option<String>)
    ensures
        match r {
            Some(text) => utc_date_time_text(secs, nanos) == Some(text@),
            None => utc_date_time_text(secs, nanos) is None,
        },
{
    match chrono::DateTime::<chrono::Utc>::from_timestamp(secs, nanos) {
        Some(at) => Some(at.to_string()),
        None => None,
    }
}

impl WallTime {
    /// The point in time as the time crate writes it, such as
    /// `2019-01-01 0:00:00.0 +00:00:00`.
    pub open spec fn offset_text(self) -> Option<Seq<char>> {
        offset_date_time_text(self.total_nanos() as i128)
    }

    /// Writes the point in time as the time crate does.
    pub fn to_offset_text(&self) -> (r: Option<String>)
        ensures
            match r {
                Some(text) => self.offset_text() == Some(text@),
                None => self.offset_text() is None,
            },
    {
        display_offset_date_time(self.as_nanos())
    }

    /// The point in time as chrono writes it, such as
    /// `2019-01-01 00:00:00 UTC`.
    pub open spec fn utc_text(self) -> Option<Seq<char>> {
        utc_date_time_text(self.secs, self.nanos)
    }

    /// Writes the point in time as chrono does.
    pub fn to_utc_text(&self) -> (r: Option<String>)
        ensures
            match r {
                Some(text) => self.utc_text() == Some(text@),
                None => self.utc_text() is None,
            },
    {
        display_utc_date_time(self.secs, self.nanos)
    }
}

/// A monotonic reading moved forward by a number of nanoseconds, stopping at
/// the largest reading there is.
pub open spec fn later(now: u64, nanos: int) -> u64 {
    if now + nanos > u64::MAX {
        u64::MAX
    } else {
        (now + nanos) as u64
    }
}

/// Moves a monotonic reading forward, stopping at the largest reading there is.
pub fn advance(now: u64, nanos: u128) -> (r: u64)
    ensures
        r == later(now, nanos as int),
{
    let room: u64 = u64::MAX - now;
    if nanos > room as u128 {
        u64::MAX
    } else {
        now + (nanos as u64)
    }
}

} // verus!

//! Instants with a numeric offset from UTC, and their RFC 3339 text.
//!
//! A [`Timestamp`] holds the seconds since 1970-01-01T00:00:00 UTC, the
//! nanoseconds within that second, and the offset of the local time from UTC
//! in seconds. Calendar work is carried out by the `chrono` crate.

use chrono::{DateTime, FixedOffset, Local};
use crate::codec::CodecError;
use vstd::prelude::*;

verus! {

/// The earliest second that `chrono` represents: the start of the year
/// -262143.
pub const MIN_SECONDS: i64 = -8_334_601_228_800;

/// The latest second that `chrono` represents: the end of the year 262142.
pub const MAX_SECONDS: i64 = 8_210_266_876_799;

/// The local second at which the year 0000 begins.
pub const PROFILE_MIN_LOCAL: i64 = -62_167_219_200;

/// The local second at which the year 9999 ends.
pub const PROFILE_MAX_LOCAL: i64 = 253_402_300_799;

/// The mathematical value of a timestamp.
pub struct TimestampView {
    /// Seconds since the epoch, leap seconds not counted.
    pub seconds: int,
    /// Nanoseconds within the second; a billion or more during a leap second.
    pub nanos: int,
    /// Local time minus UTC, in seconds.
    pub offset: int,
}

impl TimestampView {
    /// What every timestamp satisfies: the instant is one that `chrono`
    /// represents, a leap second stands only at the end of a minute, and the
    /// offset is less than a day.
    pub open spec fn valid(self) -> bool {
        &&& MIN_SECONDS <= self.seconds <= MAX_SECONDS
        &&& 0 <= self.nanos < 2_000_000_000
        &&& self.nanos >= 1_000_000_000 ==> self.seconds % 60 == 59
        &&& -86_400 < self.offset < 86_400
    }

    /// Whether the timestamp can be written in the RFC 3339 profile: the
    /// local year has four digits and the offset is a whole number of
    /// minutes.
    pub open spec fn in_profile(self) -> bool {
        &&& self.offset % 60 == 0
        &&& PROFILE_MIN_LOCAL <= self.seconds + self.offset <= PROFILE_MAX_LOCAL
    }

    /// Whether both denote the same instant, whatever their offsets.
    pub open spec fn same_instant(self, other: TimestampView) -> bool {
        self.seconds == other.seconds && self.nanos == other.nanos
    }
}

/// The view that three parts stand for.
pub open spec fn parts_view(parts: (int, int, int)) -> TimestampView {
    TimestampView { seconds: parts.0, nanos: parts.1, offset: parts.2 }
}

/// What `chrono` makes of an RFC 3339 text: seconds, nanoseconds and offset,
/// or `None` where it rejects the text.
pub uninterp spec fn rfc3339_parsed(text: Seq<char>) -> Option<(int, int, int)>;

/// The RFC 3339 text that `chrono` writes for a timestamp.
pub uninterp spec fn rfc3339_text(seconds: int, nanos: int, offset: int) -> Seq<char>;

/// The local calendar date that `chrono` writes for a timestamp, as year,
/// month and day joined by hyphens.
pub uninterp spec fn ymd_text(seconds: int, nanos: int, offset: int) -> Seq<char>;

/// Calls `Local::now` and converts to a fixed offset. The reading depends on
/// the clock and the time zone of the machine, so only what `chrono` holds of
/// every reading is stated: the second is one it represents, no leap second
/// is reported, and the offset is less than a day. `chrono` panics where the
/// clock stands before 1970.
#[verifier::external_body]
fn clock_parts() -> (r: (i64, u32, i32))
    ensures
        MIN_SECONDS <= r.0 <= MAX_SECONDS,
        r.1 < 1_000_000_000,
        -86_400 < r.2 < 86_400,
{
    let now: DateTime<FixedOffset> = Local::now().into();
    (now.timestamp(), now.timestamp_subsec_nanos(), now.offset().local_minus_utc())
}

/// Calls `DateTime::parse_from_rfc3339`. The result is named, not described:
/// the accepted grammar is `chrono`'s own.
#[verifier::external_body]
fn parse_parts(text: &str) -> (r: Option<(i64, u32, i32)>)
    ensures
        match r {
            Some(parts) => rfc3339_parsed(text@) == Some(
                (parts.0 as int, parts.1 as int, parts.2 as int),
            ),
            None => rfc3339_parsed(text@) is None,
        },
{
    let parsed = DateTime::parse_from_rfc3339(text).ok()?;
    Some((parsed.timestamp(), parsed.timestamp_subsec_nanos(), parsed.offset().local_minus_utc()))
}

/// Calls `DateTime::to_rfc3339`. The text is named, not described. Within
/// the profile (a local year of four digits and an offset of whole minutes)
/// `DateTime::parse_from_rfc3339` reads the text back as the same parts.
#[verifier::external_body]
fn text_of_parts(seconds: i64, nanos: u32, offset: i32) -> (r: String)
    requires
        parts_view((seconds as int, nanos as int, offset as int)).valid(),
    ensures
        r@ == rfc3339_text(seconds as int, nanos as int, offset as int),
        parts_view((seconds as int, nanos as int, offset as int)).in_profile()
            ==> rfc3339_parsed(r@) == Some((seconds as int, nanos as int, offset as int)),
{
    let zone = FixedOffset::east_opt(offset).unwrap();
    DateTime::from_timestamp(seconds, nanos).unwrap().with_timezone(&zone).to_rfc3339()
}

/// Calls `DateTime::format` with `"%Y-%m-%d"`. The text is named, not
/// described: the calendar is `chrono`'s own.
#[verifier::external_body]
fn ymd_of_parts(seconds: i64, nanos: u32, offset: i32) -> (r: String)
    requires
        parts_view((seconds as int, nanos as int, offset as int)).valid(),
    ensures
        r@ == ymd_text(seconds as int, nanos as int, offset as int),
{
    let zone = FixedOffset::east_opt(offset).unwrap();
    let local = DateTime::from_timestamp(seconds, nanos).unwrap().with_timezone(&zone);
    local.format("%Y-%m-%d").to_string()
}

/// An instant together with the offset of its local time from UTC.
#[derive(Debug, Clone, Copy)]
pub struct Timestamp {
    seconds: i64,
    nanos: u32,
    offset: i32,
}

impl View for Timestamp {
    type V = TimestampView;

    closed spec fn view(&self) -> TimestampView {
        TimestampView {
            seconds: self.seconds as int,
            nanos: self.nanos as int,
            offset: self.offset as int,
        }
    }
}

impl Timestamp {
    #[verifier::type_invariant]
    spec fn is_valid(self) -> bool {
        self@.valid()
    }

    /// Whether `text` is read as a timestamp: `chrono` accepts it as
    /// RFC 3339 and what it yields is valid and within the profile.
    pub open spec fn parses(text: Seq<char>) -> bool {
        &&& rfc3339_parsed(text) is Some
        &&& parts_view(rfc3339_parsed(text)->Some_0).valid()
        &&& parts_view(rfc3339_parsed(text)->Some_0).in_profile()
    }

    /// The timestamp that `text` is read as, where it
    /// [`parses`](Self::parses).
    pub open spec fn parsed(text: Seq<char>) -> TimestampView {
        parts_view(rfc3339_parsed(text)->Some_0)
    }

    /// The timestamp with the given parts, or `None` where they are not
    /// valid.
    pub fn from_parts(seconds: i64, nanos: u32, offset: i32) -> (r: Option<Timestamp>)
        ensures
            r is Some <==> parts_view((seconds as int, nanos as int, offset as int)).valid(),
            r matches Some(t) ==> t@ == parts_view(
                (seconds as int, nanos as int, offset as int),
            ),
    {
        if seconds < MIN_SECONDS || seconds > MAX_SECONDS {
            return None;
        }
        if nanos >= 2_000_000_000 || offset <= -86_400 || offset >= 86_400 {
            return None;
        }
        let since_first: i64 = seconds - MIN_SECONDS;
        if nanos >= 1_000_000_000 && since_first % 60 != 59 {
            return None;
        }
        Some(Timestamp { seconds, nanos, offset })
    }

    /// Seconds since the epoch.
    pub fn seconds(&self) -> (r: i64)
        ensures
            r == self@.seconds,
            self@.valid(),
    {
        proof {
            use_type_invariant(self);
        }
        self.seconds
    }

    /// Nanoseconds within the second.
    pub fn nanos(&self) -> (r: u32)
        ensures
            r == self@.nanos,
    {
        self.nanos
    }

    /// Local time minus UTC, in seconds.
    pub fn offset(&self) -> (r: i32)
        ensures
            r == self@.offset,
    {
        self.offset
    }

    /// Whether the timestamp can be written in the RFC 3339 profile.
    pub fn is_in_profile(&self) -> (r: bool)
        ensures
            r == self@.in_profile(),
    {
        proof {
            use_type_invariant(self);
        }
        let local: i64 = self.seconds + self.offset as i64;
        let shifted: i32 = self.offset + 86_400;
        shifted % 60 == 0 && PROFILE_MIN_LOCAL <= local && local <= PROFILE_MAX_LOCAL
    }

    /// The present instant at the machine's local offset. Nothing is known
    /// of the reading but that it is a timestamp.
    pub fn now() -> (r: Timestamp)
        ensures
            r@.valid(),
    {
        let (seconds, nanos, offset) = clock_parts();
        Timestamp { seconds, nanos, offset }
    }

    /// Reads a timestamp from its RFC 3339 text. A text that `chrono`
    /// rejects fails with `MalformedTimestamp` and the text itself.
    pub fn parse_rfc3339(text: &str) -> (r: Result<Timestamp, CodecError>)
        ensures
            r is Ok <==> Timestamp::parses(text@),
            r matches Ok(t) ==> t@ == Timestamp::parsed(text@) && t@.in_profile(),
            r matches Err(e) ==> e is MalformedTimestamp && e.raw() == text@,
    {
        if let Some((seconds, nanos, offset)) = parse_parts(text) {
            if let Some(t) = Timestamp::from_parts(seconds, nanos, offset) {
                if t.is_in_profile() {
                    return Ok(t);
                }
            }
        }
        Err(CodecError::MalformedTimestamp(text.to_owned()))
    }

    /// The RFC 3339 text of the timestamp, with a numeric offset. Within the
    /// profile, reading the text gives back the same timestamp.
    pub fn to_rfc3339(&self) -> (r: String)
        ensures
            r@ == rfc3339_text(self@.seconds, self@.nanos, self@.offset),
            self@.in_profile() ==> Timestamp::parses(r@) && Timestamp::parsed(r@) == self@,
    {
        proof {
            use_type_invariant(self);
        }
        text_of_parts(self.seconds, self.nanos, self.offset)
    }

    /// The local calendar date, as year, month and day joined by hyphens.
    pub fn to_ymd(&self) -> (r: String)
        ensures
            r@ == ymd_text(self@.seconds, self@.nanos, self@.offset),
    {
        proof {
            use_type_invariant(self);
        }
        ymd_of_parts(self.seconds, self.nanos, self.offset)
    }
}

} // verus!

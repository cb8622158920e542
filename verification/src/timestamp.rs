//! Points in time with a UTC offset, as the rules read them.
//!
//! A [`Timestamp`] holds an instant (whole seconds since the Unix epoch and a
//! sub-second part) together with the UTC offset it was written with. Parsing
//! and rendering of the RFC 3339 text form are done by `chrono`.

use chrono::{DateTime, FixedOffset};
use vstd::prelude::*;

verus! {

/// Seconds since the Unix epoch of the earliest instant `chrono` represents,
/// the start of the year -262143.
pub const MIN_SECONDS: i64 = -8_334_601_228_800;

/// Seconds since the Unix epoch of the last second `chrono` represents,
/// the end of the year 262142.
pub const MAX_SECONDS: i64 = 8_210_266_876_799;

/// The mathematical content of a [`Timestamp`].
pub struct TimestampView {
    /// Whole non-leap seconds since 1970-01-01T00:00:00Z.
    pub seconds: int,
    /// Nanoseconds since the last whole second; one billion or more during a leap second.
    pub nanoseconds: int,
    /// Seconds to add to UTC to get the local time the timestamp was written in.
    pub offset_seconds: int,
}

/// Whether `chrono` has a `DateTime<FixedOffset>` with these components.
pub open spec fn representable(t: TimestampView) -> bool {
    &&& MIN_SECONDS <= t.seconds <= MAX_SECONDS
    &&& 0 <= t.nanoseconds < 2_000_000_000
    &&& (t.nanoseconds >= 1_000_000_000 ==> t.seconds % 60 == 59)
    &&& -86_400 < t.offset_seconds < 86_400
}

/// Whether `a` is a strictly earlier instant than `b`, whatever their offsets.
pub open spec fn earlier(a: TimestampView, b: TimestampView) -> bool {
    a.seconds < b.seconds || (a.seconds == b.seconds && a.nanoseconds < b.nanoseconds)
}

/// What `chrono::DateTime::parse_from_rfc3339` makes of a text: the
/// components of the parsed date-time, or `None` where it reports an error.
pub uninterp spec fn rfc3339_parse(text: Seq<char>) -> Option<TimestampView>;

/// The text that `chrono::DateTime::to_rfc3339` renders for the date-time
/// with these components.
pub uninterp spec fn rfc3339_text(t: TimestampView) -> Seq<char>;

/// A timezone-aware point in time: an instant and the UTC offset it was
/// written with. Every value is one that `chrono` represents.
///
/// Two timestamps are equal if they agree in instant and offset: the same
/// instant written in another offset is another timestamp.
#[derive(Clone, Copy, Debug, PartialEq, Eq)]
pub struct Timestamp {
    seconds: i64,
    nanoseconds: u32,
    offset_seconds: i32,
}

impl View for Timestamp {
    type V = TimestampView;

    closed spec fn view(&self) -> TimestampView {
        TimestampView {
            seconds: self.seconds as int,
            nanoseconds: self.nanoseconds as int,
            offset_seconds: self.offset_seconds as int,
        }
    }
}

impl DeepView for Timestamp {
    type V = TimestampView;

    open spec fn deep_view(&self) -> TimestampView {
        self@
    }
}

/// Calls `chrono::DateTime::parse_from_rfc3339` and takes the result apart
/// with `timestamp`, `timestamp_subsec_nanos` and `FixedOffset::local_minus_utc`.
///
/// Trusted: the outcome is a function of the text alone, and every date-time
/// that the parser returns has components within the range `chrono`
/// represents. The invariant of every [`Timestamp`] that comes from a text
/// rests on this.
#[verifier::external_body]
fn chrono_parse_rfc3339(text: &str) -> (parsed: Option<Timestamp>)
    ensures
        parsed.deep_view() == rfc3339_parse(text@),
        parsed matches Some(t) ==> representable(t@),
{
    match DateTime::parse_from_rfc3339(text) {
        Ok(parsed) => Some(
            Timestamp {
                seconds: parsed.timestamp(),
                nanoseconds: parsed.timestamp_subsec_nanos(),
                offset_seconds: parsed.offset().local_minus_utc(),
            },
        ),
        Err(_) => None,
    }
}

/// Rebuilds the date-time with `chrono::DateTime::from_timestamp`,
/// `FixedOffset::east_opt` and `with_timezone`, and calls
/// `chrono::DateTime::to_rfc3339` on it.
///
/// Trusted: the rendered text is a function of the three components alone.
/// The precondition is the range on which both constructors succeed.
#[verifier::external_body]
fn chrono_to_rfc3339(seconds: i64, nanoseconds: u32, offset_seconds: i32) -> (text: String)
    requires
        representable(
            TimestampView {
                seconds: seconds as int,
                nanoseconds: nanoseconds as int,
                offset_seconds: offset_seconds as int,
            },
        ),
    ensures
        text@ == rfc3339_text(
            TimestampView {
                seconds: seconds as int,
                nanoseconds: nanoseconds as int,
                offset_seconds: offset_seconds as int,
            },
        ),
{
    let zone = FixedOffset::east_opt(offset_seconds).unwrap();
    let utc = DateTime::from_timestamp(seconds, nanoseconds).unwrap();
    utc.with_timezone(&zone).to_rfc3339()
}

impl Timestamp {
    #[verifier::type_invariant]
    spec fn well_formed(self) -> bool {
        representable(self@)
    }

    /// Builds a timestamp from its components, if they denote a date-time
    /// within the representable range.
    pub fn new(seconds: i64, nanoseconds: u32, offset_seconds: i32) -> (made: Option<Timestamp>)
        ensures
            made is Some <==> representable(
                TimestampView {
                    seconds: seconds as int,
                    nanoseconds: nanoseconds as int,
                    offset_seconds: offset_seconds as int,
                },
            ),
            made matches Some(t) ==> t@ == (TimestampView {
                seconds: seconds as int,
                nanoseconds: nanoseconds as int,
                offset_seconds: offset_seconds as int,
            }),
    {
        if seconds < MIN_SECONDS || seconds > MAX_SECONDS {
            return None;
        }
        if nanoseconds >= 2_000_000_000 {
            return None;
        }
        if nanoseconds >= 1_000_000_000 && seconds.checked_rem_euclid(60) != Some(59) {
            return None;
        }
        if offset_seconds <= -86_400 || offset_seconds >= 86_400 {
            return None;
        }
        Some(Timestamp { seconds, nanoseconds, offset_seconds })
    }

    /// Parses an RFC 3339 date-time, with `chrono`'s parser: `None` where it
    /// rejects the text.
    pub fn parse(text: &str) -> (parsed: Option<Timestamp>)
        ensures
            parsed.deep_view() == rfc3339_parse(text@),
            parsed matches Some(t) ==> representable(t@),
    {
        chrono_parse_rfc3339(text)
    }

    /// Renders the timestamp as an RFC 3339 date-time in its own offset.
    pub fn to_rfc3339(&self) -> (text: String)
        ensures
            text@ == rfc3339_text(self@),
    {
        proof {
            use_type_invariant(self);
        }
        chrono_to_rfc3339(self.seconds, self.nanoseconds, self.offset_seconds)
    }

    /// Whole seconds since the Unix epoch.
    pub fn seconds(&self) -> (seconds: i64)
        ensures
            seconds == self@.seconds,
            representable(self@),
    {
        proof {
            use_type_invariant(self);
        }
        self.seconds
    }

    /// Nanoseconds since the last whole second.
    pub fn nanoseconds(&self) -> (nanoseconds: u32)
        ensures
            nanoseconds == self@.nanoseconds,
            representable(self@),
    {
        proof {
            use_type_invariant(self);
        }
        self.nanoseconds
    }

    /// Seconds east of UTC of the offset the timestamp carries.
    pub fn offset_seconds(&self) -> (offset: i32)
        ensures
            offset == self@.offset_seconds,
            representable(self@),
    {
        proof {
            use_type_invariant(self);
        }
        self.offset_seconds
    }

    /// Whether this instant is strictly earlier than `other`, compared on
    /// absolute time: the order in which `chrono` puts two date-times.
    pub fn is_earlier_than(&self, other: &Timestamp) -> (result: bool)
        ensures
            result == earlier(self@, other@),
    {
        self.seconds < other.seconds || (self.seconds == other.seconds && self.nanoseconds
            < other.nanoseconds)
    }
}

} // verus!

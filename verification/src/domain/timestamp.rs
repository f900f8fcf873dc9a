//! Points in time with the offset they were written in.

use vstd::prelude::*;
use vstd::string::*;

use crate::order::Order;

verus! {

/// A point in time: whole seconds since the Unix epoch, nanoseconds, and the offset from UTC in
/// seconds that its text was written in.
#[derive(Clone, Copy, Debug)]
pub struct Timestamp {
    pub seconds: i64,
    pub nanos: u32,
    pub offset: i32,
}

/// What `chrono::DateTime::parse_from_rfc3339` makes of a text.
pub uninterp spec fn rfc3339_of(text: Seq<char>) -> Option<(i64, u32, i32)>;

/// What `chrono::DateTime::parse_from_str` makes of a text in a format with an offset.
pub uninterp spec fn zoned_of(text: Seq<char>, format: Seq<char>) -> Option<(i64, u32, i32)>;

/// What `chrono::NaiveDateTime::parse_from_str` makes of a text in a format without an offset.
pub uninterp spec fn naive_of(text: Seq<char>, format: Seq<char>) -> Option<(i64, u32)>;

/// The text that `chrono::DateTime::to_rfc3339_opts` gives to a point in time, with as many
/// fractional digits as it needs; the offset of UTC is written as `Z` where `zulu` says so. There is
/// none where the calendar does not reach.
pub uninterp spec fn rfc3339_text(
    seconds: i64,
    nanos: u32,
    offset: i32,
    zulu: bool,
) -> Option<Seq<char>>;

/// Calls `chrono::DateTime::parse_from_rfc3339`, whose result is a function of the text alone.
#[verifier::external_body]
fn read_rfc3339(value: &str) -> (result: Option<(i64, u32, i32)>)
    ensures
        result == rfc3339_of(value@),
{
    let parsed = chrono::DateTime::parse_from_rfc3339(value).ok()?;
    Some((parsed.timestamp(), parsed.timestamp_subsec_nanos(), parsed.offset().local_minus_utc()))
}

/// Calls `chrono::DateTime::parse_from_str`, whose result is a function of the text and the format.
#[verifier::external_body]
fn read_zoned(value: &str, format: &str) -> (result: Option<(i64, u32, i32)>)
    ensures
        result == zoned_of(value@, format@),
{
    let parsed = chrono::DateTime::parse_from_str(value, format).ok()?;
    Some((parsed.timestamp(), parsed.timestamp_subsec_nanos(), parsed.offset().local_minus_utc()))
}

/// Calls `chrono::NaiveDateTime::parse_from_str`, whose result is a function of the text and the
/// format; the local time is taken as UTC.
#[verifier::external_body]
fn read_naive(value: &str, format: &str) -> (result: Option<(i64, u32)>)
    ensures
        result == naive_of(value@, format@),
{
    let parsed = chrono::NaiveDateTime::parse_from_str(value, format).ok()?.and_utc();
    Some((parsed.timestamp(), parsed.timestamp_subsec_nanos()))
}

/// Calls `chrono::DateTime::to_rfc3339_opts` with automatic fractional digits, with or without `Z`.
/// There is no text for a moment that `chrono` cannot hold, in UTC or at the given offset.
#[verifier::external_body]
fn write_rfc3339(seconds: i64, nanos: u32, offset: i32, zulu: bool) -> (result: Option<String>)
    ensures
        match result {
            Some(written) => rfc3339_text(seconds, nanos, offset, zulu) == Some(written@),
            None => rfc3339_text(seconds, nanos, offset, zulu) is None,
        },
{
    let zone = chrono::FixedOffset::east_opt(offset)?;
    let moment = chrono::DateTime::from_timestamp(seconds, nanos)?;
    moment.naive_utc().checked_add_offset(zone)?;
    Some(moment.with_timezone(&zone).to_rfc3339_opts(chrono::SecondsFormat::AutoSi, zulu))
}

pub open spec fn moment(parts: Option<(i64, u32, i32)>) -> Option<Timestamp> {
    match parts {
        Some((seconds, nanos, offset)) => Some(Timestamp { seconds, nanos, offset }),
        None => None,
    }
}

pub open spec fn utc_moment(parts: Option<(i64, u32)>) -> Option<Timestamp> {
    match parts {
        Some((seconds, nanos)) => Some(Timestamp { seconds, nanos, offset: 0 }),
        None => None,
    }
}

impl Timestamp {
    /// Points in time compare by the instant, whatever offsets they are written in.
    pub open spec fn instant_order(self, other: Timestamp) -> Order {
        if self.seconds != other.seconds {
            crate::order::compare_int(self.seconds as int, other.seconds as int)
        } else {
            crate::order::compare_int(self.nanos as int, other.nanos as int)
        }
    }

    /// Reads an RFC 3339 text.
    pub fn parse_rfc3339(value: &str) -> (result: Option<Timestamp>)
        ensures
            result == moment(rfc3339_of(value@)),
    {
        match read_rfc3339(value) {
            Some((seconds, nanos, offset)) => Some(Timestamp { seconds, nanos, offset }),
            None => None,
        }
    }

    /// Reads a text in a format that holds an offset.
    pub fn parse_zoned(value: &str, format: &str) -> (result: Option<Timestamp>)
        ensures
            result == moment(zoned_of(value@, format@)),
    {
        match read_zoned(value, format) {
            Some((seconds, nanos, offset)) => Some(Timestamp { seconds, nanos, offset }),
            None => None,
        }
    }

    /// Reads a text in a format without an offset as UTC.
    pub fn parse_utc(value: &str, format: &str) -> (result: Option<Timestamp>)
        ensures
            result == utc_moment(naive_of(value@, format@)),
    {
        match read_naive(value, format) {
            Some((seconds, nanos)) => Some(Timestamp { seconds, nanos, offset: 0 }),
            None => None,
        }
    }

    /// The RFC 3339 text of the point in time; empty where the calendar does not reach.
    pub open spec fn text(self, zulu: bool) -> Seq<char> {
        match rfc3339_text(self.seconds, self.nanos, self.offset, zulu) {
            Some(written) => written,
            None => Seq::empty(),
        }
    }

    /// The RFC 3339 text of the point in time, with `Z` for UTC where `zulu` says so; empty where the
    /// calendar does not reach.
    pub fn to_text(&self, zulu: bool) -> (result: String)
        ensures
            result@ == self.text(zulu),
    {
        match write_rfc3339(self.seconds, self.nanos, self.offset, zulu) {
            Some(written) => written,
            None => String::new(),
        }
    }

    pub fn compare(&self, other: &Timestamp) -> (result: Order)
        ensures
            result == self.instant_order(*other),
    {
        if self.seconds != other.seconds {
            if self.seconds < other.seconds {
                Order::Less
            } else {
                Order::Greater
            }
        } else if self.nanos < other.nanos {
            Order::Less
        } else if self.nanos == other.nanos {
            Order::Equal
        } else {
            Order::Greater
        }
    }
}

impl PartialEq for Timestamp {
    fn eq(&self, other: &Self) -> (result: bool) {
        self.seconds == other.seconds && self.nanos == other.nanos
    }
}

impl vstd::std_specs::cmp::PartialEqSpecImpl for Timestamp {
    open spec fn obeys_eq_spec() -> bool {
        true
    }

    open spec fn eq_spec(&self, other: &Self) -> bool {
        self.seconds == other.seconds && self.nanos == other.nanos
    }
}

impl Eq for Timestamp {

}

} // verus!

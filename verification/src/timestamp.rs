//! Points in time, read and written as RFC 3339 text by `chrono`.

use vstd::prelude::*;
use crate::text::opt_text;

verus! {

/// What `chrono` reads from a text as a date and time: the seconds since the
/// Unix epoch and the nanoseconds within the second of that instant in UTC,
/// or `None` where the text is no RFC 3339 date and time.
pub uninterp spec fn rfc3339_instant(text: Seq<char>) -> Option<(i64, u32)>;

/// What `chrono` writes for the instant at `seconds` since the Unix epoch and
/// `nanos` within the second, or `None` where it has no such instant.
pub uninterp spec fn rfc3339_text(seconds: i64, nanos: u32) -> Option<Seq<char>>;

/// `str::parse` at `chrono::DateTime<Utc>`, then `DateTime::timestamp` and
/// `DateTime::timestamp_subsec_nanos`: reads an RFC 3339 date and time (a
/// space may stand for the `T`) and converts it to UTC. The two numbers
/// are such that `DateTime::from_timestamp` gives the instant back.
#[verifier::external_body]
fn parse_rfc3339(text: &str) -> (r: Option<(i64, u32)>)
    ensures
        r == rfc3339_instant(text@),
        r matches Some(t) ==> rfc3339_text(t.0, t.1) is Some,
{
    text.parse::<chrono::DateTime<chrono::Utc>>().ok().map(|d| (d.timestamp(), d.timestamp_subsec_nanos()))
}

/// `DateTime::from_timestamp`, then `DateTime::to_rfc3339_opts` with
/// `SecondsFormat::AutoSi` and `Z` for UTC: the text that `chrono` writes for
/// an instant in UTC, `None` where the numbers are out of its range.
#[verifier::external_body]
fn format_rfc3339(seconds: i64, nanos: u32) -> (r: Option<String>)
    ensures
        opt_text(r) == rfc3339_text(seconds, nanos),
{
    chrono::DateTime::from_timestamp(seconds, nanos).map(
        |d| d.to_rfc3339_opts(chrono::SecondsFormat::AutoSi, true),
    )
}

/// An instant in UTC that `chrono` can write.
#[derive(Clone, Copy, Debug, PartialEq, Eq)]
pub struct Timestamp {
    seconds: i64,
    nanos: u32,
}

impl View for Timestamp {
    type V = (i64, u32);

    /// Seconds since the Unix epoch, and nanoseconds within the second.
    closed spec fn view(&self) -> (i64, u32) {
        (self.seconds, self.nanos)
    }
}

impl DeepView for Timestamp {
    type V = (i64, u32);

    open spec fn deep_view(&self) -> (i64, u32) {
        self@
    }
}

/// The view of an optional timestamp.
pub open spec fn opt_instant(o: Option<Timestamp>) -> Option<(i64, u32)> {
    match o {
        Some(t) => Some(t@),
        None => None,
    }
}

impl Timestamp {
    #[verifier::type_invariant]
    spec fn writable(&self) -> bool {
        rfc3339_text(self.seconds, self.nanos) is Some
    }

    /// Reads an RFC 3339 date and time; `None` where `text` is none.
    pub fn parse(text: &str) -> (r: Option<Timestamp>)
        ensures
            opt_instant(r) == rfc3339_instant(text@),
    {
        match parse_rfc3339(text) {
            Some((seconds, nanos)) => Some(Timestamp { seconds, nanos }),
            None => None,
        }
    }

    /// The instant as RFC 3339 text in UTC.
    pub fn to_rfc3339(&self) -> (r: String)
        ensures
            rfc3339_text(self@.0, self@.1) == Some(r@),
    {
        proof {
            use_type_invariant(self);
        }
        match format_rfc3339(self.seconds, self.nanos) {
            Some(s) => s,
            None => String::new(),
        }
    }

    /// Seconds since the Unix epoch.
    pub fn seconds(&self) -> (r: i64)
        ensures
            r == self@.0,
    {
        self.seconds
    }

    /// Nanoseconds within the second; above 999,999,999 in a leap second.
    pub fn nanos(&self) -> (r: u32)
        ensures
            r == self@.1,
    {
        self.nanos
    }
}

} // verus!

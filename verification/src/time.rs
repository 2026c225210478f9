//! Date-times as the service reads them: text parsed into seconds since the
//! Unix epoch (UTC) and a nanosecond part.

use vstd::prelude::*;

use crate::error::{is_validation, AppError};
use crate::text::{trim, trimmed};

verus! {

/// A parsed date-time: whole seconds since 1970-01-01T00:00:00 UTC and the
/// nanoseconds within that second.
#[derive(Debug, Clone, Copy, PartialEq, Eq, Structural)]
pub struct Moment {
    pub secs: i64,
    pub nanos: u32,
}

/// What `chrono::DateTime::parse_from_rfc3339` makes of a text, as UTC
/// seconds and nanoseconds.
pub uninterp spec fn rfc3339_moment(s: Seq<char>) -> Option<(i64, u32)>;

/// What `chrono::NaiveDateTime::parse_from_str` makes of a text in a format.
pub uninterp spec fn naive_moment(s: Seq<char>, format: Seq<char>) -> Option<(i64, u32)>;

/// How `chrono` writes the UTC date-time at a timestamp with
/// `%Y-%m-%d %H:%M:%S`.
pub uninterp spec fn seconds_text(secs: i64, nanos: u32) -> Option<Seq<char>>;

/// How `chrono` displays the naive UTC date-time at a timestamp.
pub uninterp spec fn display_text(secs: i64, nanos: u32) -> Option<Seq<char>>;

/// `chrono::DateTime::parse_from_rfc3339`, read as its UTC timestamp
/// (`naive_utc().and_utc().timestamp()` and `timestamp_subsec_nanos()`).
#[verifier::external_body]
fn parse_rfc3339(s: &str) -> (r: Option<(i64, u32)>)
    ensures
        r == rfc3339_moment(s@),
{
    match chrono::DateTime::parse_from_rfc3339(s) {
        Ok(parsed) => {
            let utc = parsed.naive_utc().and_utc();
            Some((utc.timestamp(), utc.timestamp_subsec_nanos()))
        },
        Err(_) => None,
    }
}

/// `chrono::NaiveDateTime::parse_from_str`, read as its timestamp.
#[verifier::external_body]
fn parse_naive(s: &str, format: &str) -> (r: Option<(i64, u32)>)
    ensures
        r == naive_moment(s@, format@),
{
    match chrono::NaiveDateTime::parse_from_str(s, format) {
        Ok(parsed) => {
            let utc = parsed.and_utc();
            Some((utc.timestamp(), utc.timestamp_subsec_nanos()))
        },
        Err(_) => None,
    }
}

/// `chrono::DateTime::from_timestamp`, formatted `%Y-%m-%d %H:%M:%S`
/// (`None` where chrono has no date-time for the timestamp).
#[verifier::external_body]
pub(crate) fn format_seconds(secs: i64, nanos: u32) -> (r: Option<String>)
    ensures
        r matches Some(t) ==> seconds_text(secs, nanos) == Some(t@),
        r is None <==> seconds_text(secs, nanos) is None,
{
    match chrono::DateTime::from_timestamp(secs, nanos) {
        Some(dt) => Some(dt.naive_utc().format("%Y-%m-%d %H:%M:%S").to_string()),
        None => None,
    }
}

/// `chrono::DateTime::from_timestamp`, shown as a naive UTC date-time
/// (`NaiveDateTime`'s `Display`).
#[verifier::external_body]
pub(crate) fn display_moment(secs: i64, nanos: u32) -> (r: Option<String>)
    ensures
        r matches Some(t) ==> display_text(secs, nanos) == Some(t@),
        r is None <==> display_text(secs, nanos) is None,
{
    match chrono::DateTime::from_timestamp(secs, nanos) {
        Some(dt) => Some(dt.naive_utc().to_string()),
        None => None,
    }
}

/// The formats tried, in order, after RFC 3339.
pub open spec fn naive_formats() -> Seq<Seq<char>> {
    seq![
        "%Y-%m-%dT%H:%M:%S%.f"@,
        "%Y-%m-%d %H:%M:%S%.f"@,
        "%Y-%m-%dT%H:%M:%S"@,
        "%Y-%m-%d %H:%M:%S"@,
        "%Y-%m-%dT%H:%M"@,
        "%Y-%m-%d %H:%M"@,
    ]
}

/// The first of the naive formats from index `i` on that reads `t`.
pub open spec fn first_naive(t: Seq<char>, i: int) -> Option<(i64, u32)>
    decreases 6 - i,
{
    if i >= 6 || i < 0 {
        None
    } else if naive_moment(t, naive_formats()[i]) is Some {
        naive_moment(t, naive_formats()[i])
    } else {
        first_naive(t, i + 1)
    }
}

/// The date-time a text denotes: the trimmed text read as RFC 3339, else in
/// the first naive format that reads it.
pub open spec fn parsed_moment(s: Seq<char>) -> Option<(i64, u32)> {
    let t = trimmed(s);
    if rfc3339_moment(t) is Some {
        rfc3339_moment(t)
    } else {
        first_naive(t, 0)
    }
}

pub open spec fn moment_of(p: Option<(i64, u32)>) -> Option<Moment> {
    match p {
        Some((s, n)) => Some(Moment { secs: s, nanos: n }),
        None => None,
    }
}

fn naive_format(i: usize) -> (f: &'static str)
    requires
        i < 6,
    ensures
        f@ == naive_formats()[i as int],
{
    match i {
        0 => "%Y-%m-%dT%H:%M:%S%.f",
        1 => "%Y-%m-%d %H:%M:%S%.f",
        2 => "%Y-%m-%dT%H:%M:%S",
        3 => "%Y-%m-%d %H:%M:%S",
        4 => "%Y-%m-%dT%H:%M",
        _ => "%Y-%m-%d %H:%M",
    }
}

fn parse_trimmed(t: &str) -> (r: Option<(i64, u32)>)
    ensures
        r == (if rfc3339_moment(t@) is Some {
            rfc3339_moment(t@)
        } else {
            first_naive(t@, 0)
        }),
{
    let first = parse_rfc3339(t);
    if first.is_some() {
        return first;
    }
    let mut i: usize = 0;
    while i < 6
        invariant
            i <= 6,
            rfc3339_moment(t@) is None,
            first_naive(t@, 0) == first_naive(t@, i as int),
        decreases 6 - i,
    {
        let candidate = parse_naive(t, naive_format(i));
        if candidate.is_some() {
            return candidate;
        }
        i = i + 1;
    }
    None
}

/// Reads a date-time given as text.
pub fn parse_datetime(value: &str) -> (r: Option<Moment>)
    ensures
        r == moment_of(parsed_moment(value@)),
{
    let t = trim(value);
    match parse_trimmed(t.as_str()) {
        Some((secs, nanos)) => Some(Moment { secs, nanos }),
        None => None,
    }
}

/// A moment shifted by a whole number of minutes, with the seconds widened.
pub open spec fn shifted_secs(m: Moment, minutes: int) -> int {
    m.secs + minutes * 60
}

/// Strict order of (seconds, nanoseconds) pairs.
pub open spec fn earlier(a_secs: int, a_nanos: int, b_secs: int, b_nanos: int) -> bool {
    a_secs < b_secs || (a_secs == b_secs && a_nanos < b_nanos)
}

/// Whether `a` is strictly before `b` shifted by `minutes`.
pub fn before_shifted(a: Moment, b: Moment, minutes: i64) -> (r: bool)
    ensures
        r == earlier(a.secs as int, a.nanos as int, shifted_secs(b, minutes as int), b.nanos as int),
{
    assert(-0x1_0000_0000_0000_0000_0000 <= minutes as int * 60 <= 0x1_0000_0000_0000_0000_0000) by (nonlinear_arith)
        requires
            i64::MIN <= minutes <= i64::MAX,
    ;
    let bs = b.secs as i128 + minutes as i128 * 60;
    let as_ = a.secs as i128;
    as_ < bs || (as_ == bs && a.nanos < b.nanos)
}

/// Reads a kickoff date-time and writes it back as `YYYY-MM-DD HH:MM:SS` UTC.
pub fn validate_kickoff(value: String) -> (r: Result<String, AppError>)
    ensures
        trimmed(value@).len() == 0 ==> (r matches Err(e) && is_validation(
            e,
            "kickoff_at is required"@,
        )),
        trimmed(value@).len() > 0 ==> match parsed_moment(value@) {
            Some((s, n)) => match seconds_text(s, n) {
                Some(text) => (r matches Ok(k) && k@ == text),
                None => (r matches Err(e) && is_validation(
                    e,
                    "kickoff_at must be a valid date-time"@,
                )),
            },
            None => (r matches Err(e) && is_validation(e, "kickoff_at must be a valid date-time"@)),
        },
{
    let t = trim(value.as_str());
    if t.unicode_len() == 0 {
        return Err(AppError::validation("kickoff_at is required"));
    }
    match parse_datetime(value.as_str()) {
        Some(m) => match format_seconds(m.secs, m.nanos) {
            Some(text) => Ok(text),
            None => Err(AppError::validation("kickoff_at must be a valid date-time")),
        },
        None => Err(AppError::validation("kickoff_at must be a valid date-time")),
    }
}

} // verus!

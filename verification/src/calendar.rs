//! Calendar conversions done by chrono: rendering a UTC timestamp and
//! reading a timestamp back from a directory name. Both depend on their
//! arguments alone (UTC, no locale, no clock).
use vstd::prelude::*;

verus! {

/// The strftime pattern of metric log times: `2026-04-01T06:34:17.123456`.
pub open spec fn iso_micros_pattern() -> Seq<char> {
    "%Y-%m-%dT%H:%M:%S%.6f"@
}

/// The strftime pattern of snapshot times shown to the user.
pub open spec fn human_utc_pattern() -> Seq<char> {
    "%Y-%m-%d %H:%M:%S UTC"@
}

/// The strftime pattern of snapshot directory names: `2026-04-01T06-34-17`.
pub open spec fn dir_stamp_pattern() -> Seq<char> {
    "%Y-%m-%dT%H-%M-%S"@
}

/// What chrono renders for the UTC instant `secs` seconds and `nsecs`
/// nanoseconds after the Unix epoch with strftime pattern `fmt`, or `None`
/// when the instant is outside chrono's range.
pub uninterp spec fn chrono_utc_text(secs: i64, nsecs: u32, fmt: Seq<char>) -> Option<Seq<char>>;

/// The Unix timestamp (seconds) that chrono reads from `s` as a naive UTC
/// date-time with strftime pattern `fmt`, or `None` when `s` does not match.
pub uninterp spec fn chrono_parse_utc(s: Seq<char>, fmt: Seq<char>) -> Option<i64>;

/// `chrono::DateTime::from_timestamp(secs, nsecs)`, rendered with
/// `DateTime::format(fmt)` and `to_string`. The contract claims only that
/// the result is the named value of the arguments; the pattern is one of
/// the two this crate uses, for which rendering cannot fail.
#[verifier::external_body]
pub(crate) fn utc_text(secs: i64, nsecs: u32, fmt: &str) -> (r: Option<String>)
    requires
        fmt@ == iso_micros_pattern() || fmt@ == human_utc_pattern(),
    ensures
        match r {
            Some(t) => chrono_utc_text(secs, nsecs, fmt@) == Some(t@),
            None => chrono_utc_text(secs, nsecs, fmt@) is None,
        },
{
    match chrono::DateTime::from_timestamp(secs, nsecs) {
        Some(dt) => Some(dt.format(fmt).to_string()),
        None => None,
    }
}

/// `chrono::NaiveDateTime::parse_from_str(s, fmt)`, then `and_utc().timestamp()`.
/// The contract claims only that the result is the named value of the
/// arguments.
#[verifier::external_body]
pub(crate) fn parse_utc_timestamp(s: &str, fmt: &str) -> (r: Option<i64>)
    ensures
        r == chrono_parse_utc(s@, fmt@),
{
    match chrono::NaiveDateTime::parse_from_str(s, fmt) {
        Ok(dt) => Some(dt.and_utc().timestamp()),
        Err(_) => None,
    }
}

} // verus!

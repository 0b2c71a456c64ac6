//! Calendar support for the monthly allowance refresh.
//!
//! The stored refresh marker is an RFC 3339 string; a refresh is admitted
//! by comparing the calendar month of that marker with the month of the
//! current block timestamp, both in UTC.  Reading a calendar date out of a
//! timestamp or a string is delegated to the `chrono` crate; the results are named by the
//! uninterpreted functions below, and everything decided from them is
//! verified.

use vstd::prelude::*;

use crate::Error;

verus! {

/// The UTC calendar year and month named by an RFC 3339 string, or `None`
/// when the string does not parse as one.
pub uninterp spec fn rfc3339_year_month(s: Seq<char>) -> Option<(i32, u32)>;

/// The UTC calendar year and month of a Unix timestamp in seconds, or `None`
/// when the timestamp lies outside the representable calendar range.
pub uninterp spec fn timestamp_year_month(ts: u64) -> Option<(i32, u32)>;

/// The RFC 3339 rendering of a Unix timestamp in seconds, at offset UTC.
pub uninterp spec fn rfc3339_of_timestamp(ts: u64) -> Seq<char>;

/// Relies on `chrono::DateTime::parse_from_rfc3339` and
/// `chrono::Datelike::{year, month}`: the parsed calendar fields, taken in
/// UTC, depend on the input string alone.
#[verifier::external_body]
pub fn parse_year_month(s: &str) -> (r: Option<(i32, u32)>)
    ensures
        r == rfc3339_year_month(s@),
{
    match chrono::DateTime::parse_from_rfc3339(s) {
        Ok(dt) => {
            let utc = dt.with_timezone(&chrono::Utc);
            Some((chrono::Datelike::year(&utc), chrono::Datelike::month(&utc)))
        },
        Err(_) => None,
    }
}

/// Relies on `chrono::DateTime::from_timestamp` and
/// `chrono::Datelike::{year, month}`: the calendar fields of a Unix
/// timestamp depend on the timestamp alone, and `from_timestamp` returns
/// `None` exactly when the timestamp falls outside the representable range.
#[verifier::external_body]
pub fn year_month_of_timestamp(ts: u64) -> (r: Option<(i32, u32)>)
    ensures
        r == timestamp_year_month(ts),
{
    match i64::try_from(ts).ok().and_then(|s| chrono::DateTime::from_timestamp(s, 0)) {
        Some(dt) => Some((chrono::Datelike::year(&dt), chrono::Datelike::month(&dt))),
        None => None,
    }
}

/// Relies on `chrono::DateTime::to_rfc3339` (with `from_timestamp` as
/// above): the rendering depends on the timestamp alone, and it exists
/// exactly when the timestamp has calendar fields at all.
/// `chrono::DateTime::parse_from_rfc3339` reads the rendering back to the
/// same instant, hence to the same UTC year and month, only while the year
/// has four digits: years outside 0–9999 are rendered with a sign and more
/// digits, which the RFC 3339 parser refuses.  The round trip is therefore
/// claimed for years up to 9999 alone (a `u64` timestamp never names a year
/// below 1970).
#[verifier::external_body]
pub fn timestamp_to_rfc3339(ts: u64) -> (r: Option<String>)
    ensures
        r is Some <==> timestamp_year_month(ts) is Some,
        r matches Some(s) ==> s@ == rfc3339_of_timestamp(ts),
        r matches Some(s) ==> ((timestamp_year_month(ts) matches Some(ym) && ym.0 <= 9999)
            ==> rfc3339_year_month(s@) == timestamp_year_month(ts)),
{
    match i64::try_from(ts).ok().and_then(|s| chrono::DateTime::from_timestamp(s, 0)) {
        Some(dt) => Some(dt.to_rfc3339()),
        None => None,
    }
}

/// Calendar months linearized for comparison: later month, larger key.
pub open spec fn spec_month_key(ym: (i32, u32)) -> int {
    ym.0 as int * 12 + ym.1 as int
}

/// The refresh gate on the model: given the stored marker string and the
/// current timestamp, either the go-ahead or the exact error.  A refresh is
/// due only when the current calendar month is strictly later than the
/// stored one — at most one refresh per calendar month, also across year
/// boundaries.
pub open spec fn spec_refresh_gate(stored: Seq<char>, ts: u64) -> Result<(), Error> {
    match (rfc3339_year_month(stored), timestamp_year_month(ts)) {
        (Some(last), Some(now)) => if spec_month_key(now) <= spec_month_key(last) {
            Err(Error::RefreshTooRecent)
        } else {
            Ok(())
        },
        _ => Err(Error::TimestampParseError),
    }
}

/// The verified gate: compares the stored marker's month with the current
/// timestamp's month, exactly as [`spec_refresh_gate`] says.
pub fn refresh_gate(stored: &str, ts: u64) -> (r: Result<(), Error>)
    ensures
        r == spec_refresh_gate(stored@, ts),
{
    let last = parse_year_month(stored);
    let now = year_month_of_timestamp(ts);
    match (last, now) {
        (Some(last), Some(now)) => {
            // i32 years and 1-based months keep the keys well within i64.
            let last_key: i64 = last.0 as i64 * 12 + last.1 as i64;
            let now_key: i64 = now.0 as i64 * 12 + now.1 as i64;
            if now_key <= last_key {
                Err(Error::RefreshTooRecent)
            } else {
                Ok(())
            }
        },
        _ => Err(Error::TimestampParseError),
    }
}

/// Law of the monthly schedule: once a refresh has gone through at
/// timestamp `t1` and its marker is stored, a second attempt in the same
/// calendar month fails with `RefreshTooRecent`, and an attempt in any
/// strictly later calendar month is admitted.  The premise that the stored
/// marker parses back to `t1`'s month is what a successful refresh
/// guarantees while the UTC year has four digits (see
/// [`timestamp_to_rfc3339`]); from year 10000 on the marker does not parse
/// and the next attempt fails with `TimestampParseError` instead.
pub proof fn lemma_refresh_once_per_month(stored: Seq<char>, t1: u64, t2: u64)
    requires
        spec_refresh_gate(stored, t1) == Ok::<(), Error>(()),
        rfc3339_year_month(rfc3339_of_timestamp(t1)) == timestamp_year_month(t1),
        timestamp_year_month(t2) is Some,
    ensures
        spec_month_key(timestamp_year_month(t2).unwrap()) <= spec_month_key(
            timestamp_year_month(t1).unwrap(),
        ) ==> spec_refresh_gate(rfc3339_of_timestamp(t1), t2) == Err::<(), Error>(
            Error::RefreshTooRecent,
        ),
        spec_month_key(timestamp_year_month(t2).unwrap()) > spec_month_key(
            timestamp_year_month(t1).unwrap(),
        ) ==> spec_refresh_gate(rfc3339_of_timestamp(t1), t2) == Ok::<(), Error>(()),
{
}

} // verus!

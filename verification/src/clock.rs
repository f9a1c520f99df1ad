//! The wall clock and RFC 3339 timestamps.
use vstd::prelude::*;

verus! {

/// Whether `chrono::DateTime::parse_from_rfc3339` accepts the text.
pub uninterp spec fn rfc3339_accepts(text: Seq<char>) -> bool;

/// A year written with a leading `+`, as chrono writes years past 9999.
pub open spec fn has_signed_year(text: Seq<char>) -> bool {
    text.len() > 0 && text[0] == '+'
}

/// A time stamp of the form chrono gives the current time: one that
/// `parse_from_rfc3339` accepts or, for a clock past the year 9999, one
/// whose year carries a leading `+`.
pub open spec fn is_clock_stamp(text: Seq<char>) -> bool {
    rfc3339_accepts(text) || has_signed_year(text)
}

/// The current time as `chrono::Utc::now().to_rfc3339()` writes it. Which
/// instant it names depends on the clock and is not described. Its form is
/// stated: chrono writes a year from 0 to 9999 as four digits, and
/// `parse_from_rfc3339` reads back what `to_rfc3339` writes with such a
/// year; a later year is written with a sign, which that parser refuses.
#[verifier::external_body]
pub fn now_rfc3339() -> (r: String)
    ensures
        is_clock_stamp(r@),
{
    chrono::Utc::now().to_rfc3339()
}

/// Parses `text` with `chrono::DateTime::parse_from_rfc3339` and, when that
/// succeeds, gives the milliseconds from that instant to now as
/// `chrono::Utc::now().signed_duration_since(start).num_milliseconds()`.
/// Whether a value comes back is stated; the number depends on the clock and
/// is not described.
#[verifier::external_body]
pub fn millis_since_rfc3339(text: &str) -> (r: Option<i64>)
    ensures
        r is Some == rfc3339_accepts(text@),
{
    match chrono::DateTime::parse_from_rfc3339(text) {
        Ok(start) => Some(chrono::Utc::now().signed_duration_since(start).num_milliseconds()),
        Err(_) => None,
    }
}

} // verus!

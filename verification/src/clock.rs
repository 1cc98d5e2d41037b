//! Timestamps. The library carries `chrono::NaiveDateTime` values through
//! without looking inside them; reading the clock, parsing and formatting are
//! chrono's work, reached through the three functions below, whose contracts
//! are taken on trust.

use chrono::NaiveDateTime;
use vstd::prelude::*;

verus! {

/// Makes `chrono::NaiveDateTime` known to the verifier as an opaque type.
#[verifier::external_type_specification]
#[verifier::external_body]
pub struct ExNaiveDateTime(chrono::NaiveDateTime);

/// The textual form in which timestamps are stored: `2015-09-05 23:56:04`.
pub const DATE_FORMAT: &'static str = "%Y-%m-%d %H:%M:%S";

/// What `chrono::NaiveDateTime::parse_from_str` makes of `text` under the
/// format `format`: `None` where it reports an error.
pub uninterp spec fn parsed_datetime(text: Seq<char>, format: Seq<char>) -> Option<NaiveDateTime>;

/// What `chrono::NaiveDateTime::format` writes for `stamp` under `format`.
pub uninterp spec fn formatted_datetime(stamp: NaiveDateTime, format: Seq<char>) -> Seq<char>;

/// Calls `chrono::NaiveDateTime::parse_from_str`. Trusted: the outcome is a
/// function of the two strings alone, so it is given the name
/// `parsed_datetime`; an error of any kind becomes `None`.
#[verifier::external_body]
pub(crate) fn parse_datetime(text: &str, format: &str) -> (stamp: Option<NaiveDateTime>)
    ensures
        stamp == parsed_datetime(text@, format@),
{
    match NaiveDateTime::parse_from_str(text, format) {
        Ok(stamp) => Some(stamp),
        Err(_) => None,
    }
}

/// Calls `chrono::NaiveDateTime::format` and renders the result. Trusted: the
/// text is a function of the timestamp and the format, named
/// `formatted_datetime`. Rendering an invalid format string panics in chrono,
/// so only the storage format is admitted.
#[verifier::external_body]
pub(crate) fn format_datetime(stamp: &NaiveDateTime, format: &str) -> (text: String)
    requires
        format@ == DATE_FORMAT@,
    ensures
        text@ == formatted_datetime(*stamp, format@),
{
    stamp.format(format).to_string()
}

/// Calls `chrono::Local::now` and takes its `naive_local` reading. Trusted,
/// and nothing is claimed of the value: it depends on the clock and the time
/// zone of the machine.
#[verifier::external_body]
pub(crate) fn local_now() -> NaiveDateTime {
    chrono::Local::now().naive_local()
}

/// A parse result with the current time standing in where there is none.
pub open spec fn stamp_or(parsed: Option<NaiveDateTime>, now: NaiveDateTime) -> NaiveDateTime {
    match parsed {
        Some(stamp) => stamp,
        None => now,
    }
}

/// What a stored timestamp text reads as at the time `now`: the timestamp
/// it spells in the stored form, and `now` where it spells none.
pub open spec fn date_read_at(text: Seq<char>, now: NaiveDateTime) -> NaiveDateTime {
    stamp_or(parsed_datetime(text, DATE_FORMAT@), now)
}

/// Chooses between a parse result and the current time: the parsed value
/// where there is one, `now` otherwise.
pub fn parsed_or_now(parsed: Option<NaiveDateTime>, now: NaiveDateTime) -> (stamp: NaiveDateTime)
    ensures
        stamp == stamp_or(parsed, now),
{
    match parsed {
        Some(stamp) => stamp,
        None => now,
    }
}

/// Reads a stored timestamp at the time `now`. A malformed text is not an
/// error: `now` stands in for it.
pub fn parse_date_string_at(date_str: &str, now: NaiveDateTime) -> (stamp: NaiveDateTime)
    ensures
        stamp == date_read_at(date_str@, now),
{
    parsed_or_now(parse_datetime(date_str, DATE_FORMAT), now)
}

/// Reads a stored timestamp. A malformed text is not an error: the current
/// local time stands in for it.
pub fn parse_date_string(date_str: &str) -> (stamp: NaiveDateTime)
    ensures
        exists|now: NaiveDateTime| stamp == date_read_at(date_str@, now),
        parsed_datetime(date_str@, DATE_FORMAT@) matches Some(parsed) ==> stamp == parsed,
{
    let now = local_now();
    let stamp = parse_date_string_at(date_str, now);
    proof {
        assert(stamp == date_read_at(date_str@, now));
    }
    stamp
}

} // verus!

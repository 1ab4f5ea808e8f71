//! Instants of audit rows (UTC) and their RFC 3339 text.

use vstd::prelude::*;

verus! {

/// The first second that a UTC date-time can hold (1 January of year -262143).
pub const MIN_UTC_SECS: i64 = -8334601315200;

/// The last second that a UTC date-time can hold (31 December of year 262142).
pub const MAX_UTC_SECS: i64 = 8210266876799;

/// 0000-01-01T00:00:00Z.
pub const FIRST_FOUR_DIGIT_YEAR_SECS: i64 = -62167219200;

/// 9999-12-31T23:59:59Z.
pub const LAST_FOUR_DIGIT_YEAR_SECS: i64 = 253402300799;

/// An instant in UTC: seconds since 1970-01-01T00:00:00Z, without leap seconds,
/// and the nanoseconds within that second. A leap second is written as
/// `nanos` of a billion or more within the last second of a minute.
#[derive(Debug, Clone, Copy, PartialEq, Eq, PartialOrd, Ord, Hash)]
pub struct Timestamp {
    pub secs: i64,
    pub nanos: u32,
}

impl Timestamp {
    /// The instant is one that a UTC date-time can hold.
    pub open spec fn wf(self) -> bool {
        &&& MIN_UTC_SECS <= self.secs <= MAX_UTC_SECS
        &&& self.nanos < 2_000_000_000
        &&& self.nanos >= 1_000_000_000 ==> (self.secs as int) % 60 == 59
    }

    /// The instant falls in a year written with four digits (0000 to 9999).
    pub open spec fn in_four_digit_years(self) -> bool {
        FIRST_FOUR_DIGIT_YEAR_SECS <= self.secs <= LAST_FOUR_DIGIT_YEAR_SECS
    }

    /// The instant with the given parts, if a UTC date-time can hold it.
    pub fn from_parts(secs: i64, nanos: u32) -> (r: Option<Timestamp>)
        ensures
            match r {
                Some(t) => t.wf() && t.secs == secs && t.nanos == nanos,
                None => !(Timestamp { secs, nanos }).wf(),
            },
            (MIN_UTC_SECS <= secs <= MAX_UTC_SECS && nanos < 1_000_000_000) ==> r == Some(
                Timestamp { secs, nanos },
            ),
            (MIN_UTC_SECS <= secs <= MAX_UTC_SECS && nanos < 2_000_000_000 && (secs as int) % 60
                == 59) ==> r == Some(Timestamp { secs, nanos }),
            r is None ==> {
                ||| secs < MIN_UTC_SECS
                ||| secs > MAX_UTC_SECS
                ||| nanos >= 2_000_000_000
                ||| (nanos >= 1_000_000_000 && (secs as int) % 60 != 59)
            },
    {
        if secs < MIN_UTC_SECS || secs > MAX_UTC_SECS || nanos >= 2_000_000_000 {
            None
        } else if nanos >= 1_000_000_000 && secs % 60 != 59 && secs % 60 != -1 {
            None
        } else {
            Some(Timestamp { secs, nanos })
        }
    }
}

/// Every instant of the UTC range that is not a leap second is a valid
/// timestamp, whatever its fraction of a second.
pub proof fn lemma_instants_in_range_are_valid(secs: i64, nanos: u32)
    requires
        MIN_UTC_SECS <= secs <= MAX_UTC_SECS,
        nanos < 1_000_000_000,
    ensures
        (Timestamp { secs, nanos }).wf(),
{
}

/// A leap second (a second billion nanoseconds or more) is valid in the last
/// second of a minute, anywhere in the UTC range.
pub proof fn lemma_leap_seconds_end_a_minute(secs: i64, nanos: u32)
    requires
        MIN_UTC_SECS <= secs <= MAX_UTC_SECS,
        1_000_000_000 <= nanos < 2_000_000_000,
        (secs as int) % 60 == 59,
    ensures
        (Timestamp { secs, nanos }).wf(),
{
}

/// A timestamp is refused only outside the UTC range, with two seconds' worth
/// of nanoseconds or more, or with a leap second that does not end a minute.
pub proof fn lemma_invalid_timestamps(t: Timestamp)
    ensures
        !t.wf() <==> {
            ||| t.secs < MIN_UTC_SECS
            ||| t.secs > MAX_UTC_SECS
            ||| t.nanos >= 2_000_000_000
            ||| (t.nanos >= 1_000_000_000 && (t.secs as int) % 60 != 59)
        },
{
}

/// The text that `chrono` writes for the UTC instant `(secs, nanos)` with
/// `DateTime::to_rfc3339`.
pub uninterp spec fn rfc3339_text(secs: i64, nanos: u32) -> Seq<char>;

/// The instant that `chrono::DateTime::parse_from_rfc3339` reads from a text,
/// as (seconds since the epoch, nanoseconds), or `None` where it refuses the text.
pub uninterp spec fn rfc3339_instant(text: Seq<char>) -> Option<(i64, u32)>;

/// `chrono::DateTime::parse_from_rfc3339`, its result taken as a UTC instant
/// (`timestamp`, `timestamp_subsec_nanos`). The contract claims that the result
/// is the named `rfc3339_instant` of the text, and that any instant read is one
/// that a UTC date-time holds (offsets are whole minutes, so a leap second stays
/// in the last second of a minute).
#[verifier::external_body]
pub(crate) fn parse_rfc3339(text: &str) -> (r: Result<Timestamp, chrono::ParseError>)
    ensures
        match r {
            Ok(t) => rfc3339_instant(text@) == Some((t.secs, t.nanos)) && t.wf(),
            Err(_) => rfc3339_instant(text@) is None,
        },
{
    match chrono::DateTime::parse_from_rfc3339(text) {
        Ok(dt) => Ok(Timestamp { secs: dt.timestamp(), nanos: dt.timestamp_subsec_nanos() }),
        Err(e) => Err(e),
    }
}

/// `chrono::DateTime::<Utc>::to_rfc3339` of the instant built by
/// `DateTime::from_timestamp`. The contract claims that the text is the named
/// `rfc3339_text`, and that where the year has four digits the RFC 3339 parser
/// reads the same instant back: the text is `YYYY-MM-DDTHH:MM:SS`, an exact
/// fraction of 3, 6 or 9 digits where the nanoseconds are not zero (a leap
/// second written as second 60), and `+00:00`. Other years are written with a
/// sign and five or more digits, which the parser refuses; of them nothing is
/// claimed.
#[verifier::external_body]
pub(crate) fn format_rfc3339(t: &Timestamp) -> (text: String)
    requires
        t.wf(),
    ensures
        text@ == rfc3339_text(t.secs, t.nanos),
        t.in_four_digit_years() ==> rfc3339_instant(text@) == Some((t.secs, t.nanos)),
{
    match chrono::DateTime::from_timestamp(t.secs, t.nanos) {
        Some(dt) => dt.to_rfc3339(),
        None => String::new(),
    }
}

} // verus!

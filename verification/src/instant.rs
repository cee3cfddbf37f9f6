//! Points in time, as `chrono::DateTime<Utc>` holds them: seconds since the
//! Unix epoch and nanoseconds within the second.  Only instants that chrono
//! can represent exist; reading and writing text goes through chrono.
use chrono::{DateTime, Utc};
use vstd::prelude::*;

verus! {

/// First and last second that chrono can represent: the start of
/// 1 January of the year -262143 and the last second of 31 December of
/// the year 262142.
pub const FIRST_REPRESENTABLE_SECOND: i64 = -8334601228800;
pub const LAST_REPRESENTABLE_SECOND: i64 = 8210266876799;

/// Whether `DateTime::<Utc>::from_timestamp(secs, nanos)` gives a date and
/// time (and not `None`): the day lies in chrono's range of years, and the
/// nanoseconds are below two seconds, reaching a second or more only in a
/// leap second, which follows second 59 of a minute.
pub open spec fn utc_timestamp_valid(secs: i64, nanos: u32) -> bool {
    &&& FIRST_REPRESENTABLE_SECOND <= secs <= LAST_REPRESENTABLE_SECOND
    &&& nanos < 2_000_000_000
    &&& nanos >= 1_000_000_000 ==> secs % 60 == 59
}

/// What `DateTime::<Utc>::to_rfc3339` writes for a representable instant.
pub uninterp spec fn utc_rfc3339(secs: i64, nanos: u32) -> Seq<char>;

/// What `DateTime::<Utc>::format("%Y-%m-%d %H:%M:%S UTC")` writes for a
/// representable instant.
pub uninterp spec fn utc_plain_text(secs: i64, nanos: u32) -> Seq<char>;

/// What `DateTime::parse_from_rfc3339` followed by a conversion to UTC gives
/// for a text: the instant's seconds and nanoseconds, or the text of the error.
pub uninterp spec fn rfc3339_parse(s: Seq<char>) -> Result<(i64, u32), Seq<char>>;

/// Checks an instant with `DateTime::<Utc>::from_timestamp`.
/// Trusted: `from_timestamp` gives `Some` exactly on the instants
/// `utc_timestamp_valid` describes (its day number goes through
/// `NaiveDate::from_num_days_from_ce_opt`, which keeps the years
/// -262143 to 262142, and its second of the day and nanoseconds through
/// `NaiveTime::from_num_seconds_from_midnight_opt`).
#[verifier::external_body]
fn timestamp_is_valid(secs: i64, nanos: u32) -> (r: bool)
    ensures
        r == utc_timestamp_valid(secs, nanos),
{
    DateTime::<Utc>::from_timestamp(secs, nanos).is_some()
}

/// First second of the year 0 and last second of the year 9999: the
/// instants whose year RFC 3339 writes with four digits.
pub const FIRST_FOUR_DIGIT_SECOND: i64 = -62167219200;
pub const LAST_FOUR_DIGIT_SECOND: i64 = 253402300799;

/// An instant of the years 0 to 9999 (a leap second, written `:60`, among
/// them).
pub open spec fn four_digit_year(secs: i64) -> bool {
    FIRST_FOUR_DIGIT_SECOND <= secs <= LAST_FOUR_DIGIT_SECOND
}

/// `parse_from_rfc3339` reads the text back as the instant.
pub open spec fn rfc3339_reads_back(s: Seq<char>, secs: i64, nanos: u32) -> bool {
    rfc3339_parse(s) matches Ok(v) && v == (secs, nanos)
}

/// Writes a representable instant with `to_rfc3339`.
/// Trusted: the text is what `to_rfc3339` writes; for an instant of the
/// years 0 to 9999, `parse_from_rfc3339` reads it back as the same instant
/// (four-digit year, every digit of the fraction kept, offset `+00:00`; a
/// leap second, held as second 59 with a fraction of a second or more, is
/// written as second 60 and read back as second 59 with the same fraction).
#[verifier::external_body]
fn format_rfc3339(secs: i64, nanos: u32) -> (r: String)
    requires
        utc_timestamp_valid(secs, nanos),
    ensures
        r@ == utc_rfc3339(secs, nanos),
        four_digit_year(secs) ==> rfc3339_reads_back(r@, secs, nanos),
{
    DateTime::<Utc>::from_timestamp(secs, nanos).unwrap_or_default().to_rfc3339()
}

/// Writes a representable instant as `2024-01-31 12:00:00 UTC`.
/// Trusted: the text is what `format("%Y-%m-%d %H:%M:%S UTC")` writes.
#[verifier::external_body]
fn format_plain(secs: i64, nanos: u32) -> (r: String)
    requires
        utc_timestamp_valid(secs, nanos),
    ensures
        r@ == utc_plain_text(secs, nanos),
{
    DateTime::<Utc>::from_timestamp(secs, nanos).unwrap_or_default().format("%Y-%m-%d %H:%M:%S UTC").to_string()
}

/// Reads an RFC 3339 text with `DateTime::parse_from_rfc3339` and converts
/// it to UTC.
/// Trusted: the result is what chrono gives (its error as text); the instant
/// it gives is one that `from_timestamp` accepts again.
#[verifier::external_body]
fn parse_rfc3339_text(s: &str) -> (r: Result<(i64, u32), String>)
    ensures
        match r {
            Ok(p) => rfc3339_parse(s@) matches Ok(v) && v == p && utc_timestamp_valid(p.0, p.1),
            Err(e) => rfc3339_parse(s@) matches Err(m) && m == e@,
        },
{
    match DateTime::parse_from_rfc3339(s) {
        Ok(dt) => {
            let utc = dt.with_timezone(&Utc);
            Ok((utc.timestamp(), utc.timestamp_subsec_nanos()))
        },
        Err(e) => Err(e.to_string()),
    }
}

/// A point in time that chrono can represent.
#[derive(Clone, Copy, Debug, PartialEq, Eq, Structural)]
pub struct Instant {
    secs: i64,
    nanos: u32,
}

impl Instant {
    #[verifier::type_invariant]
    spec fn inv(self) -> bool {
        utc_timestamp_valid(self.secs, self.nanos)
    }

    /// Seconds since 1970-01-01 00:00:00 UTC.
    pub closed spec fn spec_secs(self) -> i64 {
        self.secs
    }

    /// Nanoseconds within the second.
    pub closed spec fn spec_nanos(self) -> u32 {
        self.nanos
    }

    /// The instant `secs` seconds and `nanos` nanoseconds after the epoch,
    /// or `None` where chrono cannot represent it.
    pub fn new(secs: i64, nanos: u32) -> (r: Option<Instant>)
        ensures
            r is Some <==> utc_timestamp_valid(secs, nanos),
            r matches Some(t) ==> t.spec_secs() == secs && t.spec_nanos() == nanos,
    {
        if timestamp_is_valid(secs, nanos) {
            Some(Instant { secs, nanos })
        } else {
            None
        }
    }

    pub fn secs(&self) -> (r: i64)
        ensures
            r == self.spec_secs(),
    {
        self.secs
    }

    pub fn nanos(&self) -> (r: u32)
        ensures
            r == self.spec_nanos(),
    {
        self.nanos
    }

    /// The RFC 3339 text of the instant (`to_rfc3339`).
    pub fn to_rfc3339(&self) -> (r: String)
        ensures
            r@ == utc_rfc3339(self.spec_secs(), self.spec_nanos()),
            four_digit_year(self.spec_secs()) ==> rfc3339_reads_back(
                r@,
                self.spec_secs(),
                self.spec_nanos(),
            ),
    {
        proof {
            use_type_invariant(self);
        }
        format_rfc3339(self.secs, self.nanos)
    }

    /// The instant as `2024-01-31 12:00:00 UTC`.
    pub fn to_plain_text(&self) -> (r: String)
        ensures
            r@ == utc_plain_text(self.spec_secs(), self.spec_nanos()),
    {
        proof {
            use_type_invariant(self);
        }
        format_plain(self.secs, self.nanos)
    }

    /// Reads an RFC 3339 text (any offset) as an instant.
    pub fn parse_rfc3339(s: &str) -> (r: Result<Instant, String>)
        ensures
            match r {
                Ok(t) => rfc3339_parse(s@) matches Ok(v) && v == (t.spec_secs(), t.spec_nanos()),
                Err(e) => rfc3339_parse(s@) matches Err(m) && m == e@,
            },
    {
        match parse_rfc3339_text(s) {
            Ok(p) => Ok(Instant { secs: p.0, nanos: p.1 }),
            Err(e) => Err(e),
        }
    }
}

} // verus!

//! The library's trusted boundary: named results and thin wrappers for
//! the outside calls the timezone layer needs — RFC 3339 parsing and the
//! IANA timezone database — plus host-timezone detection. Every proof
//! about timestamps rests on the contracts stated here.

use vstd::prelude::*;

verus! {

/// What `chrono`'s RFC 3339 parser makes of a string: `Some` of the
/// parsed instant as Unix seconds (sub-second digits truncated) when the
/// string is well-formed, `None` otherwise. A function of the string
/// alone.
pub uninterp spec fn rfc3339_secs(s: Seq<char>) -> Option<int>;

/// Whether a string is an IANA timezone identifier accepted by the
/// timezone database (an exact, case-sensitive name such as
/// `America/New_York`). A function of the string alone.
pub uninterp spec fn iana_valid(s: Seq<char>) -> bool;

/// The UTC offset, in seconds, that the named timezone's rules give to
/// the instant `t` (Unix seconds). A function of the name and the
/// instant alone.
pub uninterp spec fn tz_offset(name: Seq<char>, t: int) -> int;

/// Relies on `chrono::DateTime::parse_from_rfc3339`: parses an RFC 3339
/// string, or fails on any other shape; the instant of any parsed value
/// lies within chrono's representable range of about ±262,000 years
/// (well under 8.4e12 seconds from the epoch).
#[verifier::external_body]
pub(crate) fn parse_rfc3339_secs(s: &str) -> (r: Option<i64>)
    ensures
        r is Some <==> rfc3339_secs(s@) is Some,
        r matches Some(t) ==> rfc3339_secs(s@) == Some(t as int) && -8_400_000_000_000 < t
            < 8_400_000_000_000,
{
    match chrono::DateTime::parse_from_rfc3339(s) {
        Ok(dt) => Some(dt.with_timezone(&chrono::Utc).timestamp()),
        Err(_) => None,
    }
}

/// Relies on `chrono_tz::Tz`'s `FromStr`: an exact lookup of the name in
/// the compiled timezone table.
#[verifier::external_body]
pub(crate) fn tz_name_is_valid(s: &str) -> (r: bool)
    ensures
        r == iana_valid(s@),
{
    s.parse::<chrono_tz::Tz>().is_ok()
}

/// Relies on `chrono_tz`'s `offset_from_utc_datetime`: every instant
/// falls in exactly one timespan of the named zone, whose total offset
/// is a fixed offset strictly within a day; the `UTC` zone's offset is
/// zero at every instant. Instants outside chrono's representable range
/// are treated as offset zero.
#[verifier::external_body]
pub(crate) fn tz_utc_offset(name: &str, secs: i64) -> (r: i32)
    requires
        iana_valid(name@) || name@ == "UTC"@,
    ensures
        r as int == tz_offset(name@, secs as int),
        -86_400 < r < 86_400,
        name@ == "UTC"@ ==> r == 0,
{
    match name.parse::<chrono_tz::Tz>() {
        Ok(tz) => match chrono::DateTime::from_timestamp(secs, 0) {
            Some(dt) => chrono::Offset::fix(
                &chrono::TimeZone::offset_from_utc_datetime(&tz, &dt.naive_utc()),
            ).local_minus_utc(),
            None => 0,
        },
        Err(_) => 0,
    }
}

/// Whether a character has the Unicode white-space property, as the
/// standard library's `char::is_whitespace` decides it. A function of
/// the character alone.
pub uninterp spec fn is_unicode_ws(c: char) -> bool;

/// Relies on `char::is_whitespace`: the Unicode White_Space property.
#[verifier::external_body]
pub(crate) fn char_is_whitespace(c: char) -> (r: bool)
    ensures
        r == is_unicode_ws(c),
{
    c.is_whitespace()
}

/// Relies on `iana_time_zone::get_timezone`: reports the host's
/// configured timezone name, or fails. The result depends on the
/// machine, so nothing is stated beyond the shape.
#[verifier::external_body]
pub(crate) fn system_timezone_name() -> (r: Option<String>)
{
    iana_time_zone::get_timezone().ok()
}

} // verus!

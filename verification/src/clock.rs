//! Instants as RFC 3339 text, through the `time` crate.
use time::format_description::well_known::Rfc3339;
use time::OffsetDateTime;
use vstd::prelude::*;

verus! {

/// The RFC 3339 text that `time` writes for the UTC instant `unix_nanos`
/// nanoseconds after the Unix epoch.
pub uninterp spec fn rfc3339_text(unix_nanos: i128) -> Seq<char>;

/// The instant, in nanoseconds after the Unix epoch, of the RFC 3339 text that
/// `time` reads from `text`, when it reads one.
pub uninterp spec fn rfc3339_instant(text: Seq<char>) -> Option<i128>;

/// The instants that RFC 3339 can write in UTC: the years 0 to 9999.
pub open spec fn rfc3339_writable(unix_nanos: i128) -> bool {
    -62_167_219_200_000_000_000i128 <= unix_nanos < 253_402_300_800_000_000_000i128
}

/// Calls `OffsetDateTime::from_unix_timestamp_nanos` and then
/// `OffsetDateTime::format` with `Rfc3339`. The `time` source writes UTC dates
/// and fails exactly when the year lies outside 0 to 9999; what text it writes
/// is named, not spelled out.
#[verifier::external_body]
pub(crate) fn format_rfc3339(unix_nanos: i128) -> (r: Option<String>)
    ensures
        r is Some <==> rfc3339_writable(unix_nanos),
        r matches Some(s) ==> s@ == rfc3339_text(unix_nanos),
{
    match OffsetDateTime::from_unix_timestamp_nanos(unix_nanos) {
        Ok(date) => match date.format(&Rfc3339) {
            Ok(text) => Some(text),
            Err(_) => None,
        },
        Err(_) => None,
    }
}

/// Calls `OffsetDateTime::parse` with `Rfc3339` and reads the instant back with
/// `unix_timestamp_nanos`, by which `time` orders dates. Which texts are read,
/// and as which instant, is named, not spelled out.
#[verifier::external_body]
pub(crate) fn parse_rfc3339(text: &str) -> (r: Option<i128>)
    ensures
        r == rfc3339_instant(text@),
{
    match OffsetDateTime::parse(text, &Rfc3339) {
        Ok(date) => Some(date.unix_timestamp_nanos()),
        Err(_) => None,
    }
}

} // verus!

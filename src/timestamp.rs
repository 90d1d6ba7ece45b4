use vstd::prelude::*;

verus! {

/// The RFC 3339 text (UTC, milliseconds, `Z` suffix) of the instant `nanos`
/// nanoseconds after the Unix epoch.
pub uninterp spec fn rfc3339_millis_of(nanos: i64) -> Seq<char>;

/// Relies on chrono's `DateTime::from_timestamp_nanos` and
/// `to_rfc3339_opts(SecondsFormat::Millis, true)`: the text of an instant,
/// which depends on the instant alone. Neither call panics on an `i64`.
#[verifier::external_body]
pub(crate) fn format_timestamp(nanos: i64) -> (r: String)
    ensures
        r@ == rfc3339_millis_of(nanos),
{
    chrono::DateTime::from_timestamp_nanos(nanos).to_rfc3339_opts(chrono::SecondsFormat::Millis, true)
}

/// The instant, in nanoseconds after the Unix epoch, that an event timestamp
/// such as `2020-04-06T10:48:55.011800-0600` denotes, if it is well formed
/// and in range.
pub uninterp spec fn eve_timestamp_nanos(s: Seq<char>) -> Option<i64>;

/// Relies on chrono's `DateTime::parse_from_str` with the format
/// `%Y-%m-%dT%H:%M:%S%.f%z` and on `DateTime::timestamp_nanos_opt`: the
/// result depends on the text alone.
#[verifier::external_body]
pub(crate) fn parse_eve_timestamp(s: &str) -> (r: Option<i64>)
    ensures
        r == eve_timestamp_nanos(s@),
{
    match chrono::DateTime::parse_from_str(s, "%Y-%m-%dT%H:%M:%S%.f%z") {
        Ok(dt) => dt.timestamp_nanos_opt(),
        Err(_) => None,
    }
}

/// The RFC 3339 text of the instant `nanos` nanoseconds after the Unix
/// epoch, when that instant can be represented.
pub uninterp spec fn rfc3339_of_unix_nanos(nanos: i128) -> Option<Seq<char>>;

/// Relies on time's `OffsetDateTime::from_unix_timestamp_nanos` and
/// `OffsetDateTime::format` with `Rfc3339`: the text of an instant, or an
/// error for an instant out of range.
#[verifier::external_body]
pub(crate) fn nanos_to_rfc3339(nanos: i128) -> (r: Option<String>)
    ensures
        match r {
            Some(t) => rfc3339_of_unix_nanos(nanos) == Some(t@),
            None => rfc3339_of_unix_nanos(nanos) is None,
        },
{
    match time::OffsetDateTime::from_unix_timestamp_nanos(nanos) {
        Ok(ts) => ts.format(&time::format_description::well_known::Rfc3339).ok(),
        Err(_) => None,
    }
}

} // verus!

//! Reading and writing RFC 3339 timestamps, and the local clock.
//!
//! All three are done by `chrono`. Nothing in this file is proved: each
//! function states what the rest of the crate takes on trust.

use crate::moment::{BuildMoment, MomentView};
use vstd::prelude::*;

verus! {

/// `chrono`'s parse error. Its inside is not visible here; it is carried to
/// whoever reports it.
#[verifier::external_type_specification]
#[verifier::external_body]
pub struct ExParseError(chrono::format::ParseError);

/// The moment that `chrono::DateTime::parse_from_rfc3339` reads from `text`,
/// or `None` where it rejects `text`.
pub uninterp spec fn rfc3339_moment(text: Seq<char>) -> Option<MomentView>;

/// The text that `chrono::DateTime::to_rfc3339` writes for `moment`.
pub uninterp spec fn rfc3339_text(moment: MomentView) -> Seq<char>;

/// Whether `c` can stand in a written timestamp: a decimal digit, a sign, a
/// colon, a full stop, or the letter `T`. The letter `Z` cannot: an offset
/// of zero is written out like any other.
pub open spec fn is_timestamp_char(c: char) -> bool {
    ('0' <= c && c <= '9') || c == '+' || c == '-' || c == ':' || c == '.' || c == 'T'
}

/// Whether `text` is made of the characters of written timestamps alone.
pub open spec fn is_timestamp_text(text: Seq<char>) -> bool {
    forall|i: int| 0 <= i < text.len() ==> is_timestamp_char(#[trigger] text[i])
}

/// Calls `chrono::DateTime::parse_from_rfc3339`.
///
/// Taken on trust: the outcome depends on `text` alone, so it has a name,
/// and a moment that comes out is representable. The moment is handed over
/// as the numbers that `DateTime::timestamp`,
/// `DateTime::timestamp_subsec_nanos` and `FixedOffset::local_minus_utc`
/// report for it; the error is handed over as it is.
#[verifier::external_body]
pub(crate) fn parse_rfc3339(text: &str) -> (parsed: Result<BuildMoment, chrono::format::ParseError>)
    ensures
        parsed matches Ok(moment) ==> rfc3339_moment(text@) == Some(moment@)
            && moment@.representable(),
        parsed is Err ==> rfc3339_moment(text@) is None,
{
    match chrono::DateTime::parse_from_rfc3339(text) {
        Ok(read) => Ok(
            BuildMoment {
                utc_seconds: read.timestamp(),
                subsec_nanos: read.timestamp_subsec_nanos(),
                offset_seconds: read.offset().local_minus_utc(),
            },
        ),
        Err(error) => Err(error),
    }
}

/// Calls `chrono::DateTime::to_rfc3339` on the `chrono` value rebuilt from
/// `moment`.
///
/// Taken on trust: the text depends on `moment` alone, so it has a name; it
/// is made of digits, signs, colons, full stops and the letter `T`; and it
/// holds a full stop, before the fraction of a second, exactly where the
/// moment has such a fraction. The value is rebuilt with
/// `DateTime::from_timestamp`, `FixedOffset::east_opt` and
/// `DateTime::with_timezone`; the first two accept the numbers of every
/// representable moment, so neither `unwrap` panics.
#[verifier::external_body]
pub(crate) fn write_rfc3339(moment: &BuildMoment) -> (text: String)
    requires
        moment@.representable(),
    ensures
        text@ == rfc3339_text(moment@),
        is_timestamp_text(text@),
        text@.contains('.') == moment@.has_fraction(),
{
    let instant = chrono::DateTime::from_timestamp(moment.utc_seconds, moment.subsec_nanos).unwrap();
    let offset = chrono::FixedOffset::east_opt(moment.offset_seconds).unwrap();
    instant.with_timezone(&offset).to_rfc3339()
}

/// Calls `chrono::Local::now` and fixes the offset that the host has at
/// that instant, with `DateTime::with_timezone`.
///
/// Taken on trust: whatever the clock reads, the moment is representable.
/// Two calls may differ. Where the host's clock or time zone cannot be read
/// as a time (a clock set before 1970, for one) `chrono` panics: a build on
/// such a host stops here.
#[verifier::external_body]
pub(crate) fn local_now() -> (now: BuildMoment)
    ensures
        now@.representable(),
{
    let local = chrono::Local::now();
    let fixed = local.with_timezone(local.offset());
    BuildMoment {
        utc_seconds: fixed.timestamp(),
        subsec_nanos: fixed.timestamp_subsec_nanos(),
        offset_seconds: fixed.offset().local_minus_utc(),
    }
}

} // verus!

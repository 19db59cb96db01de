//! The record timestamp: the current instant, rendered as RFC 3339 text in
//! UTC by the `time` crate behind trusted declarations.

use vstd::prelude::*;

verus! {

/// A character the RFC 3339 rendering can contain: a decimal digit or one
/// of the format's punctuation marks.
pub open spec fn rfc3339_char(c: char) -> bool {
    ('0' <= c && c <= '9') || c == '-' || c == ':' || c == 'T' || c == '.' || c == 'Z' || c == '+'
}

/// Text drawn entirely from the RFC 3339 alphabet, long enough for a full
/// date and time.
pub open spec fn rfc3339_text(s: Seq<char>) -> bool {
    s.len() >= 20 && forall|i: int| 0 <= i < s.len() ==> rfc3339_char(#[trigger] s[i])
}

#[verifier::external_type_specification]
#[verifier::external_body]
pub struct ExOffsetDateTime(time::OffsetDateTime);

#[verifier::external_type_specification]
#[verifier::external_body]
pub struct ExFormatError(time::error::Format);

/// Relies on `time::OffsetDateTime::now_utc`: the current instant, carrying
/// the UTC offset. Nothing can be promised of a clock reading.
#[verifier::external_body]
pub(crate) fn now_utc() -> time::OffsetDateTime {
    time::OffsetDateTime::now_utc()
}

/// Relies on `time`'s RFC 3339 formatter (`OffsetDateTime::format` with the
/// `Rfc3339` description): on success it has written date, `T`, time, an
/// optional fraction and the offset (`Z` when UTC), at least twenty
/// characters, every one a digit or RFC 3339 punctuation. It fails on
/// years outside `0..10000` and on offsets RFC 3339 cannot carry.
#[verifier::external_body]
pub(crate) fn format_rfc3339(t: time::OffsetDateTime) -> (r: Result<
    String,
    time::error::Format,
>)
    ensures
        r matches Ok(s) ==> rfc3339_text(s@),
{
    t.format(&time::format_description::well_known::Rfc3339)
}

} // verus!

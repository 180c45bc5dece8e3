//! Points in time.

use crate::lines::is_space;
use crate::text::opt_text;
use vstd::prelude::*;

verus! {

/// A point in time with an offset from UTC.
#[derive(Debug, Clone, Copy, PartialEq, Eq, Structural)]
pub struct Timestamp {
    /// Nanoseconds since 1970-01-01T00:00:00Z.
    pub unix_nanos: i128,
    /// Offset from UTC in seconds, positive to the east.
    pub offset_seconds: i32,
}

/// What `time::OffsetDateTime::parse` makes of an RFC 3339 text: the
/// nanoseconds since the epoch and the offset in seconds, or the error's text.
pub uninterp spec fn rfc3339_reading(s: Seq<char>) -> Result<(int, int), Seq<char>>;

/// What `time::OffsetDateTime::format` writes in RFC 3339 for a number of
/// nanoseconds since the epoch and an offset in seconds; nothing where there
/// is no such text.
pub uninterp spec fn rfc3339_writing(unix_nanos: int, offset_seconds: int) -> Option<Seq<char>>;

/// A reading that gives this point in time.
pub open spec fn read_as(t: Timestamp) -> Result<(int, int), Seq<char>> {
    Ok((t.unix_nanos as int, t.offset_seconds as int))
}

/// A reading that fails with this text.
pub open spec fn failed_with(text: Seq<char>) -> Result<(int, int), Seq<char>> {
    Err(text)
}

/// Whether a text holds no white space.
pub open spec fn spaceless(s: Seq<char>) -> bool {
    forall|i: int| 0 <= i < s.len() ==> !is_space(#[trigger] s[i])
}

/// `time::OffsetDateTime::parse` with `Rfc3339`. The result is a function of
/// the text alone.
#[verifier::external_body]
pub(crate) fn parse_rfc3339(s: &str) -> (r: Result<Timestamp, String>)
    ensures
        match r {
            Ok(t) => rfc3339_reading(s@) == read_as(t),
            Err(text) => rfc3339_reading(s@) == failed_with(text@),
        },
{
    match time::OffsetDateTime::parse(s, &time::format_description::well_known::Rfc3339) {
        Ok(t) => Ok(Timestamp {
            unix_nanos: t.unix_timestamp_nanos(),
            offset_seconds: t.offset().whole_seconds(),
        }),
        Err(e) => Err(e.to_string()),
    }
}

/// `time::OffsetDateTime::format` with `Rfc3339`. The text, where there is one,
/// holds no white space, and parsing it gives the same nanoseconds and offset
/// back: every component is written in full, and nothing of the subsecond is
/// cut off.
#[verifier::external_body]
pub(crate) fn format_rfc3339(t: Timestamp) -> (r: Option<String>)
    ensures
        opt_text(r) == rfc3339_writing(t.unix_nanos as int, t.offset_seconds as int),
        r is Some ==> rfc3339_reading(r->0@) == read_as(t),
        r is Some ==> spaceless(r->0@),
{
    let offset = time::UtcOffset::from_whole_seconds(t.offset_seconds).ok()?;
    let utc = time::OffsetDateTime::from_unix_timestamp_nanos(t.unix_nanos).ok()?;
    let local = utc.checked_to_offset(offset)?;
    local.format(&time::format_description::well_known::Rfc3339).ok()
}

impl Timestamp {
    /// Writes the point in time in RFC 3339, where it has such a text. The text
    /// reads back as this point in time.
    pub fn to_rfc3339(self) -> (r: Option<String>)
        ensures
            opt_text(r) == rfc3339_writing(self.unix_nanos as int, self.offset_seconds as int),
            r is Some ==> rfc3339_reading(r->0@) == read_as(self),
            r is Some ==> spaceless(r->0@),
    {
        format_rfc3339(self)
    }
}

} // verus!

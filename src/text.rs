//! Small text rules: blank labels and timestamps.
use vstd::prelude::*;

verus! {

/// Unicode's White_Space characters.
pub open spec fn is_white_space(c: char) -> bool {
    ('\u{9}' <= c && c <= '\u{d}') || c == ' ' || c == '\u{85}' || c == '\u{a0}' || c == '\u{1680}'
        || ('\u{2000}' <= c && c <= '\u{200a}') || c == '\u{2028}' || c == '\u{2029}' || c
        == '\u{202f}' || c == '\u{205f}' || c == '\u{3000}'
}

/// Text that is empty once surrounding white space is trimmed.
pub open spec fn is_blank(s: Seq<char>) -> bool {
    forall|i: int| 0 <= i < s.len() ==> is_white_space(#[trigger] s[i])
}

/// Relies on `char::is_whitespace`: true exactly for characters with the
/// Unicode White_Space property.
#[verifier::external_body]
fn white_space(c: char) -> (r: bool)
    ensures
        r == is_white_space(c),
{
    c.is_whitespace()
}

/// Whether the text is empty or white space only.
pub fn blank(s: &str) -> (r: bool)
    ensures
        r == is_blank(s@),
{
    let mut all = true;
    for c in it: s.chars()
        invariant
            it.seq() == s@,
            it.index() <= s@.len(),
            all == (forall|i: int| 0 <= i < it.index() ==> is_white_space(#[trigger] s@[i])),
    {
        let ghost k = it.index();
        assert(s@[k as int] == c);
        if !white_space(c) {
            all = false;
        }
    }
    all
}

/// An instant written in RFC 3339, given in seconds since the Unix epoch.
pub uninterp spec fn rfc3339_of(unix_seconds: int) -> Seq<char>;

/// The first second of the year 0 in UTC, in seconds since the Unix epoch.
pub const FIRST_RFC3339_SECOND: i64 = -62_167_219_200;

/// The last second of the year 9999 in UTC, in seconds since the Unix epoch.
pub const LAST_RFC3339_SECOND: i64 = 253_402_300_799;

/// Relies on the time crate's `OffsetDateTime::from_unix_timestamp` and its
/// RFC 3339 formatting: the instant in UTC. Both succeed for every instant of
/// the years 0 to 9999, the range RFC 3339 can write.
#[verifier::external_body]
pub(crate) fn format_rfc3339(unix_seconds: i64) -> (r: Option<String>)
    ensures
        FIRST_RFC3339_SECOND <= unix_seconds <= LAST_RFC3339_SECOND ==> r is Some,
        r matches Some(s) ==> s@ == rfc3339_of(unix_seconds as int),
{
    match time::OffsetDateTime::from_unix_timestamp(unix_seconds) {
        Ok(t) => t.format(&time::format_description::well_known::Rfc3339).ok(),
        Err(_) => None,
    }
}

} // verus!

//! Points in time, and how the end of a window is read.

use vstd::prelude::*;

verus! {

/// A point in time as `chrono` reports one: the seconds since the Unix
/// epoch in UTC, and the nanoseconds past them. In a leap second the
/// nanoseconds go on past one second.
#[derive(Clone, Copy, Debug, PartialEq, Eq, Structural)]
pub struct UtcInstant {
    pub secs: i64,
    pub nanos: u32,
}

/// What the end of a window was configured as.
#[derive(Clone, Copy, Debug, PartialEq, Eq, Structural)]
pub enum SpanEnd {
    /// The word `now`: the moment at which the window is resolved.
    Now,
    /// A fixed point in time.
    At(UtcInstant),
}

/// What `chrono::DateTime::parse_from_rfc3339` makes of a text: the Unix
/// seconds and the nanoseconds past them of the point in time it returns, or
/// nothing where it refuses the text.
pub uninterp spec fn rfc3339_instant(text: Seq<char>) -> Option<(i64, u32)>;

/// The point in time that a parsed timestamp stands for.
pub open spec fn instant_of_parsed(parsed: Option<(i64, u32)>) -> Option<UtcInstant> {
    match parsed {
        Some((secs, nanos)) => Some(UtcInstant { secs, nanos }),
        None => None,
    }
}

/// What a text configures as the end of a window: the word `now`, an RFC 3339
/// timestamp, or nothing that can be used.
pub open spec fn span_end_of(text: Seq<char>) -> Option<SpanEnd> {
    if text == "now"@ {
        Some(SpanEnd::Now)
    } else {
        match instant_of_parsed(rfc3339_instant(text)) {
            Some(at) => Some(SpanEnd::At(at)),
            None => None,
        }
    }
}

/// The end of a window that is resolved at `now`: the configured point in
/// time where there is one, and `now` for the word `now` and for an end that
/// could not be read.
pub open spec fn end_at(end: Option<SpanEnd>, now: UtcInstant) -> UtcInstant {
    match end {
        Some(SpanEnd::At(at)) => at,
        _ => now,
    }
}

/// Calls `chrono::DateTime::parse_from_rfc3339` and takes the result to UTC.
/// Trusted: the result is a function of the text alone.
#[verifier::external_body]
fn parse_rfc3339(text: &str) -> (r: Option<UtcInstant>)
    ensures
        r == instant_of_parsed(rfc3339_instant(text@)),
{
    match chrono::DateTime::parse_from_rfc3339(text) {
        Ok(at) => Some(
            UtcInstant {
                secs: at.to_utc().timestamp(),
                nanos: at.to_utc().timestamp_subsec_nanos(),
            },
        ),
        Err(_) => None,
    }
}

/// Calls `chrono::Utc::now`, which wants a system clock that is not set
/// before 1970. Trusted, and nothing is claimed of the result: every call may
/// give another point in time.
#[verifier::external_body]
pub(crate) fn utc_now() -> UtcInstant {
    let now = chrono::Utc::now();
    UtcInstant { secs: now.timestamp(), nanos: now.timestamp_subsec_nanos() }
}

/// Reads the end of a window: the word `now`, or an RFC 3339 timestamp.
pub fn end_from_string(end: &str) -> (r: Option<SpanEnd>)
    ensures
        r == span_end_of(end@),
{
    if is_now(end) {
        return Some(SpanEnd::Now);
    }
    match parse_rfc3339(end) {
        Some(at) => Some(SpanEnd::At(at)),
        None => None,
    }
}

/// Settles the end of a window that is resolved at `now`.
pub fn resolve_end(end: Option<SpanEnd>, now: UtcInstant) -> (at: UtcInstant)
    ensures
        at == end_at(end, now),
{
    match end {
        Some(SpanEnd::At(at)) => at,
        _ => now,
    }
}

/// Whether `text` is the word `now`, letter for letter.
fn is_now(text: &str) -> (b: bool)
    ensures
        b == (text@ == "now"@),
{
    proof {
        reveal_strlit("now");
    }
    let mut rest = text.chars();
    let first = rest.next();
    let second = rest.next();
    let third = rest.next();
    let fourth = rest.next();
    let is_word = first == Some('n') && second == Some('o') && third == Some('w')
        && fourth.is_none();
    assert(is_word ==> text@ =~= "now"@);
    is_word
}

} // verus!

//! Instants in UTC, read and compared by chrono.
use vstd::prelude::*;

verus! {

/// An instant in UTC: whole seconds since the Unix epoch and the nanoseconds
/// past that second, as chrono's `timestamp()` and
/// `timestamp_subsec_nanos()` report them.
#[derive(Debug, Clone, Copy, PartialEq, Eq, Structural)]
pub struct Timestamp {
    pub secs: i64,
    pub nanos: u32,
}

/// The instant, as `(seconds, nanoseconds)` in UTC, that chrono's RFC 3339
/// parser reads from a text, or `None` where it rejects the text.
pub uninterp spec fn rfc3339_instant(text: Seq<char>) -> Option<(i64, u32)>;

/// chrono's `DateTime::parse_from_rfc3339`, read back as seconds and
/// nanoseconds since the epoch in UTC. The contract names the result
/// `rfc3339_instant` of the text and claims nothing more of it.
#[verifier::external_body]
pub(crate) fn parse_rfc3339(s: &str) -> (r: Option<(i64, u32)>)
    ensures
        r == rfc3339_instant(s@),
{
    match chrono::DateTime::parse_from_rfc3339(s) {
        Ok(dt) => Some((dt.timestamp(), dt.timestamp_subsec_nanos())),
        Err(_) => None,
    }
}

/// What chrono's `(later - earlier).num_seconds()` gives for two instants
/// given as `(seconds, nanoseconds)`, or `None` where
/// `DateTime::from_timestamp` rejects one of them as out of range.
pub uninterp spec fn chrono_seconds_between(earlier: (i64, u32), later: (i64, u32)) -> Option<i64>;

/// An instant, as `(seconds, nanoseconds)` since the epoch, that is not a
/// leap second and lies well inside the years chrono represents (within
/// about 250,000 years of 1970).
pub open spec fn plain_instant(t: (i64, u32)) -> bool {
    -8_000_000_000_000 <= t.0 <= 8_000_000_000_000 && t.1 < 1_000_000_000
}

/// The whole seconds from `earlier` to `later`, truncated toward zero.
pub open spec fn whole_seconds_between(earlier: (i64, u32), later: (i64, u32)) -> int {
    let ns = (later.0 * 1_000_000_000 + later.1) - (earlier.0 * 1_000_000_000 + earlier.1);
    if ns >= 0 {
        ns / 1_000_000_000
    } else {
        -((-ns) / 1_000_000_000)
    }
}

/// chrono's `signed_duration_since(..).num_seconds()` between two instants
/// built with `DateTime::from_timestamp`. For two plain instants (no leap
/// second, well inside chrono's range) the contract states the result: the
/// whole seconds from `earlier` to `later`, truncated toward zero. Elsewhere
/// (leap seconds, the ends of the range) it only names the result
/// `chrono_seconds_between` of the two instants.
#[verifier::external_body]
pub(crate) fn seconds_between(earlier: (i64, u32), later: (i64, u32)) -> (r: Option<i64>)
    ensures
        r == chrono_seconds_between(earlier, later),
        plain_instant(earlier) && plain_instant(later) ==> r == Some(
            whole_seconds_between(earlier, later) as i64,
        ),
{
    let a = chrono::DateTime::from_timestamp(earlier.0, earlier.1);
    let b = chrono::DateTime::from_timestamp(later.0, later.1);
    match (a, b) {
        (Some(a), Some(b)) => Some(b.signed_duration_since(a).num_seconds()),
        _ => None,
    }
}

} // verus!

use vstd::prelude::*;

verus! {

/// Latest moment the library will format: the last second of year 9999.
/// Keeping timestamps at or below this bound (and at or after the Unix
/// epoch) means formatting always succeeds.
pub const MAX_TIMESTAMP: i64 = 253402300799;

/// The RFC 3339 rendering, in UTC, of a moment given as seconds since
/// the Unix epoch: a function of the seconds alone, the same everywhere.
pub uninterp spec fn rfc3339_of(secs: int) -> Seq<char>;

/// Relies on chrono: `DateTime::<Utc>::from_timestamp` builds the UTC
/// moment for an in-range seconds count and `to_rfc3339` renders it.
/// Both only compute from their arguments; no clock or zone is read.
#[verifier::external_body]
pub fn rfc3339_utc(secs: i64) -> (out: String)
    requires
        0 <= secs <= MAX_TIMESTAMP,
    ensures
        out@ == rfc3339_of(secs as int),
{
    match chrono::DateTime::<chrono::Utc>::from_timestamp(secs, 0) {
        Some(t) => t.to_rfc3339(),
        None => String::new(),
    }
}

} // verus!

//! The few places where the library reaches outside itself: fresh
//! identifiers and the wall clock.
//!
//! Every function here is an `external_body` wrapper around a single call
//! into an outside crate; its contract states only what that crate's source
//! shows.

use vstd::prelude::*;

verus! {

/// Relies on `uuid::Uuid::new_v4` and the `Display` impl of `Uuid`:
/// the hyphenated form is always 36 ASCII characters. Nothing is assumed
/// about which characters come back beyond the count.
#[verifier::external_body]
pub fn prefixed_uuid(prefix: &str) -> (r: String)
    ensures
        r@.len() == prefix@.len() + 36,
        r@.subrange(0, prefix@.len() as int) == prefix@,
{
    format!("{}{}", prefix, uuid::Uuid::new_v4())
}

/// Relies on `chrono::Utc::now` and `DateTime::timestamp_millis`. The result
/// depends on the wall clock, so nothing is promised of its value.
#[verifier::external_body]
pub fn now_millis() -> i64 {
    chrono::Utc::now().timestamp_millis()
}

/// What `chrono` prints for a timestamp: the RFC 3339 rendering of the
/// instant `ms` milliseconds after the Unix epoch, or the empty sequence
/// where the instant lies outside chrono's representable range.
pub uninterp spec fn rfc3339_of(ms: i64) -> Seq<char>;

/// Relies on `chrono::DateTime::<Utc>::from_timestamp_millis` and
/// `DateTime::to_rfc3339`: the rendering is a function of the timestamp
/// alone.
#[verifier::external_body]
pub fn format_rfc3339(ms: i64) -> (r: String)
    ensures
        r@ == rfc3339_of(ms),
{
    match chrono::DateTime::<chrono::Utc>::from_timestamp_millis(ms) {
        Some(dt) => dt.to_rfc3339(),
        None => String::new(),
    }
}

} // verus!

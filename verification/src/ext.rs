//! Trusted boundary to the `uuid` and `chrono` crates: identifier parsing and
//! generation, and the wall clock.
use vstd::prelude::*;

verus! {

/// What `uuid::Uuid::parse_str` makes of a piece of text: `Some` with the
/// 128-bit value when the text is one of the textual UUID forms, `None`
/// otherwise. The outcome depends on the characters alone.
pub uninterp spec fn uuid_of_str(s: Seq<char>) -> Option<u128>;

/// Relies on `uuid::Uuid::parse_str` (and `Uuid::as_u128`, which reads the
/// sixteen bytes back as one big-endian value): recognises the textual UUID
/// forms and yields the 128-bit value, and rejects everything else.
#[verifier::external_body]
pub(crate) fn parse_uuid(s: &str) -> (r: Option<u128>)
    ensures
        r == uuid_of_str(s@),
{
    match uuid::Uuid::parse_str(s) {
        Ok(u) => Some(u.as_u128()),
        Err(_) => None,
    }
}

/// Relies on `uuid::Uuid::new_v4`: a random identifier whose fixed bits carry
/// version 4 and the RFC 9562 variant. Nothing else is assumed of the value;
/// in particular two calls may collide, however unlikely that is.
#[verifier::external_body]
pub(crate) fn new_uuid() -> (r: u128)
    ensures
        (r >> 76) & 0xf == 4,
        (r >> 62) & 0x3 == 2,
{
    uuid::Uuid::new_v4().as_u128()
}

/// Relies on `chrono::Utc::now` and `DateTime::timestamp_micros`: the current
/// UTC time as microseconds since the Unix epoch. Nothing is assumed of the
/// value: the clock may stand still or move backwards between calls.
#[verifier::external_body]
pub(crate) fn now_micros() -> i64 {
    chrono::Utc::now().timestamp_micros()
}

} // verus!

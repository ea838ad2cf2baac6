use vstd::prelude::*;

verus! {

/// Calls `uuid::Uuid::new_v4` and hands out the new UUID's 128-bit value.
/// The value is random: nothing is stated of it.
#[verifier::external_body]
pub(crate) fn fresh_uuid() -> (id: u128) {
    uuid::Uuid::new_v4().as_u128()
}

/// What `uuid::Uuid::parse_str` makes of a text: the UUID's 128-bit value, or none
/// where the text is not a UUID in one of the forms that crate reads.
pub uninterp spec fn uuid_from_text(s: Seq<char>) -> Option<u128>;

/// Calls `uuid::Uuid::parse_str`; its result is named `uuid_from_text` of the text.
#[verifier::external_body]
pub(crate) fn parse_uuid(s: &str) -> (r: Option<u128>)
    ensures
        r == uuid_from_text(s@),
{
    match uuid::Uuid::parse_str(s) {
        Ok(u) => Some(u.as_u128()),
        Err(_) => None,
    }
}

/// Calls `chrono::Utc::now` and hands out the current time in microseconds since
/// the Unix epoch (`DateTime::timestamp_micros`). It depends on the clock: nothing
/// is stated of it.
#[verifier::external_body]
pub(crate) fn clock_micros() -> (now: i64) {
    chrono::Utc::now().timestamp_micros()
}

/// Calls `rand::Rng::gen_range(0..n)` on the thread-local generator
/// (`rand::thread_rng`). The number drawn is random; rand documents that it lies in
/// the range, which must not be empty.
#[verifier::external_body]
pub(crate) fn random_below(n: u32) -> (r: u32)
    requires
        n > 0,
    ensures
        r < n,
{
    rand::Rng::gen_range(&mut rand::thread_rng(), 0..n)
}

} // verus!

use vstd::prelude::*;

verus! {

/// Relies on std::time::SystemTime::now: nanoseconds since the Unix
/// epoch, zero if the clock reads before it.  Nothing is promised of
/// the value: it depends on the wall clock.
#[verifier::external_body]
pub(crate) fn nanos_since_unix_epoch() -> u128 {
    std::time::SystemTime::now()
        .duration_since(std::time::UNIX_EPOCH)
        .unwrap_or_default()
        .as_nanos()
}

/// Relies on std::time::SystemTime::now: whole seconds since the Unix
/// epoch, zero if the clock reads before it.  Nothing is promised of
/// the value: it depends on the wall clock.
#[verifier::external_body]
pub(crate) fn now_timestamp() -> i64 {
    std::time::SystemTime::now()
        .duration_since(std::time::UNIX_EPOCH)
        .unwrap_or_default()
        .as_secs() as i64
}

} // verus!

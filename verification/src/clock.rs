use vstd::prelude::*;

verus! {

/// Relies on std::time::SystemTime::now and SystemTime::duration_since:
/// returns the seconds elapsed since the Unix epoch, or 0 if the system clock
/// is set before the epoch. Nothing is promised of the value: the clock is
/// free to move between calls.
#[verifier::external_body]
pub(crate) fn now_seconds() -> usize {
    match std::time::SystemTime::now().duration_since(std::time::SystemTime::UNIX_EPOCH) {
        Ok(d) => d.as_secs() as usize,
        Err(_) => 0,
    }
}

} // verus!

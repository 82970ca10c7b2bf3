use vstd::prelude::*;

verus! {

/// Wall-clock reading in whole milliseconds.
///
/// Relies on std::time::SystemTime::now: the instant it returns, taken
/// relative to std::time::UNIX_EPOCH, is converted to whole milliseconds
/// (a clock before the epoch reads as zero). Nothing is promised of the
/// value — the system clock is outside the program — so callers state what
/// holds of every possible reading.
#[verifier::external_body]
pub(crate) fn now_millis() -> u64 {
    match std::time::SystemTime::now().duration_since(std::time::UNIX_EPOCH) {
        Ok(d) => d.as_millis() as u64,
        Err(_) => 0,
    }
}

} // verus!

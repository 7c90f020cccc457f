//! Reading the system clock.

use vstd::prelude::*;

verus! {

/// Milliseconds since the Unix epoch according to the system clock
/// (`std::time::SystemTime::now` measured against `UNIX_EPOCH`; a clock set
/// before the epoch reads as 0).  Nothing is promised about the value: it
/// depends on the machine's clock.
#[verifier::external_body]
pub(crate) fn system_now_ms() -> (r: u64) {
    match std::time::SystemTime::now().duration_since(std::time::UNIX_EPOCH) {
        Ok(d) => d.as_millis() as u64,
        Err(_) => 0,
    }
}

} // verus!

use vstd::prelude::*;

use std::time::UNIX_EPOCH;

verus! {

/// Relies on std's `SystemTime::elapsed`, taken on `UNIX_EPOCH`: whole seconds since the epoch,
/// or zero for a clock set before it. Nothing is promised of the value.
#[verifier::external_body]
pub(crate) fn time_now() -> (r: u64) {
    match UNIX_EPOCH.elapsed() {
        Ok(d) => d.as_secs(),
        Err(_) => 0,
    }
}

} // verus!

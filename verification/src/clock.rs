//! The wall clock.

use crate::task::Timestamp;
use vstd::prelude::*;

verus! {

/// The current time in milliseconds since the UNIX epoch: how much time
/// `SystemTime::elapsed` says has passed since `UNIX_EPOCH`; 0 when the
/// clock stands before the epoch. Nothing is stated of the value: it is
/// whatever the clock says.
#[verifier::external_body]
pub(crate) fn now_millis() -> Timestamp {
    match std::time::UNIX_EPOCH.elapsed() {
        Ok(d) => d.as_millis() as u64,
        Err(_) => 0,
    }
}

} // verus!

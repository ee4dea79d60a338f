//! The boundary to the operating system: the live process handle and the
//! clock. Everything here is trusted; the registry's logic is verified
//! against what these items state.

use vstd::prelude::*;
use crate::status::PollResult;

verus! {

#[verifier::external_type_specification]
#[verifier::external_body]
pub struct ExChild(tokio::process::Child);

/// Relies on tokio's `Child::try_wait`: one non-blocking poll of the child —
/// it reports the exit status when the process has exited, that the process
/// is still running, or the error the OS raised; it never waits for the
/// process to finish. Which outcome comes back depends on the OS alone, so
/// nothing is stated of it; [`crate::status::reconcile`] handles every
/// outcome with an exact contract.
#[verifier::external_body]
pub(crate) fn poll_child(child: &mut tokio::process::Child) -> (r: PollResult) {
    match child.try_wait() {
        Ok(Some(es)) => PollResult::Exited { success: es.success(), code: es.code() },
        Ok(None) => PollResult::StillRunning,
        Err(e) => PollResult::PollFailed(e.to_string()),
    }
}

/// Relies on std's `SystemTime::now`: the clock reading at the call, as
/// milliseconds since the Unix epoch (zero when the clock sits before the
/// epoch). The result depends on the clock, so nothing is stated of it.
#[verifier::external_body]
pub(crate) fn now_millis() -> (t: u64) {
    match std::time::SystemTime::now().duration_since(std::time::UNIX_EPOCH) {
        Ok(d) => d.as_millis() as u64,
        Err(_) => 0,
    }
}

} // verus!

//! Waiting on OS events.

use vstd::prelude::*;

verus! {

/// Native `WAIT_OBJECT_0`: the object was signaled.
pub const WAIT_OBJECT_0: u32 = 0;

/// Native `WAIT_TIMEOUT`: the timeout elapsed first.
pub const WAIT_TIMEOUT: u32 = 0x102;

/// Outcome of a blocking wait on an event.
#[derive(Clone, Copy, Debug, PartialEq, Eq, Structural)]
pub enum WaitResult {
    Signaled,
    Timeout,
    Failed,
}

impl WaitResult {
    /// The outcome that the native wait code `code` reports: every code but
    /// the signaled and timeout codes is a failure.
    pub open spec fn spec_from_code(code: u32) -> WaitResult {
        if code == WAIT_OBJECT_0 {
            WaitResult::Signaled
        } else if code == WAIT_TIMEOUT {
            WaitResult::Timeout
        } else {
            WaitResult::Failed
        }
    }

    #[verifier::when_used_as_spec(spec_from_code)]
    pub fn from_code(code: u32) -> (r: WaitResult)
        ensures
            r == WaitResult::spec_from_code(code),
    {
        if code == WAIT_OBJECT_0 {
            WaitResult::Signaled
        } else if code == WAIT_TIMEOUT {
            WaitResult::Timeout
        } else {
            WaitResult::Failed
        }
    }
}

} // verus!

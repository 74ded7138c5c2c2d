//! The capture completion signal: a flag set exactly once when the stream
//! capture is over, whether it finished or was abandoned. It is diagnostic
//! state only — nothing in the serving path reads it — and carries no
//! readiness meaning: the server is started only after the capture returns.

use vstd::prelude::*;

verus! {

/// A set-once flag recording that stream capture has ended.
#[derive(Debug)]
pub struct CaptureSignal {
    complete: bool,
}

impl CaptureSignal {
    /// Whether the capture has been marked as ended.
    pub closed spec fn is_complete(&self) -> bool {
        self.complete
    }

    /// A fresh signal: the capture has not ended yet.
    pub fn new() -> (s: CaptureSignal)
        ensures
            !s.is_complete(),
    {
        CaptureSignal { complete: false }
    }

    /// Records that the capture has ended. Idempotent: marking an already
    /// complete signal leaves it complete.
    pub fn mark_complete(&mut self)
        ensures
            final (self).is_complete(),
    {
        self.complete = true;
    }

    /// Reads the flag.
    pub fn complete(&self) -> (r: bool)
        ensures
            r == self.is_complete(),
    {
        self.complete
    }
}

} // verus!

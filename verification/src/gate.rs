//! The cancellation gate: a single-use signal owned by a stream's registry
//! entry.
//!
//! Removing the stream's handle fires its cancellation signal; the
//! background task races that signal against the next frame and
//! terminates once it observes it. Firing is idempotent and safe with no listener.

use vstd::prelude::*;

verus! {

/// The sending half of a stream's single-use cancellation signal. It is
/// owned by the stream resource stored in the registry; the registry fires
/// it as teardown when that resource is removed.
#[derive(Clone, Copy, PartialEq, Eq, Structural, Debug)]
pub struct CancellationGate {
    pub fired: bool,
}

/// The state of a gate after it has been fired, whatever its state before.
pub open spec fn after_fire(g: CancellationGate) -> CancellationGate {
    CancellationGate { fired: true }
}

impl CancellationGate {
    /// A fresh, unfired gate.
    pub fn new() -> (g: CancellationGate)
        ensures
            !g.fired,
    {
        CancellationGate { fired: false }
    }

    /// Fire the signal. The resulting state does not depend on whether the
    /// gate was already fired, and firing with no listener is a no-op, not
    /// an error.
    pub fn fire(&mut self)
        ensures
            *final(self) == after_fire(*old(self)),
    {
        self.fired = true;
    }

    /// Whether the signal has been fired.
    pub fn is_fired(&self) -> (b: bool)
        ensures
            b == self.fired,
    {
        self.fired
    }
}

/// Firing a gate more than once has no additional effect: the state after
/// two fires equals the state after one.
pub proof fn lemma_fire_idempotent(g: CancellationGate)
    ensures
        after_fire(after_fire(g)) == after_fire(g),
{
}

} // verus!

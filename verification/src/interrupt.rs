//! Single-slot early-wake notification from the renderer to the poller.
//!
//! At most one wake request is pending at a time: requesting a wake while one
//! is already pending collapses into it, so a burst of key presses shortens
//! exactly one wait instead of queueing up.

use vstd::prelude::*;

verus! {

/// The slot's state after a wake request: one request is pending, however many
/// were already pending.
pub open spec fn after_signal(pending: bool) -> bool {
    true
}

/// The slot's state after a consumption: empty.
pub open spec fn after_consume(pending: bool) -> bool {
    false
}

/// What a consumption reports: whether a wake request was pending.
pub open spec fn consume_yields(pending: bool) -> bool {
    pending
}

/// A single-slot wake-up flag with compare-and-clear semantics.
pub struct InterruptSignal {
    pending: bool,
}

impl InterruptSignal {
    /// Whether a wake request is pending.
    pub closed spec fn is_pending(self) -> bool {
        self.pending
    }

    /// A fresh slot holds no request.
    pub fn new() -> (s: Self)
        ensures
            !s.is_pending(),
    {
        InterruptSignal { pending: false }
    }

    /// Request an early wake. Never blocks; a request made while one is
    /// already pending is a no-op.
    pub fn signal(&mut self)
        ensures
            final(self).is_pending() == after_signal(old(self).is_pending()),
    {
        self.pending = true;
    }

    /// Take the pending wake request, if any, clearing the slot.
    pub fn consume(&mut self) -> (was_pending: bool)
        ensures
            was_pending == consume_yields(old(self).is_pending()),
            final(self).is_pending() == after_consume(old(self).is_pending()),
    {
        let was_pending = self.pending;
        self.pending = false;
        was_pending
    }
}

/// Law: wake requests collapse. Signalling an already-signalled slot changes
/// nothing; after any burst of requests the first consumption yields exactly
/// one wake and the next yields none — no wake is lost and none is duplicated.
pub proof fn lemma_wakes_collapse(pending: bool)
    ensures
        after_signal(after_signal(pending)) == after_signal(pending),
        consume_yields(after_signal(pending)),
        !consume_yields(after_consume(after_signal(pending))),
{
}

} // verus!

//! The broadcast cancellation primitive: a shared flag that is set once and
//! never cleared. Triggering is idempotent, and a waiter's wait completes
//! exactly when the flag is set (level-triggered, sticky).

use vstd::prelude::*;

verus! {

/// The sticky "stop" flag shared by the supervisor and every worker.
///
/// The flag starts unset; `trigger` moves it to the set state and repeated
/// triggers are no-ops. There is no way to clear it again.
#[derive(Clone, Copy, PartialEq, Eq, Structural, Debug)]
pub struct CancellationSignal {
    signaled: bool,
}

/// The state a signal is in after one `trigger` call. It does not depend on
/// the state the signal was in before, which is what makes `trigger`
/// idempotent.
pub closed spec fn spec_triggered(s: CancellationSignal) -> CancellationSignal {
    CancellationSignal { signaled: true }
}

impl CancellationSignal {
    /// Whether the flag has been set.
    pub closed spec fn is_set(self) -> bool {
        self.signaled
    }

    /// A fresh, untriggered signal.
    pub fn new() -> (s: Self)
        ensures
            !s.is_set(),
    {
        CancellationSignal { signaled: false }
    }

    /// Set the flag. Idempotent: the resulting state is `spec_triggered`,
    /// which is the same whatever the state was before the call, and on an
    /// already-set signal the call changes nothing at all.
    pub fn trigger(&mut self)
        ensures
            *final(self) == spec_triggered(*old(self)),
            final(self).is_set(),
            old(self).is_set() ==> *final(self) == *old(self),
    {
        self.signaled = true;
    }

    /// Point-in-time read of the flag.
    pub fn is_signaled(&self) -> (r: bool)
        ensures
            r == self.is_set(),
    {
        self.signaled
    }
}

/// Triggering twice ends in the same state as triggering once, and that state
/// has the flag set: one logical cancellation, however many triggers arrive.
pub proof fn lemma_trigger_idempotent(s: CancellationSignal)
    ensures
        spec_triggered(spec_triggered(s)) == spec_triggered(s),
        spec_triggered(s).is_set(),
{
}

/// On a signal that is already set, a further trigger changes nothing at all.
pub proof fn lemma_retrigger_preserves_state(s: CancellationSignal)
    requires
        s.is_set(),
    ensures
        spec_triggered(s) == s,
{
}

} // verus!

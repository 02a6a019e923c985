use vstd::prelude::*;

verus! {

/// Whether an acquisition attempt against a gate in the given state wins:
/// only an unoccupied gate admits.
pub open spec fn acquire_wins(active: bool) -> bool {
    !active
}

/// The flag after a try-acquire, win or lose: set either way, by the
/// previous holder or by the caller that just won.
pub open spec fn gate_after_acquire(active: bool) -> bool {
    true
}

/// The exclusivity flag admitting at most one active session. The test and
/// the set happen in one indivisible call, so two attempts can never both win.
pub struct ConnectionGate {
    active: bool,
}

impl ConnectionGate {
    /// True iff a session currently holds the slot.
    pub closed spec fn spec_active(&self) -> bool {
        self.active
    }

    pub fn new() -> (r: ConnectionGate)
        ensures
            !r.spec_active(),
    {
        ConnectionGate { active: false }
    }

    /// Test-and-set as one step: returns true iff this caller won admission.
    pub fn try_acquire(&mut self) -> (won: bool)
        ensures
            won == acquire_wins(old(self).spec_active()),
            final(self).spec_active() == gate_after_acquire(old(self).spec_active()),
    {
        if self.active {
            false
        } else {
            self.active = true;
            true
        }
    }

    /// Clear the flag so a later attempt can win again.
    pub fn release(&mut self)
        ensures
            !final(self).spec_active(),
    {
        self.active = false;
    }

    pub fn is_active(&self) -> (r: bool)
        ensures
            r == self.spec_active(),
    {
        self.active
    }
}

/// Admission is exclusive: a try-acquire leaves the flag set, win or lose,
/// so a further attempt while the first holder is active loses; and from a
/// free slot the first of two attempts is exactly the one that wins.
pub proof fn lemma_exclusive_admission(active: bool)
    ensures
        !acquire_wins(gate_after_acquire(active)),
        !active ==> acquire_wins(active),
{
}

} // verus!

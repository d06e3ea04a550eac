use vstd::prelude::*;

verus! {

/// The flag behind the event-loop waker. It is edge-triggered: a wake sets
/// it, a waiter that observes it clears it, and wakes that arrive while it
/// is already set are coalesced rather than counted.
#[derive(Clone, Copy, Debug, PartialEq, Eq, Structural)]
pub struct WakerState {
    pub pending: bool,
}

/// The state after a `wake`.
pub open spec fn woken(s: WakerState) -> WakerState {
    WakerState { pending: true }
}

/// What a waiter observes on `s`: whether it is released, and the state it leaves.
pub open spec fn taken(s: WakerState) -> (bool, WakerState) {
    (s.pending, WakerState { pending: false })
}

impl WakerState {
    pub fn new() -> (r: Self)
        ensures
            r == (WakerState { pending: false }),
    {
        WakerState { pending: false }
    }

    /// Signals that the event loop has pending work.
    pub fn wake(&mut self)
        ensures
            *final(self) == woken(*old(self)),
    {
        self.pending = true;
    }

    /// Called by a waiter holding the lock: returns whether it may proceed,
    /// consuming the signal if so. A waiter that gets `false` goes back to
    /// waiting on the condition variable.
    pub fn take_wakeup(&mut self) -> (r: bool)
        ensures
            (r, *final(self)) == taken(*old(self)),
    {
        let r = self.pending;
        self.pending = false;
        r
    }
}

/// A waiter is released by exactly one `wake`: without a wake it stays
/// blocked; after one wake it is released once, and a second wait blocks.
pub proof fn lemma_one_wake_releases_once(s: WakerState)
    requires
        !s.pending,
    ensures
        !taken(s).0,
        taken(woken(s)).0,
        !taken(taken(woken(s)).1).0,
{
}

/// Two wakes issued before any wait coalesce: the waiter is released once,
/// and the next wait blocks, exactly as after a single wake.
pub proof fn lemma_wakes_coalesce(s: WakerState)
    ensures
        woken(woken(s)) == woken(s),
        taken(woken(woken(s))).0,
        !taken(taken(woken(woken(s))).1).0,
{
}

} // verus!

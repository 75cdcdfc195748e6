//! The interrupt-notification bridge's pending-wakeup counter.
//!
//! A hardware edge, handled in interrupt context, records one pending wakeup;
//! the control loop's wait consumes every pending wakeup at once. Rapid edges
//! may thus coalesce into a single wakeup, but a counter that has recorded an
//! edge stays nonzero until consumed: no edge is silently lost. The counter
//! saturates instead of wrapping, which preserves the only observable fact,
//! that at least one wakeup is pending.

use vstd::prelude::*;

verus! {

/// What recording one edge does to the pending count: increment, saturating
/// at the counter's width.
pub open spec fn spec_edge(c: nat) -> nat {
    if c < u32::MAX {
        c + 1
    } else {
        c
    }
}

/// The pending count after `n` edges on a fresh counter, none consumed.
pub open spec fn pending_after_edges(n: nat) -> nat
    decreases n,
{
    if n == 0 {
        0
    } else {
        spec_edge(pending_after_edges((n - 1) as nat))
    }
}

/// Law: after one or more edges on a fresh counter, with nothing consumed,
/// at least one wakeup is pending.
pub proof fn lemma_edges_leave_pending(n: nat)
    requires
        n >= 1,
    ensures
        pending_after_edges(n) >= 1,
{
    assert(pending_after_edges(n) == spec_edge(pending_after_edges((n - 1) as nat)));
}

/// The task-side half of the bridge: the counter shared (conceptually)
/// between the interrupt handler, which records edges, and the control loop,
/// which consumes them. The loop never runs concurrently with itself, so one
/// record and one consume per cycle is the whole protocol.
pub struct WakeupBridge {
    pending: u32,
}

impl WakeupBridge {
    /// The number of recorded, unconsumed wakeups.
    pub closed spec fn pending_count(self) -> nat {
        self.pending as nat
    }

    /// A fresh bridge has nothing pending.
    pub fn new() -> (b: WakeupBridge)
        ensures
            b.pending_count() == 0,
    {
        WakeupBridge { pending: 0 }
    }

    /// Record one edge: the interrupt-context half. Only the counter moves
    /// here; no allocation, no blocking, no call into the random source or
    /// the LED driver.
    pub fn on_edge(&mut self)
        ensures
            final(self).pending_count() == spec_edge(old(self).pending_count()),
            final(self).pending_count() >= 1,
    {
        if self.pending < u32::MAX {
            self.pending = self.pending + 1;
        }
    }

    /// Consume every pending wakeup at once (coalescing): returns whether any
    /// edge had been recorded, and leaves the counter empty.
    pub fn consume(&mut self) -> (was_pending: bool)
        ensures
            was_pending == (old(self).pending_count() >= 1),
            final(self).pending_count() == 0,
    {
        let was: bool = self.pending >= 1;
        self.pending = 0;
        was
    }

    /// Whether at least one unconsumed edge is pending.
    pub fn has_pending(&self) -> (r: bool)
        ensures
            r == (self.pending_count() >= 1),
    {
        self.pending >= 1
    }
}

} // verus!

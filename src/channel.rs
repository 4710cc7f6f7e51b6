//! The hand-off of snapshots from the poller to the render loop: one slot,
//! where a new snapshot replaces one that was not read yet.

use vstd::prelude::*;

use crate::summary::SimpleSummary;

verus! {

/// A single-slot channel in which the latest snapshot wins.
#[derive(Debug)]
pub struct UpdateSlot {
    pending: Option<SimpleSummary>,
}

impl View for UpdateSlot {
    type V = Option<SimpleSummary>;

    /// The snapshot waiting to be read, if any.
    closed spec fn view(&self) -> Option<SimpleSummary> {
        self.pending
    }
}

/// What the slot holds after `summary` is sent: that snapshot alone.
pub open spec fn after_send(slot: Option<SimpleSummary>, summary: SimpleSummary) -> Option<
    SimpleSummary,
> {
    Some(summary)
}

/// What a read of the slot returns, and what the slot holds after it: the
/// waiting snapshot is taken out.
pub open spec fn after_take(slot: Option<SimpleSummary>) -> (Option<SimpleSummary>, Option<
    SimpleSummary,
>) {
    (slot, None)
}

/// When two snapshots are sent before the slot is read, the read returns the
/// second one, and only it: the first is never seen.
pub proof fn lemma_latest_wins(slot: Option<SimpleSummary>, a: SimpleSummary, b: SimpleSummary)
    ensures
        after_take(after_send(after_send(slot, a), b)).0 == Some(b),
        after_take(after_take(after_send(after_send(slot, a), b)).1).0 is None,
{
}

impl UpdateSlot {
    /// An empty slot.
    pub fn new() -> (r: Self)
        ensures
            r@ is None,
    {
        Self { pending: None }
    }

    /// Sends a snapshot, replacing one that was not read yet.
    pub fn send(&mut self, summary: SimpleSummary)
        ensures
            final(self)@ == after_send(old(self)@, summary),
    {
        self.pending = Some(summary);
    }

    /// Reads the waiting snapshot, if any, and empties the slot.
    pub fn take(&mut self) -> (r: Option<SimpleSummary>)
        ensures
            (r, final(self)@) == after_take(old(self)@),
    {
        self.pending.take()
    }
}

} // verus!

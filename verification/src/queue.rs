//! The bounded handoff between the fetch stage and the archive/upload stage.
//!
//! Capacity is one: a producer may not push a second item before the first
//! was taken, which throttles the two stages into lock-step.

use vstd::prelude::*;

use crate::models::DownloadedItem;

verus! {

/// A queue of capacity one, with an explicit closed flag as the only
/// completion signal the consumer receives.
pub struct ItemQueue {
    pub slot: Option<DownloadedItem>,
    pub closed: bool,
}

impl ItemQueue {
    /// How many items sit in the queue awaiting delivery.
    pub open spec fn undelivered(self) -> nat {
        if self.slot is Some {
            1nat
        } else {
            0nat
        }
    }

    /// A fresh queue: open and empty.
    pub fn new() -> (q: ItemQueue)
        ensures
            q.slot is None,
            !q.closed,
    {
        ItemQueue { slot: None, closed: false }
    }

    /// Hands one item to the consumer. The slot must be free: a full queue
    /// suspends the producer instead, which this precondition models.
    pub fn push(&mut self, item: DownloadedItem)
        requires
            old(self).slot is None,
            !old(self).closed,
        ensures
            final(self).slot == Some(item),
            final(self).closed == old(self).closed,
    {
        self.slot = Some(item);
    }

    /// Takes the waiting item, if any.
    pub fn pop(&mut self) -> (r: Option<DownloadedItem>)
        ensures
            r == old(self).slot,
            final(self).slot is None,
            final(self).closed == old(self).closed,
    {
        self.slot.take()
    }

    /// Signals that no further item will ever arrive.
    pub fn close(&mut self)
        ensures
            final(self).closed,
            final(self).slot == old(self).slot,
    {
        self.closed = true;
    }
}

/// Law: the queue never holds more than one undelivered item, whatever was
/// done to it — the backpressure bound of the pipeline.
pub proof fn lemma_backpressure_bound(q: ItemQueue)
    ensures
        q.undelivered() <= 1,
{
}

} // verus!

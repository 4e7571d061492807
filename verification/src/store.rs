//! The store: the one way to reach the slot, one caller at a time.

use vstd::prelude::*;
use vstd::rwlock::RwLock;
use crate::slot::ProcessSlot;

verus! {

/// Keeps the slot behind a lock. Whoever wants to read or change the slot
/// goes through [`ProcessHandleStore::with_exclusive_access`], and only one
/// caller is inside at any time.
///
/// A store is made once, by whoever owns the application state, and handed
/// out by reference; it starts with an empty slot.
#[verifier::reject_recursive_types(H)]
pub struct ProcessHandleStore<H> {
    lock: RwLock<ProcessSlot<H>, spec_fn(ProcessSlot<H>) -> bool>,
}

impl<H> ProcessHandleStore<H> {
    /// Every slot may be put back behind the lock.
    #[verifier::type_invariant]
    spec fn admits_every_slot(&self) -> bool {
        forall|slot: ProcessSlot<H>| #[trigger] self.lock.inv(slot)
    }

    /// A store whose slot is empty.
    pub fn new() -> (store: Self) {
        let slot: ProcessSlot<H> = ProcessSlot::new();
        ProcessHandleStore { lock: RwLock::new(slot, Ghost(|any: ProcessSlot<H>| true)) }
    }

    /// Waits until no other caller is inside, runs `work` on the slot, lets
    /// the next caller in and returns what `work` returned.
    ///
    /// `work` must accept whatever the slot holds, since only the lock knows
    /// what the last caller left there. It runs exactly once, and what it
    /// leaves in the slot is what the next caller finds. The lock is given
    /// back when `work` returns; a `work` that panics keeps it for good.
    pub fn with_exclusive_access<R, F: FnOnce(&mut ProcessSlot<H>) -> R>(&self, work: F) -> (result:
        R)
        requires
            forall|slot: &mut ProcessSlot<H>| work.requires((slot,)),
        ensures
            exists|slot: &mut ProcessSlot<H>| work.ensures((slot,), result),
    {
        proof {
            use_type_invariant(self);
        }
        let (mut slot, ticket) = self.lock.acquire_write();
        let result = work(&mut slot);
        ticket.release_write(slot);
        result
    }
}

} // verus!

//! The slot: sole owner of the handle of the one external process.

use vstd::prelude::*;
use crate::toggle::ToggleState;

verus! {

/// Holds the handle of the running process, or nothing.
///
/// `H` is whatever the process backend hands out for a started process. The
/// slot is its only owner: a handle enters on a successful spawn and leaves
/// when it is taken out to be signalled. The slot is neither `Clone` nor
/// `Copy`, so the handle cannot be duplicated through it.
pub struct ProcessSlot<H> {
    handle: Option<H>,
}

/// The toggle state that an occupancy stands for.
pub open spec fn state_of<H>(held: Option<H>) -> ToggleState {
    match held {
        Some(_) => ToggleState::Enabled,
        None => ToggleState::Disabled,
    }
}

impl<H> ProcessSlot<H> {
    /// The handle held, if any.
    pub closed spec fn view(&self) -> Option<H> {
        self.handle
    }

    /// An empty slot.
    pub fn new() -> (slot: Self)
        ensures
            slot@ is None,
    {
        ProcessSlot { handle: None }
    }

    /// Whether a handle is held.
    pub fn is_occupied(&self) -> (occupied: bool)
        ensures
            occupied == (self@ is Some),
    {
        self.handle.is_some()
    }

    /// The toggle state, recomputed from the occupancy on every call.
    pub fn state(&self) -> (state: ToggleState)
        ensures
            state == state_of(self@),
    {
        if self.handle.is_some() {
            ToggleState::Enabled
        } else {
            ToggleState::Disabled
        }
    }

    /// A look at the handle held, without taking it.
    pub fn peek(&self) -> (held: Option<&H>)
        ensures
            (held is Some) == (self@ is Some),
            held matches Some(h) ==> self@ == Some(*h),
    {
        self.handle.as_ref()
    }

    /// Puts the handle of a freshly started process into the empty slot.
    pub fn populate(&mut self, handle: H)
        requires
            old(self)@ is None,
        ensures
            final(self)@ == Some(handle),
    {
        self.handle = Some(handle);
    }

    /// Takes the handle out, leaving the slot empty.
    pub fn take(&mut self) -> (taken: Option<H>)
        ensures
            taken == old(self)@,
            final(self)@ is None,
    {
        self.handle.take()
    }
}

} // verus!

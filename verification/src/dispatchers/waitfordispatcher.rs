//! A dispatcher that runs every tick until its function completes.

use vstd::prelude::*;

verus! {

/// Runs its interaction every tick; the function signals completion by
/// producing `Some` value, which lands in a single-slot result cell.
/// Publishing into an occupied cell drops the value silently.
pub struct WaitForDispatcher<T> {
    pub slot: Option<T>,
}

impl<T> WaitForDispatcher<T> {
    /// A pending dispatcher.
    pub fn new() -> (r: Self)
        ensures
            r.slot is None,
    {
        WaitForDispatcher { slot: None }
    }

    /// One tick of the interact phase: `outcome` is what the
    /// dispatcher's function returned against the live scene state.
    /// `None` keeps the dispatcher pending; `Some` completes it. The
    /// result says whether a value was produced this tick.
    pub fn interact(&mut self, outcome: Option<T>) -> (completed: bool)
        ensures
            completed == (outcome is Some),
            final(self).slot == match outcome {
                Some(v) => if old(self).slot is None {
                    Some(v)
                } else {
                    old(self).slot
                },
                None => old(self).slot,
            },
    {
        match outcome {
            Some(v) => {
                if self.slot.is_none() {
                    self.slot = Some(v);
                }
                true
            }
            None => false,
        }
    }

    /// Whether a completing value is waiting in the result cell.
    pub fn is_complete(&self) -> (r: bool)
        ensures
            r == (self.slot is Some),
    {
        self.slot.is_some()
    }

    /// Takes the completing value out of the result cell, if any.
    pub fn take(&mut self) -> (r: Option<T>)
        ensures
            r == old(self).slot,
            final(self).slot is None,
    {
        self.slot.take()
    }
}

} // verus!

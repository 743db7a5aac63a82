//! A dispatcher that runs exactly once.

use vstd::prelude::*;

verus! {

/// Runs its interaction exactly one time, then stays completed. The
/// produced value sits in a single-slot result cell until the owner
/// takes it; publishing into an occupied cell drops the value silently.
pub struct OnceDispatcher<T> {
    pub has_run: bool,
    pub slot: Option<T>,
}

impl<T> OnceDispatcher<T> {
    /// A pending dispatcher that has not run yet.
    pub fn new() -> (r: Self)
        ensures
            !r.has_run,
            r.slot is None,
    {
        OnceDispatcher { has_run: false, slot: None }
    }

    /// Whether the interact phase should still run this dispatcher's
    /// function this tick.
    pub fn should_run(&self) -> (r: bool)
        ensures
            r == !self.has_run,
    {
        !self.has_run
    }

    /// Records the function's value and completes: after this the
    /// dispatcher never runs again. A second publish is dropped.
    pub fn publish(&mut self, value: T)
        ensures
            final(self).has_run,
            final(self).slot == if old(self).slot is None {
                Some(value)
            } else {
                old(self).slot
            },
    {
        self.has_run = true;
        if self.slot.is_none() {
            self.slot = Some(value);
        }
    }

    /// Takes the published value out of the result cell, if any.
    pub fn take(&mut self) -> (r: Option<T>)
        ensures
            r == old(self).slot,
            final(self).slot is None,
            final(self).has_run == old(self).has_run,
    {
        self.slot.take()
    }
}

} // verus!

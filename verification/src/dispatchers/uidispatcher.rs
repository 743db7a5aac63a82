//! A dispatcher that runs during the widget phase until it completes.

use vstd::prelude::*;

verus! {

/// Like a wait-for dispatcher, but driven once per frame while the
/// frame's 2d widgets are drawn (the function gets the panel to draw
/// into); the function signals completion by producing `Some` value.
pub struct UiDispatcher<T> {
    pub slot: Option<T>,
}

impl<T> UiDispatcher<T> {
    /// A pending dispatcher.
    pub fn new() -> (r: Self)
        ensures
            r.slot is None,
    {
        UiDispatcher { slot: None }
    }

    /// One frame of the widget phase: `outcome` is what the function
    /// returned while drawing. `None` keeps it pending; `Some`
    /// completes it; a value published into an occupied cell is dropped.
    pub fn draw_tick(&mut self, outcome: Option<T>) -> (completed: bool)
        ensures
            completed == (outcome is Some),
            final(self).slot == match outcome {
                Some(v) => if old(self).slot is None {
                    Some(v)
                } else {
                    old(self).slot
                },
                None => old(self).slot,
            },
    {
        match outcome {
            Some(v) => {
                if self.slot.is_none() {
                    self.slot = Some(v);
                }
                true
            }
            None => false,
        }
    }

    /// Takes the completing value out of the result cell, if any.
    pub fn take(&mut self) -> (r: Option<T>)
        ensures
            r == old(self).slot,
            final(self).slot is None,
    {
        self.slot.take()
    }
}

} // verus!

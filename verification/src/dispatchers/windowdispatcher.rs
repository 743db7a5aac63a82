//! A dispatcher that shows a modal window every frame.

use vstd::prelude::*;

verus! {

/// A long-lived modal panel: it draws every frame and never completes
/// on its own. It leaves the registry only through an explicit removal
/// announcement.
pub struct WindowDispatcher {
    pub window_name: String,
}

impl WindowDispatcher {
    /// A modal window titled `window_name`.
    pub fn new(window_name: &str) -> (r: Self)
        ensures
            r.window_name@ == window_name@,
    {
        let n = window_name.to_string();
        proof {
            vstd::string::to_string_from_display_ensures_for_str(window_name, n);
        }
        WindowDispatcher { window_name: n }
    }

    /// A window dispatcher never completes by itself.
    pub fn is_complete(&self) -> (r: bool)
        ensures
            !r,
    {
        false
    }
}

} // verus!

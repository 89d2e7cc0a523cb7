//! The session record that observers read, and the tabs of the main window.

use vstd::prelude::*;

verus! {

/// The session state: whether remapping is enabled.
#[derive(Clone, Copy, Debug, PartialEq, Eq, Structural)]
pub struct AppState {
    pub remapping_enabled: bool,
}

impl Default for AppState {
    fn default() -> (r: Self)
        ensures
            !r.remapping_enabled,
    {
        AppState { remapping_enabled: false }
    }
}

/// The pages of the main window.
#[derive(Clone, Copy, Debug, PartialEq, Eq, Structural)]
pub enum Tab {
    KeyMappings,
    Settings,
    About,
}

} // verus!

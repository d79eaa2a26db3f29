//! The settings that the reducer owns.

use vstd::prelude::*;

verus! {

/// What an operator can configure.
#[derive(Clone, Copy, Debug, PartialEq, Eq, Structural)]
pub struct Settings {
    /// The countdown before a run, in seconds.
    pub countdown: u64,
    /// Whether the displays show the debug overlay.
    pub show_debug: bool,
    /// Whether the displays are fullscreen.
    pub fullscreen: bool,
}

impl Settings {
    /// The settings of a first run: three seconds of countdown, no debug
    /// overlay, fullscreen.
    pub open spec fn initial() -> Settings {
        Settings { countdown: 3, show_debug: false, fullscreen: true }
    }
}

impl Default for Settings {
    fn default() -> (settings: Settings)
        ensures
            settings == Settings::initial(),
    {
        Settings { countdown: 3, show_debug: false, fullscreen: true }
    }
}

} // verus!

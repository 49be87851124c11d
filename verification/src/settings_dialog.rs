//! Whether the settings window is open.
use vstd::prelude::*;

verus! {

/// The settings window.
pub struct SettingsDialog {
    pub is_open: bool,
}

impl Default for SettingsDialog {
    /// A closed window.
    fn default() -> (d: SettingsDialog)
        ensures
            !d.is_open,
    {
        SettingsDialog { is_open: false }
    }
}

impl SettingsDialog {
    /// After a frame of the window: it stays open only if its close button
    /// was not used (`window_open`) and neither Save nor Close was pressed.
    pub fn settle(&mut self, window_open: bool, close_requested: bool)
        ensures
            final(self).is_open == (window_open && !close_requested),
    {
        self.is_open = window_open && !close_requested;
    }
}

} // verus!

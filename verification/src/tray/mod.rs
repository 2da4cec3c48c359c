//! The system tray: the commands it sends to the window, and the state of
//! the tray icon with the texts of its tooltip and menu.

pub mod windows;

use vstd::prelude::*;

verus! {

/// Commands that the tray sends to the window.
#[derive(Debug, Clone, Copy, PartialEq, Eq, Structural)]
pub enum TrayCommand {
    /// Show the main window.
    ShowWindow,
    /// Toggle the microphone's mute.
    ToggleMute,
    /// Quit the application.
    Quit,
    /// Refresh the battery data.
    RefreshBattery,
}

} // verus!

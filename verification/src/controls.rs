//! Small decisions of the main window: what the Escape key does and which
//! recording a call to prayer plays.

use vstd::prelude::*;

use crate::types::Prayer;

verus! {

/// What pressing Escape does.
#[derive(Debug, Clone, Copy, PartialEq, Eq, Structural)]
pub enum EscapeAction {
    /// Close the settings dialog, keeping the window.
    CloseSettings,
    /// Hide the main window to the tray.
    HideWindow,
    /// Nothing to close.
    Nothing,
}

/// Escape closes the settings dialog when it is open, otherwise hides the
/// window when one is open, otherwise does nothing.
pub fn escape_action(settings_open: bool, window_open: bool) -> (r: EscapeAction)
    ensures
        settings_open ==> r == EscapeAction::CloseSettings,
        !settings_open && window_open ==> r == EscapeAction::HideWindow,
        !settings_open && !window_open ==> r == EscapeAction::Nothing,
{
    if settings_open {
        EscapeAction::CloseSettings
    } else if window_open {
        EscapeAction::HideWindow
    } else {
        EscapeAction::Nothing
    }
}

/// The recording a call to prayer plays.
#[derive(Debug, Clone, Copy, PartialEq, Eq, Structural)]
pub enum AdhanRecording {
    /// The dawn call, for Fajr.
    Fajr,
    /// The call for every other prayer, and for a call started by hand.
    Regular,
}

/// The recording for a call: the dawn call for Fajr, the regular one
/// otherwise (including a call started by hand, with no prayer).
pub fn adhan_recording(prayer: Option<Prayer>) -> (r: AdhanRecording)
    ensures
        prayer == Some(Prayer::Fajr) ==> r == AdhanRecording::Fajr,
        prayer != Some(Prayer::Fajr) ==> r == AdhanRecording::Regular,
{
    match prayer {
        Some(Prayer::Fajr) => AdhanRecording::Fajr,
        _ => AdhanRecording::Regular,
    }
}

} // verus!

//! What the overlay window shows, and what closing it does.
use vstd::prelude::*;
use crate::prefs::Prefs;

verus! {

/// The state of a translation as the window shows it.
#[allow(inconsistent_fields)]
pub enum TranslationState {
    Loading { source: String },
    Ready { source: String, translation: String },
    Error { source: Option<String>, message: String },
}

/// What a request to close the window does.
#[derive(Clone, Copy, Debug, PartialEq, Eq, Structural)]
pub enum CloseAction {
    /// Hide the window and keep running in the tray.
    Hide,
    /// Quit the application.
    Exit,
}

/// Closing hides the window when it goes to the tray, and quits otherwise.
pub fn close_action(prefs: &Prefs) -> (r: CloseAction)
    ensures
        r == (if prefs.close_to_tray {
            CloseAction::Hide
        } else {
            CloseAction::Exit
        }),
{
    if prefs.close_to_tray {
        CloseAction::Hide
    } else {
        CloseAction::Exit
    }
}

} // verus!

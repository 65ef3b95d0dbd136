//! What the desktop shell does when one of its windows closes.
use vstd::prelude::*;
use crate::text::str_eq;

verus! {

/// The reaction to a window event.
#[derive(Debug, Clone, Copy, PartialEq, Eq)]
pub enum CloseAction {
    /// Nothing to do.
    Ignore,
    /// Close the pop-up and break windows and exit; when `reset_state`, first
    /// switch collection off and clear the break flags and break id.
    ShutDown { reset_state: bool },
}

/// The reaction to an event of the window labelled `window_label`
/// (`closing`: the window is being closed or was destroyed), given whether
/// the main window is still open.
pub fn window_close_action(closing: bool, window_label: &str, main_window_open: bool) -> (r: CloseAction)
    ensures
        r == if !closing {
            CloseAction::Ignore
        } else if window_label@ == "main"@ {
            CloseAction::ShutDown { reset_state: true }
        } else if !main_window_open {
            CloseAction::ShutDown { reset_state: false }
        } else {
            CloseAction::Ignore
        },
{
    if !closing {
        return CloseAction::Ignore;
    }
    if str_eq(window_label, "main") {
        return CloseAction::ShutDown { reset_state: true };
    }
    if !main_window_open {
        return CloseAction::ShutDown { reset_state: false };
    }
    CloseAction::Ignore
}

} // verus!

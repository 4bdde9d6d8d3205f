//! Plain state values shared between the terminal session and its
//! rendering layer.

use vstd::prelude::*;

verus! {

/// Application mode
#[derive(Debug, Clone)]
pub enum AppMode {
    Chat,
    Help,
}

/// UI state
#[derive(Debug, Clone)]
pub enum UIState {
    Normal,
    CommandPalette,
    ConfirmationModal,
}

/// An input event handed to the terminal session.
#[derive(Debug, Clone)]
pub enum TerminalEvent {
    Input(String),
    ModelChange(String),
    ToggleOfflineMode,
    Exit,
}

} // verus!

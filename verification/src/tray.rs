//! The tray menu: which entry an event of the menu stands for.

use vstd::prelude::*;
use crate::text::{chars_of, contains, has_substring};

verus! {

/// What a click on the tray menu asks for.
#[derive(Clone, Copy, Debug, PartialEq, Eq, Structural)]
pub enum TrayAction {
    /// Start a new chat and bring the main window to the front.
    NewChat,
    /// Open the settings and bring the main window to the front.
    OpenSettings,
    /// Leave the application.
    Quit,
    /// An entry that asks for nothing.
    Nothing,
}

/// The action for the identifier of a menu entry: the first of "New Chat",
/// "Settings" and "Quit" that the identifier holds decides.
pub open spec fn menu_action(id: Seq<char>) -> TrayAction {
    if contains(id, "New Chat"@) {
        TrayAction::NewChat
    } else if contains(id, "Settings"@) {
        TrayAction::OpenSettings
    } else if contains(id, "Quit"@) {
        TrayAction::Quit
    } else {
        TrayAction::Nothing
    }
}

/// Sorts an event of the tray menu by the identifier of its entry.
pub fn handle_menu_event(id: &str) -> (action: TrayAction)
    ensures
        action == menu_action(id@),
{
    let chars: Vec<char> = chars_of(id);
    if has_substring(&chars, &chars_of("New Chat")) {
        TrayAction::NewChat
    } else if has_substring(&chars, &chars_of("Settings")) {
        TrayAction::OpenSettings
    } else if has_substring(&chars, &chars_of("Quit")) {
        TrayAction::Quit
    } else {
        TrayAction::Nothing
    }
}

} // verus!

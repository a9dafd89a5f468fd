//! What the entries of the tray menu and a click on the tray icon mean.

use crate::text::same_text;
use vstd::prelude::*;

verus! {

/// What the tray asks the application to do.
#[derive(Clone, Copy, Debug, PartialEq, Eq, Structural)]
pub enum TrayAction {
    /// Leave the application.
    Quit,
    /// Show the main window and give it the focus.
    ShowMain,
    /// Hide the main window; the application stays in the tray.
    HideMain,
}

/// The action of the menu entry with the identifier `id`.
pub open spec fn menu_action_of(id: Seq<char>) -> Option<TrayAction> {
    if id == "quit"@ {
        Some(TrayAction::Quit)
    } else if id == "show"@ {
        Some(TrayAction::ShowMain)
    } else if id == "hide"@ {
        Some(TrayAction::HideMain)
    } else {
        None
    }
}

/// The action of the menu entry with the identifier `id`; `None` for an
/// identifier that the menu does not have.
pub fn menu_action(id: &str) -> (action: Option<TrayAction>)
    ensures
        action == menu_action_of(id@),
{
    if same_text(id, "quit") {
        Some(TrayAction::Quit)
    } else if same_text(id, "show") {
        Some(TrayAction::ShowMain)
    } else if same_text(id, "hide") {
        Some(TrayAction::HideMain)
    } else {
        None
    }
}

/// The action of a click on the tray icon: it hides the main window where
/// it is visible and shows it where it is not.
pub fn click_action(main_visible: bool) -> (action: TrayAction)
    ensures
        action == if main_visible {
            TrayAction::HideMain
        } else {
            TrayAction::ShowMain
        },
{
    if main_visible {
        TrayAction::HideMain
    } else {
        TrayAction::ShowMain
    }
}

/// What a request to close the main window comes to: the window is hidden
/// and the application stays in the tray.
pub fn close_requested_action() -> (action: TrayAction)
    ensures
        action == TrayAction::HideMain,
{
    TrayAction::HideMain
}

} // verus!

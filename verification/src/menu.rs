//! How a native menu event is dispatched.
//!
//! The shell handles two menu items itself — the update check and the
//! about box — and forwards every other item's identifier to the front
//! end as a `menu-action` event. The decision is made here; the dialogs,
//! the update flow and the event emission are the windowing layer's work.

use vstd::prelude::*;
use crate::text::str_eq;

verus! {

/// What the shell does with a menu event.
#[derive(Clone, Copy, PartialEq, Eq, Structural, Debug)]
pub enum MenuAction {
    /// Run the update check and install flow.
    CheckForUpdates,
    /// Show the about box.
    ShowAbout,
    /// Emit the event's identifier to the front end.
    Forward,
}

/// The action taken for a menu event with identifier `id`.
pub open spec fn spec_menu_action(id: Seq<char>) -> MenuAction {
    if id == "check-updates"@ {
        MenuAction::CheckForUpdates
    } else if id == "about"@ {
        MenuAction::ShowAbout
    } else {
        MenuAction::Forward
    }
}

/// Classifies a menu event by its identifier.
pub fn classify_menu_event(id: &str) -> (r: MenuAction)
    ensures
        r == spec_menu_action(id@),
{
    if str_eq(id, "check-updates") {
        MenuAction::CheckForUpdates
    } else if str_eq(id, "about") {
        MenuAction::ShowAbout
    } else {
        MenuAction::Forward
    }
}

} // verus!

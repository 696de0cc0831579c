//! What a click in the tray menu asks for.

use vstd::prelude::*;

verus! {

/// The id of the menu entry that shows the window.
pub const OPEN_ID: &'static str = "open";

/// The id of the menu entry that ends the program.
pub const EXIT_ID: &'static str = "exit";

#[derive(Clone, Copy, Debug, PartialEq, Eq, Structural)]
pub enum MenuAction {
    /// Show the window.
    Open,
    /// End the program; the tray stops listening after it.
    Exit,
}

pub open spec fn menu_action_of(id: Seq<char>) -> Option<MenuAction> {
    if id == OPEN_ID@ {
        Some(MenuAction::Open)
    } else if id == EXIT_ID@ {
        Some(MenuAction::Exit)
    } else {
        None
    }
}

/// The action of the menu entry `id`; other entries (the about box, the
/// separator) ask for nothing.
pub fn menu_action(id: &str) -> (r: Option<MenuAction>)
    ensures
        r == menu_action_of(id@),
{
    if crate::paths::same_text(id, OPEN_ID) {
        Some(MenuAction::Open)
    } else if crate::paths::same_text(id, EXIT_ID) {
        Some(MenuAction::Exit)
    } else {
        None
    }
}

} // verus!

//! What the entries of the tray menu stand for.

use vstd::prelude::*;

verus! {

/// What choosing a menu entry asks for.
#[derive(Clone, Copy, Debug, PartialEq, Eq, Structural)]
pub enum MenuCommand {
    /// Leave the program.
    Quit,
    /// Show and focus the settings window.
    OpenSettings,
    /// An entry that is not the menu's: nothing to do.
    Nothing,
}

/// The command of a menu entry's identifier.
pub open spec fn spec_menu_command(id: Seq<char>) -> MenuCommand {
    if id == "quit"@ {
        MenuCommand::Quit
    } else if id == "settings"@ {
        MenuCommand::OpenSettings
    } else {
        MenuCommand::Nothing
    }
}

/// The command of the menu entry with this identifier.
pub fn menu_command(id: &str) -> (r: MenuCommand)
    ensures
        r == spec_menu_command(id@),
{
    let id = id.to_owned();
    if id == "quit".to_owned() {
        MenuCommand::Quit
    } else if id == "settings".to_owned() {
        MenuCommand::OpenSettings
    } else {
        MenuCommand::Nothing
    }
}

} // verus!

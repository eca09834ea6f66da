//! The closed set of commands that the editor can execute.

use vstd::prelude::*;

verus! {

/// A logical command, as the dispatcher hands it to the session.
#[derive(Debug, Copy, Clone, PartialEq, Eq, Structural)]
pub enum Action {
    MoveUp,
    MoveDown,
    MoveLeft,
    MoveRight,
    /// End of line.
    Eol,
    /// Beginning of line.
    Bol,
    /// Cut the rest of the row after the cursor.
    Kill,
    /// Paste the most recent cut.
    Yank,
    SetActiveFilePath,
    LoadFromFilePath,
    PrintMini,
    Quit,
    Save,
    /// Do nothing.
    DoNo,
}

/// The name of a command, as it is shown in messages.
pub open spec fn action_text(a: Action) -> Seq<char> {
    match a {
        Action::MoveUp => "MoveUp"@,
        Action::MoveDown => "MoveDown"@,
        Action::MoveLeft => "MoveLeft"@,
        Action::MoveRight => "MoveRight"@,
        Action::Eol => "Eol"@,
        Action::Bol => "Bol"@,
        Action::Kill => "Kill"@,
        Action::Yank => "Yank"@,
        Action::SetActiveFilePath => "SetActiveFilePath"@,
        Action::LoadFromFilePath => "LoadFromFilePath"@,
        Action::PrintMini => "PrintMini"@,
        Action::Quit => "Quit"@,
        Action::Save => "Save"@,
        Action::DoNo => "DoNo"@,
    }
}

/// Writes out the name of a command.
pub fn action_name(a: Action) -> (s: String)
    ensures
        s@ == action_text(a),
{
    match a {
        Action::MoveUp => "MoveUp".to_owned(),
        Action::MoveDown => "MoveDown".to_owned(),
        Action::MoveLeft => "MoveLeft".to_owned(),
        Action::MoveRight => "MoveRight".to_owned(),
        Action::Eol => "Eol".to_owned(),
        Action::Bol => "Bol".to_owned(),
        Action::Kill => "Kill".to_owned(),
        Action::Yank => "Yank".to_owned(),
        Action::SetActiveFilePath => "SetActiveFilePath".to_owned(),
        Action::LoadFromFilePath => "LoadFromFilePath".to_owned(),
        Action::PrintMini => "PrintMini".to_owned(),
        Action::Quit => "Quit".to_owned(),
        Action::Save => "Save".to_owned(),
        Action::DoNo => "DoNo".to_owned(),
    }
}

} // verus!

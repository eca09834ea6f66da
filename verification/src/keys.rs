//! The keys that the editor can be handed, and how they are named.

use crate::text::{chars_text, enclosed, show_chars};
use crate::trusted::{char_debug_text, debug_char};
use vstd::prelude::*;

verus! {

/// A key press, as the terminal reports it.
#[derive(Debug, Clone, PartialEq, Eq)]
pub enum Key {
    Unknown,
    /// An escape sequence that the terminal layer did not recognise, with
    /// its characters.
    UnknownEscSeq(Vec<char>),
    ArrowLeft,
    ArrowRight,
    ArrowUp,
    ArrowDown,
    Enter,
    Escape,
    Backspace,
    Home,
    End,
    Tab,
    BackTab,
    Alt,
    Del,
    Shift,
    Insert,
    PageUp,
    PageDown,
    Char(char),
    CtrlC,
}

/// The text by which a key is shown in messages.
pub open spec fn key_text(k: Key) -> Seq<char> {
    match k {
        Key::Unknown => "Unknown"@,
        Key::UnknownEscSeq(v) => "UnknownEscSeq("@ + chars_text(v@) + ")"@,
        Key::ArrowLeft => "ArrowLeft"@,
        Key::ArrowRight => "ArrowRight"@,
        Key::ArrowUp => "ArrowUp"@,
        Key::ArrowDown => "ArrowDown"@,
        Key::Enter => "Enter"@,
        Key::Escape => "Escape"@,
        Key::Backspace => "Backspace"@,
        Key::Home => "Home"@,
        Key::End => "End"@,
        Key::Tab => "Tab"@,
        Key::BackTab => "BackTab"@,
        Key::Alt => "Alt"@,
        Key::Del => "Del"@,
        Key::Shift => "Shift"@,
        Key::Insert => "Insert"@,
        Key::PageUp => "PageUp"@,
        Key::PageDown => "PageDown"@,
        Key::Char(c) => "Char("@ + char_debug_text(c) + ")"@,
        Key::CtrlC => "CtrlC"@,
    }
}

/// Writes out the text by which a key is shown in messages.
pub fn show_key(k: &Key) -> (s: String)
    ensures
        s@ == key_text(*k),
{
    match k {
        Key::Unknown => "Unknown".to_owned(),
        Key::UnknownEscSeq(v) => {
            let inner = show_chars(v);
            enclosed("UnknownEscSeq(", inner.as_str(), ")")
        },
        Key::ArrowLeft => "ArrowLeft".to_owned(),
        Key::ArrowRight => "ArrowRight".to_owned(),
        Key::ArrowUp => "ArrowUp".to_owned(),
        Key::ArrowDown => "ArrowDown".to_owned(),
        Key::Enter => "Enter".to_owned(),
        Key::Escape => "Escape".to_owned(),
        Key::Backspace => "Backspace".to_owned(),
        Key::Home => "Home".to_owned(),
        Key::End => "End".to_owned(),
        Key::Tab => "Tab".to_owned(),
        Key::BackTab => "BackTab".to_owned(),
        Key::Alt => "Alt".to_owned(),
        Key::Del => "Del".to_owned(),
        Key::Shift => "Shift".to_owned(),
        Key::Insert => "Insert".to_owned(),
        Key::PageUp => "PageUp".to_owned(),
        Key::PageDown => "PageDown".to_owned(),
        Key::Char(c) => {
            let inner = debug_char(*c);
            enclosed("Char(", inner.as_str(), ")")
        },
        Key::CtrlC => "CtrlC".to_owned(),
    }
}

} // verus!

//! Laws of the editor: what holds of the frame operations, of kill and
//! yank, of the dispatcher and of the session on every input, each proved
//! from the definitions that the contracts use.

use crate::actions::Action;
use crate::frame::FrameView;
use crate::handler::{
    distinct_names, is_edit_key, key_name, lemma_lookup_at, lookup_in, names_command,
    standard_table, unrecognized_message,
};
use crate::keys::{key_text, Key};
use crate::window::WindowView;
use vstd::prelude::*;

verus! {

/// The end of a kill never lies before the cursor, nor behind the content.
pub proof fn lemma_kill_end_in_range(f: FrameView, width: int)
    requires
        f.wf(),
        width > 0,
    ensures
        f.cursor <= f.kill_end(width) <= f.content.len(),
{
    assert(0 <= f.cursor % width < width) by (nonlinear_arith)
        requires
            width > 0,
    ;
}

/// Every operation on a frame leaves the cursor within the content, from
/// its start to right behind its end.
pub proof fn lemma_cursor_stays_in_range(
    f: FrameView,
    c: char,
    i: int,
    width: int,
    span: Seq<char>,
    text: Seq<char>,
)
    requires
        f.wf(),
        width > 0,
    ensures
        f.write_char(c).wf(),
        f.backspace().wf(),
        f.delete().wf(),
        f.move_fwd().wf(),
        f.move_bck().wf(),
        f.set_cur(i).wf(),
        f.set_path(text).wf(),
        f.replace_content(text).wf(),
        f.kill(width).wf(),
        f.yank(span).wf(),
{
    lemma_kill_end_in_range(f, width);
}

/// No operation on a frame changes its name or its identifier.
pub proof fn lemma_name_is_kept(
    f: FrameView,
    c: char,
    i: int,
    width: int,
    span: Seq<char>,
    text: Seq<char>,
)
    ensures
        f.write_char(c).name == f.name && f.write_char(c).id == f.id,
        f.backspace().name == f.name && f.backspace().id == f.id,
        f.delete().name == f.name && f.delete().id == f.id,
        f.move_fwd().name == f.name && f.move_fwd().id == f.id,
        f.move_bck().name == f.name && f.move_bck().id == f.id,
        f.set_cur(i).name == f.name && f.set_cur(i).id == f.id,
        f.set_path(text).name == f.name && f.set_path(text).id == f.id,
        f.replace_content(text).name == f.name && f.replace_content(text).id == f.id,
        f.kill(width).name == f.name && f.kill(width).id == f.id,
        f.yank(span).name == f.name && f.yank(span).id == f.id,
{
}

/// With the cursor at the start, a backspace changes nothing.
pub proof fn lemma_backspace_at_start(f: FrameView)
    requires
        f.cursor == 0,
    ensures
        f.backspace() == f,
{
}

/// With the cursor behind the last character, a delete changes nothing.
pub proof fn lemma_delete_at_end(f: FrameView)
    requires
        f.cursor == f.content.len(),
    ensures
        f.delete() == f,
{
}

/// Typing a character and deleting backwards gives back the content and
/// the cursor.
pub proof fn lemma_write_then_backspace(f: FrameView, c: char)
    requires
        f.wf(),
    ensures
        f.write_char(c).backspace() == f,
{
    assert(f.content.insert(f.cursor, c).remove(f.cursor) =~= f.content);
}

/// In an empty frame a step forward or backward leaves the cursor at the
/// start.
pub proof fn lemma_moves_in_empty_frame(f: FrameView)
    requires
        f.wf(),
        f.content.len() == 0,
    ensures
        f.move_fwd() == f,
        f.move_bck() == f,
{
}

/// Killing and then inserting the killed span gives back the frame: the
/// content is the same, and so is the cursor.
pub proof fn lemma_kill_then_yank(f: FrameView, width: int)
    requires
        f.wf(),
        width > 0,
    ensures
        f.kill(width).yank(f.kill_span(width)) == f,
{
    lemma_kill_end_in_range(f, width);
    let killed = f.kill(width);
    assert(killed.content.subrange(0, killed.cursor) =~= f.content.subrange(0, f.cursor));
    assert(killed.content.subrange(killed.cursor, killed.content.len() as int)
        =~= f.content.subrange(f.kill_end(width), f.content.len() as int));
    assert(f.kill(width).yank(f.kill_span(width)).content =~= f.content);
}

/// A kill command followed at once by a yank command gives back the
/// window: the active frame and the kill ring are as before.
pub proof fn lemma_kill_yank_commands(w: WindowView, width: int)
    requires
        w.wf(),
        width > 0,
    ensures
        w.execute(Action::Kill, width).execute(Action::Yank, width) == w,
{
    lemma_kill_then_yank(w.aframe(), width);
    let k = w.execute(Action::Kill, width);
    assert(k.kills.drop_last() =~= w.kills);
    assert(k.frames.update(k.active, w.aframe()) =~= w.frames);
}

/// A yank command on an empty kill ring changes nothing.
pub proof fn lemma_yank_on_empty_ring(w: WindowView, width: int)
    requires
        w.kills.len() == 0,
    ensures
        w.execute(Action::Yank, width) == w,
{
}

/// The session is ended by the quit command and by no other.
pub proof fn lemma_only_quit_interrupts(w: WindowView, act: Action, width: int)
    ensures
        w.execute(act, width).interrupted == (w.interrupted || act == Action::Quit),
{
}

/// Whatever command is executed, the active frame stays one of the open
/// frames, no frame is added or taken away, and every cursor stays within
/// its content.
pub proof fn lemma_execute_keeps_wf(w: WindowView, act: Action, width: int)
    requires
        w.wf(),
        width > 0,
    ensures
        w.execute(act, width).wf(),
        w.execute(act, width).active == w.active,
        w.execute(act, width).frames.len() == w.frames.len(),
{
    let f = w.aframe();
    assert(f.wf());
    lemma_kill_end_in_range(f, width);
    assert(0 <= f.cursor % width < width) by (nonlinear_arith)
        requires
            width > 0,
    ;
    assert(f.cursor % width <= f.cursor) by (nonlinear_arith)
        requires
            width > 0,
            f.cursor >= 0,
    ;
    if w.kills.len() > 0 {
        assert(f.yank(w.kills.last()).wf());
    }
}

/// Whatever key is pressed, the active frame stays one of the open frames,
/// every cursor stays within its content, and the bindings are as before.
pub proof fn lemma_handle_keypress_keeps_wf(w: WindowView, k: Key)
    requires
        w.wf(),
    ensures
        w.handle_keypress(k).wf(),
        w.handle_keypress(k).active == w.active,
        w.handle_keypress(k).frames.len() == w.frames.len(),
        w.handle_keypress(k).bindings == w.bindings,
        w.handle_keypress(k).interrupted == w.interrupted,
{
    let f = w.aframe();
    assert(f.wf());
}

/// Showing or hiding the minibuffer changes no message, and doing it twice
/// changes nothing at all.
pub proof fn lemma_popup_mini_keeps_messages(w: WindowView)
    ensures
        w.popup_mini().log == w.log,
        w.popup_mini().popup_mini() == w,
{
}

/// A key whose name stands in the table gives the command of that entry,
/// whichever command that is.
pub proof fn lemma_bound_key_gives_its_command(w: WindowView, k: Key, i: int)
    requires
        w.wf(),
        0 <= i < w.bindings.len(),
        w.bindings[i].0 == key_name(k),
    ensures
        w.action_of(k) == w.bindings[i].1,
        w.handle_keypress(k).frames == w.frames,
{
    lemma_lookup_at(w.bindings, key_name(k), i);
}

/// A name that no entry of the table holds is bound to nothing.
pub proof fn lemma_lookup_absent(table: Seq<(Seq<char>, Action)>, name: Seq<char>)
    requires
        forall|j: int| 0 <= j < table.len() ==> table[j].0 != name,
    ensures
        lookup_in(table, name) is None,
    decreases table.len(),
{
    if table.len() > 0 {
        let rest = table.drop_first();
        assert forall|j: int| 0 <= j < rest.len() implies rest[j].0 != name by {
            assert(rest[j] == table[j + 1]);
        }
        lemma_lookup_absent(rest, name);
    }
}

/// A key that is bound to no command and does not edit the buffer gives
/// `DoNo`, leaves every frame as it is, and adds one error to the log: the
/// message that names the key.
pub proof fn lemma_unbound_key_is_reported(w: WindowView, k: Key)
    requires
        w.wf(),
        lookup_in(w.bindings, key_name(k)) is None,
        !is_edit_key(k),
    ensures
        w.action_of(k) == Action::DoNo,
        w.handle_keypress(k).frames == w.frames,
        w.handle_keypress(k).log.errs == w.log.errs.push(unrecognized_message(k)),
{
    assert(w.frames.update(w.active, w.aframe()) =~= w.frames);
}

/// The command that a key gives under the standard bindings.
pub open spec fn standard_command(k: Key) -> Option<Action> {
    match k {
        Key::Char(c) => if c == '\u{11}' {
            Some(Action::Quit)
        } else if c == '\u{10}' {
            Some(Action::MoveUp)
        } else if c == '\u{e}' {
            Some(Action::MoveDown)
        } else if c == '\u{2}' {
            Some(Action::MoveLeft)
        } else if c == '\u{6}' {
            Some(Action::MoveRight)
        } else if c == '\u{b}' {
            Some(Action::Kill)
        } else if c == '\u{19}' {
            Some(Action::Yank)
        } else if c == '\u{c}' {
            Some(Action::SetActiveFilePath)
        } else if c == '\u{12}' {
            Some(Action::LoadFromFilePath)
        } else if c == '\u{13}' {
            Some(Action::Save)
        } else if c == '\u{f}' {
            Some(Action::PrintMini)
        } else {
            None
        },
        Key::End => Some(Action::Eol),
        Key::Home => Some(Action::Bol),
        _ => None,
    }
}

/// The text of a key begins with two letters that begin no name of the
/// standard table.
proof fn lemma_key_text_is_no_command_name(k: Key)
    ensures
        forall|j: int| 0 <= j < standard_table().len() ==> standard_table()[j].0 != key_text(k),
{
    reveal_strlit("Quit");
    reveal_strlit("MoveUp");
    reveal_strlit("MoveDown");
    reveal_strlit("MoveLeft");
    reveal_strlit("MoveRight");
    reveal_strlit("Eol");
    reveal_strlit("Bol");
    reveal_strlit("Kill");
    reveal_strlit("Yank");
    reveal_strlit("SetActiveFilePath");
    reveal_strlit("LoadFromFilePath");
    reveal_strlit("Save");
    reveal_strlit("PrintMini");
    reveal_strlit("Unknown");
    reveal_strlit("UnknownEscSeq(");
    reveal_strlit("ArrowLeft");
    reveal_strlit("ArrowRight");
    reveal_strlit("ArrowUp");
    reveal_strlit("ArrowDown");
    reveal_strlit("Enter");
    reveal_strlit("Escape");
    reveal_strlit("Backspace");
    reveal_strlit("Home");
    reveal_strlit("End");
    reveal_strlit("Tab");
    reveal_strlit("BackTab");
    reveal_strlit("Alt");
    reveal_strlit("Del");
    reveal_strlit("Shift");
    reveal_strlit("Insert");
    reveal_strlit("PageUp");
    reveal_strlit("PageDown");
    reveal_strlit("Char(");
    reveal_strlit("CtrlC");
    let t = standard_table();
    let s = key_text(k);
    assert(s.len() >= 2 && s[0] != 'Q' && s[0] != 'M' && s[0] != 'K' && s[0] != 'Y' && s[0] != 'L'
        && (s[0] == 'E' ==> s[1] != 'o') && (s[0] == 'B' ==> s[1] != 'o') && (s[0] == 'S' ==> s[1]
        != 'a' && s[1] != 'e') && (s[0] == 'P' ==> s[1] != 'r'));
    assert forall|j: int| 0 <= j < t.len() implies t[j].0 != s by {
        assert(t[j].0.len() >= 2);
        assert(t[j].0[0] == 'Q' || t[j].0[0] == 'M' || t[j].0[0] == 'K' || t[j].0[0] == 'Y'
            || t[j].0[0] == 'L' || (t[j].0[0] == 'E' && t[j].0[1] == 'o') || (t[j].0[0] == 'B'
            && t[j].0[1] == 'o') || (t[j].0[0] == 'S' && (t[j].0[1] == 'a' || t[j].0[1] == 'e'))
            || (t[j].0[0] == 'P' && t[j].0[1] == 'r'));
    }
}

/// Under the standard bindings every key gives the command that
/// `standard_command` names for it: the thirteen command keys their
/// commands, and every other key none.
pub proof fn lemma_standard_dispatch(k: Key)
    ensures
        lookup_in(standard_table(), key_name(k)) == standard_command(k),
        distinct_names(standard_table()),
{
    let t = standard_table();
    crate::handler::lemma_standard_names_differ();
    if names_command(k) {
        let i = choose|i: int| 0 <= i < t.len() && t[i].0 == key_name(k);
        assert(t[0].0 == "Quit"@ && t[1].0 == "MoveUp"@ && t[2].0 == "MoveDown"@ && t[3].0
            == "MoveLeft"@ && t[4].0 == "MoveRight"@ && t[5].0 == "Eol"@ && t[6].0 == "Bol"@
            && t[7].0 == "Kill"@ && t[8].0 == "Yank"@ && t[9].0 == "SetActiveFilePath"@ && t[10].0
            == "LoadFromFilePath"@ && t[11].0 == "Save"@ && t[12].0 == "PrintMini"@);
        assert(0 <= i < t.len() && t[i].0 == key_name(k));
        lemma_lookup_at(t, key_name(k), i);
    } else {
        lemma_key_text_is_no_command_name(k);
        lemma_lookup_absent(t, key_name(k));
    }
}

} // verus!

//! The dispatcher: from a key press to the command bound to it, or to the
//! edit that an unbound key stands for.

use crate::actions::Action;
use crate::frame::{Frame, FrameView};
use crate::keys::{key_text, show_key, Key};
use crate::mini::{MiniBuf, MiniBufView};
use crate::text::headed;
use crate::trusted::is_control_char;
use vstd::prelude::*;

verus! {

/// The name under which a key is looked up: the name of a command for the
/// keys that stand for one, and the key's own text for every other key.
pub open spec fn key_name(k: Key) -> Seq<char> {
    match k {
        Key::Char(c) => if c == '\u{11}' {
            "Quit"@
        } else if c == '\u{10}' {
            "MoveUp"@
        } else if c == '\u{e}' {
            "MoveDown"@
        } else if c == '\u{2}' {
            "MoveLeft"@
        } else if c == '\u{6}' {
            "MoveRight"@
        } else if c == '\u{b}' {
            "Kill"@
        } else if c == '\u{19}' {
            "Yank"@
        } else if c == '\u{c}' {
            "SetActiveFilePath"@
        } else if c == '\u{12}' {
            "LoadFromFilePath"@
        } else if c == '\u{13}' {
            "Save"@
        } else if c == '\u{f}' {
            "PrintMini"@
        } else {
            key_text(k)
        },
        Key::End => "Eol"@,
        Key::Home => "Bol"@,
        _ => key_text(k),
    }
}

/// Whether a key stands for a command by name.
pub open spec fn names_command(k: Key) -> bool {
    match k {
        Key::Char(c) => c == '\u{11}' || c == '\u{10}' || c == '\u{e}' || c == '\u{2}' || c
            == '\u{6}' || c == '\u{b}' || c == '\u{19}' || c == '\u{c}' || c == '\u{12}' || c
            == '\u{13}' || c == '\u{f}',
        Key::End => true,
        Key::Home => true,
        _ => false,
    }
}

/// The log after a key was named: the text of a key that stands for no
/// command is recorded among the successes.
pub open spec fn named_log(m: MiniBufView, k: Key) -> MiniBufView {
    if names_command(k) {
        m
    } else {
        m.show_success(key_text(k))
    }
}

/// Names a key, and records the text of a key that stands for no command.
pub fn parse_key(raw_k: &Key, mbuf: &mut MiniBuf) -> (name: String)
    ensures
        name@ == key_name(*raw_k),
        final(mbuf)@ == named_log(old(mbuf)@, *raw_k),
{
    match raw_k {
        Key::Char('\u{11}') => "Quit".to_owned(),
        Key::Char('\u{10}') => "MoveUp".to_owned(),
        Key::Char('\u{e}') => "MoveDown".to_owned(),
        Key::Char('\u{2}') => "MoveLeft".to_owned(),
        Key::Char('\u{6}') => "MoveRight".to_owned(),
        Key::End => "Eol".to_owned(),
        Key::Home => "Bol".to_owned(),
        Key::Char('\u{b}') => "Kill".to_owned(),
        Key::Char('\u{19}') => "Yank".to_owned(),
        Key::Char('\u{c}') => "SetActiveFilePath".to_owned(),
        Key::Char('\u{12}') => "LoadFromFilePath".to_owned(),
        Key::Char('\u{13}') => "Save".to_owned(),
        Key::Char('\u{f}') => "PrintMini".to_owned(),
        k => {
            let stxt = show_key(k);
            let _mbuf_res = mbuf.show_success(stxt.clone());
            stxt
        },
    }
}

/// The command that a table binds to `name`: that of the first entry with
/// this name, if there is one.
pub open spec fn lookup_in(table: Seq<(Seq<char>, Action)>, name: Seq<char>) -> Option<Action>
    decreases table.len(),
{
    if table.len() == 0 {
        None
    } else if table[0].0 == name {
        Some(table[0].1)
    } else {
        lookup_in(table.drop_first(), name)
    }
}

/// Whether a key that is bound to no command edits the buffer: Backspace,
/// Enter, the delete-in-place code, and every character that is not a
/// control code.
pub open spec fn is_edit_key(k: Key) -> bool {
    match k {
        Key::Char(c) => c == '\u{4}' || !is_control_char(c),
        Key::Backspace => true,
        Key::Enter => true,
        _ => false,
    }
}

/// The frame after a key that is bound to no command.
pub open spec fn edited(f: FrameView, k: Key) -> FrameView {
    match k {
        Key::Char(c) => if c == '\u{4}' {
            f.delete()
        } else if !is_control_char(c) {
            f.write_char(c)
        } else {
            f
        },
        Key::Backspace => f.backspace(),
        Key::Enter => f.write_char('\n'),
        _ => f,
    }
}

/// The error that is logged for a key that neither is bound to a command
/// nor edits the buffer.
pub open spec fn unrecognized_message(k: Key) -> Seq<char> {
    "unrecognized key: "@ + key_text(k)
}

/// The log after a key that is bound to no command.
pub open spec fn unknown_log(m: MiniBufView, k: Key) -> MiniBufView {
    if is_edit_key(k) {
        m
    } else {
        m.show_err(unrecognized_message(k))
    }
}

/// The table of key bindings.
#[derive(Debug, Clone)]
pub struct Handler {
    keys: Vec<(String, Action)>,
}

/// The bindings that every handler starts with, in the order in which they
/// are entered.
pub open spec fn standard_table() -> Seq<(Seq<char>, Action)> {
    seq![
        ("Quit"@, Action::Quit),
        ("MoveUp"@, Action::MoveUp),
        ("MoveDown"@, Action::MoveDown),
        ("MoveLeft"@, Action::MoveLeft),
        ("MoveRight"@, Action::MoveRight),
        ("Eol"@, Action::Eol),
        ("Bol"@, Action::Bol),
        ("Kill"@, Action::Kill),
        ("Yank"@, Action::Yank),
        ("SetActiveFilePath"@, Action::SetActiveFilePath),
        ("LoadFromFilePath"@, Action::LoadFromFilePath),
        ("Save"@, Action::Save),
        ("PrintMini"@, Action::PrintMini),
    ]
}

/// No two entries of the table have the same name.
pub open spec fn distinct_names(table: Seq<(Seq<char>, Action)>) -> bool {
    forall|i: int, j: int| 0 <= i < j < table.len() ==> table[i].0 != table[j].0
}

/// The table after `name` was bound to `act`: an entry of that name is
/// replaced where it stands, and a new name is entered at the end.
pub open spec fn bound(
    table: Seq<(Seq<char>, Action)>,
    name: Seq<char>,
    act: Action,
) -> Seq<(Seq<char>, Action)>
    decreases table.len(),
{
    if table.len() == 0 {
        seq![(name, act)]
    } else if table[0].0 == name {
        table.update(0, (name, act))
    } else {
        seq![table[0]] + bound(table.drop_first(), name, act)
    }
}

impl Handler {
    /// The bindings as a sequence of names with their commands.
    pub closed spec fn table(&self) -> Seq<(Seq<char>, Action)> {
        Seq::new(self.keys@.len(), |i: int| (self.keys@[i].0@, self.keys@[i].1))
    }

    /// Every name is bound once.
    pub open spec fn wf(&self) -> bool {
        distinct_names(self.table())
    }

    /// A handler with the standard bindings.
    pub fn init_handler() -> (h: Handler)
        ensures
            h.wf(),
            h.table() == standard_table(),
    {
        let mut h = Handler { keys: Vec::new() };
        proof {
            lemma_standard_names_differ();
            assert(h.table() =~= standard_table().take(0));
        }
        h.bind("Quit".to_owned(), Action::Quit);
        assert(h.table() =~= standard_table().take(1));
        h.bind("MoveUp".to_owned(), Action::MoveUp);
        assert(h.table() =~= standard_table().take(2));
        h.bind("MoveDown".to_owned(), Action::MoveDown);
        assert(h.table() =~= standard_table().take(3));
        h.bind("MoveLeft".to_owned(), Action::MoveLeft);
        assert(h.table() =~= standard_table().take(4));
        h.bind("MoveRight".to_owned(), Action::MoveRight);
        assert(h.table() =~= standard_table().take(5));
        h.bind("Eol".to_owned(), Action::Eol);
        assert(h.table() =~= standard_table().take(6));
        h.bind("Bol".to_owned(), Action::Bol);
        assert(h.table() =~= standard_table().take(7));
        h.bind("Kill".to_owned(), Action::Kill);
        assert(h.table() =~= standard_table().take(8));
        h.bind("Yank".to_owned(), Action::Yank);
        assert(h.table() =~= standard_table().take(9));
        h.bind("SetActiveFilePath".to_owned(), Action::SetActiveFilePath);
        assert(h.table() =~= standard_table().take(10));
        h.bind("LoadFromFilePath".to_owned(), Action::LoadFromFilePath);
        assert(h.table() =~= standard_table().take(11));
        h.bind("Save".to_owned(), Action::Save);
        assert(h.table() =~= standard_table().take(12));
        h.bind("PrintMini".to_owned(), Action::PrintMini);
        assert(h.table() =~= standard_table().take(13));
        assert(standard_table().take(13) =~= standard_table());
        h
    }

    /// Binds `name` to `act`. A name that is bound already keeps its place
    /// and gets the new command.
    pub fn bind(&mut self, name: String, act: Action)
        requires
            old(self).wf(),
        ensures
            final(self).wf(),
            final(self).table() == bound(old(self).table(), name@, act),
            lookup_in(final(self).table(), name@) == Some(act),
            (forall|j: int| 0 <= j < old(self).table().len() ==> old(self).table()[j].0 != name@)
                ==> final(self).table() == old(self).table().push((name@, act)),
    {
        let mut i: usize = 0;
        while i < self.keys.len()
            invariant
                i <= self.keys.len(),
                self.keys == old(self).keys,
                old(self).wf(),
                forall|j: int| 0 <= j < i ==> self.table()[j].0 != name@,
            decreases self.keys.len() - i,
        {
            if self.keys[i].0 == name {
                self.keys.set(i, (name, act));
                proof {
                    assert(old(self).table()[i as int].0 == name@);
                    assert(self.table() =~= old(self).table().update(i as int, (name@, act)));
                    assert forall|a: int, b: int|
                        0 <= a < b < self.table().len() implies self.table()[a].0
                        != self.table()[b].0 by {
                        assert(old(self).table()[a].0 != old(self).table()[b].0);
                    }
                    lemma_bound_at(old(self).table(), name@, act, i as int);
                    lemma_lookup_at(self.table(), name@, i as int);
                }
                return;
            }
            i += 1;
        }
        self.keys.push((name, act));
        proof {
            assert(self.table() =~= old(self).table().push((name@, act)));
            lemma_bound_new(old(self).table(), name@, act);
            lemma_lookup_at(self.table(), name@, old(self).table().len() as int);
        }
    }

    /// The command bound to `name`, if there is one.
    pub fn lookup(&self, name: &String) -> (r: Option<Action>)
        ensures
            r == lookup_in(self.table(), name@),
    {
        let mut i: usize = 0;
        assert(self.table().skip(0) =~= self.table());
        while i < self.keys.len()
            invariant
                i <= self.keys.len(),
                lookup_in(self.table(), name@) == lookup_in(self.table().skip(i as int), name@),
            decreases self.keys.len() - i,
        {
            proof {
                assert(self.table().skip(i as int).drop_first() =~= self.table().skip(i + 1));
            }
            if self.keys[i].0 == *name {
                return Some(self.keys[i].1);
            }
            i += 1;
        }
        assert(self.table().skip(i as int).len() == 0);
        None
    }

    /// Dispatches one key press. A key whose name is bound gives the
    /// command bound to it and leaves the frame alone. Any other key gives
    /// `DoNo`, after it edited the frame or was logged as an error.
    pub fn handle_keypress(
        &self,
        raw_k: Key,
        frame: &mut Frame,
        mbuf: &mut MiniBuf,
    ) -> (r: Result<Action, std::io::Error>)
        requires
            old(frame).wf(),
        ensures
            final(frame).wf(),
            match lookup_in(self.table(), key_name(raw_k)) {
                Some(a) => {
                    &&& r matches Ok(x) && x == a
                    &&& final(frame)@ == old(frame)@
                    &&& final(mbuf)@ == named_log(old(mbuf)@, raw_k)
                },
                None => {
                    &&& r matches Ok(x) && x == Action::DoNo
                    &&& final(frame)@ == edited(old(frame)@, raw_k)
                    &&& final(mbuf)@ == unknown_log(named_log(old(mbuf)@, raw_k), raw_k)
                },
            },
    {
        let k = parse_key(&raw_k, mbuf);
        match self.lookup(&k) {
            Some(a) => Ok(a),
            None => self.unknown_keys(raw_k, frame, mbuf),
        }
    }

    /// Handles a key that is bound to no command: Backspace, Enter, the
    /// delete-in-place code and the characters that are no control codes
    /// edit the frame; every other key is logged as an error.
    pub fn unknown_keys(
        &self,
        raw_k: Key,
        frame: &mut Frame,
        mbuf: &mut MiniBuf,
    ) -> (r: Result<Action, std::io::Error>)
        requires
            old(frame).wf(),
        ensures
            final(frame).wf(),
            final(frame)@ == edited(old(frame)@, raw_k),
            final(mbuf)@ == unknown_log(old(mbuf)@, raw_k),
            r matches Ok(x) && x == Action::DoNo,
    {
        match raw_k {
            Key::Char('\u{4}') => {
                let _ = frame.delete();
            },
            Key::Backspace => {
                let _ = frame.backspace();
            },
            Key::Enter => {
                let _ = frame.newline();
            },
            Key::Char(c) => {
                if !c.is_control() {
                    let _ = frame.write_char(c);
                } else {
                    report_unrecognized(&raw_k, mbuf);
                }
            },
            bad_k => {
                report_unrecognized(&bad_k, mbuf);
            },
        }
        Ok(Action::DoNo)
    }
}

/// Logs a key as unrecognized.
fn report_unrecognized(k: &Key, mbuf: &mut MiniBuf)
    ensures
        final(mbuf)@ == old(mbuf)@.show_err(unrecognized_message(*k)),
{
    let shown = show_key(k);
    let err_text = headed("unrecognized key: ", shown.as_str());
    let _ = mbuf.show_err(err_text);
}

/// The names of the standard bindings differ from one another.
pub proof fn lemma_standard_names_differ()
    ensures
        distinct_names(standard_table()),
{
    reveal_strlit("Quit");
    reveal_strlit("MoveUp");
    reveal_strlit("MoveDown");
    reveal_strlit("MoveLeft");
    reveal_strlit("MoveRight");
    reveal_strlit("Eol");
    reveal_strlit("Bol");
    reveal_strlit("Kill");
    reveal_strlit("Yank");
    reveal_strlit("SetActiveFilePath");
    reveal_strlit("LoadFromFilePath");
    reveal_strlit("Save");
    reveal_strlit("PrintMini");
    let t = standard_table();
    assert forall|i: int, j: int| 0 <= i < j < t.len() implies t[i].0 != t[j].0 by {
        if t[i].0 == t[j].0 {
            assert(t[i].0.len() == t[j].0.len());
            assert(t[i].0[0] == t[j].0[0]);
            assert(t[i].0[1] == t[j].0[1]);
            assert(t[i].0[4] == t[j].0[4]);
        }
    }
}

/// Binding a name that stands at index `i`, and nowhere before, replaces
/// that entry.
proof fn lemma_bound_at(table: Seq<(Seq<char>, Action)>, name: Seq<char>, act: Action, i: int)
    requires
        0 <= i < table.len(),
        table[i].0 == name,
        forall|j: int| 0 <= j < i ==> table[j].0 != name,
    ensures
        bound(table, name, act) == table.update(i, (name, act)),
    decreases i,
{
    if i > 0 {
        let rest = table.drop_first();
        lemma_bound_at(rest, name, act, i - 1);
        assert(seq![table[0]] + rest.update(i - 1, (name, act)) =~= table.update(i, (name, act)));
    }
}

/// Binding a name that the table does not hold enters it at the end.
proof fn lemma_bound_new(table: Seq<(Seq<char>, Action)>, name: Seq<char>, act: Action)
    requires
        forall|j: int| 0 <= j < table.len() ==> table[j].0 != name,
    ensures
        bound(table, name, act) == table.push((name, act)),
    decreases table.len(),
{
    if table.len() > 0 {
        let rest = table.drop_first();
        lemma_bound_new(rest, name, act);
        assert(seq![table[0]] + rest.push((name, act)) =~= table.push((name, act)));
    } else {
        assert(seq![(name, act)] =~= table.push((name, act)));
    }
}

/// A name that stands at index `i`, and nowhere before, is looked up to
/// the command at `i`.
pub proof fn lemma_lookup_at(table: Seq<(Seq<char>, Action)>, name: Seq<char>, i: int)
    requires
        0 <= i < table.len(),
        table[i].0 == name,
        forall|j: int| 0 <= j < i ==> table[j].0 != name,
    ensures
        lookup_in(table, name) == Some(table[i].1),
    decreases i,
{
    if i > 0 {
        lemma_lookup_at(table.drop_first(), name, i - 1);
    }
}

} // verus!

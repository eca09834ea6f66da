//! The text buffer ("frame"): the edited characters, a cursor into them, a
//! display name and the path of the file behind the buffer, if it has one.
//!
//! Rows are an arithmetic fiction: the buffer is treated as if it were
//! wrapped into rows of a fixed width, whatever line breaks it holds.

use crate::killring::Killring;
use crate::mini::MiniBuf;
use crate::text::{chars_of, enclosed, span_of, string_of};
use crate::trusted::{clamp, clamped, debug_str, str_debug_text};
use vstd::prelude::*;

verus! {

/// What a frame is, as a mathematical value.
pub struct FrameView {
    pub id: u16,
    pub name: Seq<char>,
    pub content: Seq<char>,
    pub cursor: int,
    pub path: Option<Seq<char>>,
}

/// The offset at which the row that holds `cursor` starts.
pub open spec fn row_start(cursor: int, width: int) -> int {
    cursor - cursor % width
}

/// The offset of the last column of the row that holds `cursor`, brought
/// into a buffer of `len` characters.
pub open spec fn row_end(cursor: int, width: int, len: int) -> int {
    clamped(cursor + (width - cursor % width) - 1, 0, len)
}

/// The offset one row above `cursor`, or the start of the buffer.
pub open spec fn row_above(cursor: int, width: int) -> int {
    if cursor > width {
        cursor - width
    } else {
        0
    }
}

/// The offset one row below `cursor`, brought into a buffer of `len`
/// characters.
pub open spec fn row_below(cursor: int, width: int, len: int) -> int {
    clamped(cursor + width, 0, len)
}

impl FrameView {
    /// The cursor lies within the content or right behind it.
    pub open spec fn wf(self) -> bool {
        0 <= self.cursor <= self.content.len()
    }

    /// The same frame with its cursor brought to `i`, as far as the content
    /// reaches.
    pub open spec fn set_cur(self, i: int) -> FrameView {
        FrameView { cursor: clamped(i, 0, self.content.len() as int), ..self }
    }

    /// The same frame with another path.
    pub open spec fn set_path(self, p: Seq<char>) -> FrameView {
        FrameView { path: Some(p), ..self }
    }

    /// The frame after `c` was typed at the cursor.
    pub open spec fn write_char(self, c: char) -> FrameView {
        FrameView { content: self.content.insert(self.cursor, c), cursor: self.cursor + 1, ..self }
    }

    /// The frame after the character before the cursor was deleted.
    pub open spec fn backspace(self) -> FrameView {
        if self.cursor > 0 {
            FrameView {
                content: self.content.remove(self.cursor - 1),
                cursor: self.cursor - 1,
                ..self
            }
        } else {
            self
        }
    }

    /// The frame after the character under the cursor was deleted.
    pub open spec fn delete(self) -> FrameView {
        if self.cursor < self.content.len() {
            FrameView { content: self.content.remove(self.cursor), ..self }
        } else {
            self
        }
    }

    /// The frame after a step towards the end of the content.
    pub open spec fn move_fwd(self) -> FrameView {
        self.set_cur(self.cursor + 1)
    }

    /// The frame after a step towards the start of the content.
    pub open spec fn move_bck(self) -> FrameView {
        self.set_cur(self.cursor - 1)
    }

    /// The frame with new content; the cursor stays where the new content
    /// still reaches, and moves to its end otherwise.
    pub open spec fn replace_content(self, text: Seq<char>) -> FrameView {
        FrameView { content: text, cursor: clamped(self.cursor, 0, text.len() as int), ..self }
    }

    /// The span that a kill takes: from the cursor to the end of its row.
    pub open spec fn kill_span(self, width: int) -> Seq<char> {
        self.content.subrange(self.cursor, self.kill_end(width))
    }

    /// Where the span of a kill ends; never before the cursor.
    pub open spec fn kill_end(self, width: int) -> int {
        row_end(self.cursor, width, self.content.len() as int)
    }

    /// The frame after a kill: the span is gone, the cursor has not moved.
    pub open spec fn kill(self, width: int) -> FrameView {
        FrameView {
            content: self.content.subrange(0, self.cursor) + self.content.subrange(
                self.kill_end(width),
                self.content.len() as int,
            ),
            ..self
        }
    }

    /// The frame after `span` was inserted at the cursor, which stays in
    /// front of it.
    pub open spec fn yank(self, span: Seq<char>) -> FrameView {
        FrameView {
            content: self.content.subrange(0, self.cursor) + span + self.content.subrange(
                self.cursor,
                self.content.len() as int,
            ),
            ..self
        }
    }
}

/// The text of an optional path.
pub open spec fn path_text(p: Option<String>) -> Option<Seq<char>> {
    match p {
        Some(s) => Some(s@),
        None => None,
    }
}

/// What has to happen outside the library before an operation is complete.
/// The caller performs it and reports the outcome to the session.
#[derive(Debug)]
pub enum Effect {
    /// Nothing: the operation is complete.
    Nothing,
    /// Write `text`, byte for byte, to the file at `path`.
    WriteFile { path: String, text: String },
    /// Read the whole file at `path`.
    ReadFile { path: String },
    /// Ask the user for a path to save under.
    AskSavePath,
    /// Ask the user for a path to bind the buffer to.
    AskPath,
}

/// An effect as a mathematical value.
pub enum EffectView {
    Nothing,
    WriteFile { path: Seq<char>, text: Seq<char> },
    ReadFile { path: Seq<char> },
    AskSavePath,
    AskPath,
}

impl View for Effect {
    type V = EffectView;

    open spec fn view(&self) -> EffectView {
        match *self {
            Effect::Nothing => EffectView::Nothing,
            Effect::WriteFile { path, text } => EffectView::WriteFile { path: path@, text: text@ },
            Effect::ReadFile { path } => EffectView::ReadFile { path: path@ },
            Effect::AskSavePath => EffectView::AskSavePath,
            Effect::AskPath => EffectView::AskPath,
        }
    }
}

/// An editable text with a cursor.
#[derive(Debug, Clone)]
pub struct Frame {
    id: u16,
    name: String,
    buf: Vec<char>,
    cur: usize,
    path: Option<String>,
}

impl View for Frame {
    type V = FrameView;

    closed spec fn view(&self) -> FrameView {
        FrameView {
            id: self.id,
            name: self.name@,
            content: self.buf@,
            cursor: self.cur as int,
            path: path_text(self.path),
        }
    }
}

/// A new frame with the given identifier, name, text and path. The cursor
/// stands at the start of the text.
pub fn init_frame(uid: u16, n: String, b: String, p: Option<String>) -> (f: Frame)
    ensures
        f@ == (FrameView { id: uid, name: n@, content: b@, cursor: 0, path: path_text(p) }),
        f.wf(),
{
    let chars = chars_of(b.as_str());
    Frame { id: uid, name: n, buf: chars, cur: 0, path: p }
}

/// The offset of the last column of the row that holds `cur`, in a buffer
/// of `len` characters.
pub fn eol_target(cur: usize, cols: usize, len: usize) -> (r: usize)
    requires
        cols > 0,
    ensures
        r == row_end(cur as int, cols as int, len as int),
{
    let add: usize = cols - (cur % cols);
    clamp(cur.saturating_add(add - 1), 0, len)
}

impl Frame {
    /// The cursor lies within the buffer or right behind it.
    pub open spec fn wf(&self) -> bool {
        self@.wf()
    }

    /// The text to show for this frame: its whole content.
    pub fn print(&self) -> (s: String)
        ensures
            s@ == self@.content,
    {
        self.text()
    }

    /// The display name.
    pub fn name(&self) -> (s: String)
        ensures
            s@ == self@.name,
    {
        self.name.clone()
    }

    /// The content as a string.
    pub fn text(&self) -> (s: String)
        ensures
            s@ == self@.content,
    {
        string_of(&self.buf)
    }

    /// The cursor.
    pub fn cur(&self) -> (i: usize)
        ensures
            i == self@.cursor,
    {
        self.cur
    }

    /// The number of characters in the buffer.
    pub fn len(&self) -> (l: usize)
        ensures
            l == self@.content.len(),
    {
        self.buf.len()
    }

    /// The path of the file behind the buffer, if there is one.
    pub fn path(&self) -> (p: Option<String>)
        ensures
            path_text(p) == self@.path,
    {
        self.path.clone()
    }

    /// Moves the cursor to `i`, or to the end of the buffer where `i` lies
    /// behind it.
    pub fn set_cur(&mut self, i: usize)
        ensures
            final(self)@ == old(self)@.set_cur(i as int),
            final(self).wf(),
    {
        self.cur = clamp(i, 0, self.buf.len());
    }

    /// Binds the buffer to the path `p` and logs that.
    pub fn set_path(&mut self, p: String, mbuf: &mut MiniBuf) -> (r: Result<bool, std::io::Error>)
        ensures
            final(self)@ == old(self)@.set_path(p@),
            old(self).wf() ==> final(self).wf(),
            final(mbuf)@ == old(mbuf)@.show_success(path_set_message(p@)),
            r matches Ok(b) && b,
    {
        let quoted = debug_str(p.as_str());
        let s_text = enclosed("path set as Some(", quoted.as_str(), ")");
        self.path = Some(p);
        mbuf.show_success(s_text)
    }

    /// Starts loading the file behind the buffer. With a path, nothing
    /// changes and the caller is told to read that file; without one, an
    /// error is logged and nothing is left to do.
    pub fn load_from_path(&self, mbuf: &mut MiniBuf) -> (e: Effect)
        ensures
            match self@.path {
                Some(p) => e@ == (EffectView::ReadFile { path: p }) && final(mbuf)@ == old(mbuf)@,
                None => e@ == EffectView::Nothing && final(mbuf)@ == old(mbuf)@.show_err(
                    "no file path"@,
                ),
            },
    {
        match &self.path {
            Some(p) => Effect::ReadFile { path: p.clone() },
            None => {
                let _ = mbuf.show_err("no file path".to_owned());
                Effect::Nothing
            },
        }
    }

    /// Completes a load. What was read replaces the content and is logged;
    /// the cursor stays in range. A failure is logged and changes nothing
    /// in the frame.
    pub fn loaded(&mut self, outcome: Result<String, String>, mbuf: &mut MiniBuf)
        requires
            old(self).wf(),
        ensures
            final(self).wf(),
            match outcome {
                Ok(text) => final(self)@ == old(self)@.replace_content(text@) && final(mbuf)@
                    == old(mbuf)@.show_success(text@),
                Err(s) => final(self)@ == old(self)@ && final(mbuf)@ == old(mbuf)@.show_err(s@),
            },
    {
        match outcome {
            Ok(fcontents) => {
                self.buf = chars_of(fcontents.as_str());
                self.cur = clamp(self.cur, 0, self.buf.len());
                let _ = mbuf.show_success(fcontents);
            },
            Err(s) => {
                let _ = mbuf.show_err(s);
            },
        }
    }

    /// Deletes the character before the cursor, if there is one.
    pub fn backspace(&mut self) -> (r: Result<bool, std::io::Error>)
        requires
            old(self).wf(),
        ensures
            final(self)@ == old(self)@.backspace(),
            final(self).wf(),
            r matches Ok(b) && b,
    {
        if self.cur > 0 {
            let i: usize = self.cur;
            let _c = self.buf.remove(i - 1);
            self.cur = i - 1;
        }
        Ok(true)
    }

    /// Deletes the character under the cursor, if there is one.
    pub fn delete(&mut self) -> (r: Result<bool, std::io::Error>)
        requires
            old(self).wf(),
        ensures
            final(self)@ == old(self)@.delete(),
            final(self).wf(),
            r matches Ok(b) && b,
    {
        let l: usize = self.buf.len();
        if self.cur < l {
            let i: usize = self.cur;
            let _c = self.buf.remove(i);
        }
        Ok(true)
    }

    /// Inserts `c` at the cursor and moves the cursor behind it.
    pub fn write_char(&mut self, c: char) -> (r: Result<bool, std::io::Error>)
        requires
            old(self).wf(),
        ensures
            final(self)@ == old(self)@.write_char(c),
            final(self).wf(),
            r matches Ok(b) && b,
    {
        self.buf.insert(self.cur, c);
        assert(self.cur < self.buf.len());
        self.cur = self.cur + 1;
        Ok(true)
    }

    /// Inserts a line break at the cursor.
    pub fn newline(&mut self) -> (r: Result<bool, std::io::Error>)
        requires
            old(self).wf(),
        ensures
            final(self)@ == old(self)@.write_char('\n'),
            final(self).wf(),
            r matches Ok(b) && b,
    {
        self.write_char('\n')
    }

    /// Starts saving the buffer. With a path, the caller is told to write
    /// the content there; without one, to ask for a path first.
    pub fn save(&self) -> (e: Effect)
        ensures
            e@ == save_effect(self@),
    {
        match &self.path {
            None => Effect::AskSavePath,
            Some(path) => Effect::WriteFile { path: path.clone(), text: self.text() },
        }
    }

    /// Binds the buffer to the path `p` that the user gave, and saves it
    /// there.
    pub fn save_as(&mut self, p: String) -> (e: Effect)
        ensures
            final(self)@ == old(self)@.set_path(p@),
            old(self).wf() ==> final(self).wf(),
            e@ == (EffectView::WriteFile { path: p@, text: old(self)@.content }),
    {
        self.path = Some(p);
        self.save()
    }

    /// Moves the cursor one step towards the end of the buffer.
    pub fn move_fwd(&mut self) -> (r: Result<bool, std::io::Error>)
        requires
            old(self).wf(),
        ensures
            final(self)@ == old(self)@.move_fwd(),
            final(self).wf(),
            r matches Ok(b) && b,
    {
        let l: usize = self.buf.len();
        let new_i: usize = clamp(self.cur().saturating_add(1), 0, l);
        self.set_cur(new_i);
        Ok(true)
    }

    /// Moves the cursor one step towards the start of the buffer.
    pub fn move_bck(&mut self) -> (r: Result<bool, std::io::Error>)
        requires
            old(self).wf(),
        ensures
            final(self)@ == old(self)@.move_bck(),
            final(self).wf(),
            r matches Ok(b) && b,
    {
        let l: usize = self.buf.len();
        let new_i: usize = if l >= 1 {
            clamp(self.cur(), 1, l) - 1
        } else {
            0
        };
        self.set_cur(new_i);
        Ok(true)
    }

    /// Cuts the span from the cursor to the end of its row, for rows of
    /// `cols` characters, and stores it in the kill ring.
    pub fn kill(&mut self, kr: &mut Killring, cols: usize) -> (r: Result<bool, std::io::Error>)
        requires
            old(self).wf(),
            cols > 0,
        ensures
            final(self)@ == old(self)@.kill(cols as int),
            final(kr)@ == old(kr)@.push(old(self)@.kill_span(cols as int)),
            final(self).wf(),
            r matches Ok(b) && b,
    {
        let end: usize = eol_target(self.cur, cols, self.buf.len());
        let span = span_of(&self.buf, self.cur, end);
        let mut n: usize = end - self.cur;
        while n > 0
            invariant
                self.cur + n <= self.buf.len(),
                self.cur == old(self).cur,
                self.id == old(self).id,
                self.name == old(self).name,
                self.path == old(self).path,
                self.buf@ == old(self).buf@.subrange(0, self.cur as int) + old(self).buf@.subrange(
                    end - n,
                    old(self).buf@.len() as int,
                ),
                n <= end - self.cur,
                end <= old(self).buf@.len(),
            decreases n,
        {
            let _c = self.buf.remove(self.cur);
            n -= 1;
            assert(self.buf@ =~= old(self).buf@.subrange(0, self.cur as int)
                + old(self).buf@.subrange(end - n, old(self).buf@.len() as int));
        }
        kr.kill(span)
    }

    /// Takes the most recent span from the kill ring and inserts it at the
    /// cursor, which stays in front of it.
    pub fn yank(&mut self, kr: &mut Killring) -> (r: Result<bool, std::io::Error>)
        requires
            old(self).wf(),
        ensures
            final(self).wf(),
            old(kr)@.len() == 0 ==> final(self)@ == old(self)@ && final(kr)@ == old(kr)@,
            old(kr)@.len() > 0 ==> final(self)@ == old(self)@.yank(old(kr)@.last()) && final(kr)@
                == old(kr)@.drop_last(),
            r matches Ok(b) && b,
    {
        let span = match kr.yank() {
            Ok(s) => s,
            Err(_) => String::new(),
        };
        let chars = chars_of(span.as_str());
        let mut i: usize = 0;
        while i < chars.len()
            invariant
                i <= chars.len(),
                self.cur == old(self).cur,
                self.id == old(self).id,
                self.name == old(self).name,
                self.path == old(self).path,
                self.cur <= old(self).buf@.len(),
                self.buf@ == old(self).buf@.subrange(0, self.cur as int) + chars@.take(i as int)
                    + old(self).buf@.subrange(self.cur as int, old(self).buf@.len() as int),
            decreases chars.len() - i,
        {
            assert(self.cur + i <= self.buf.len());
            self.buf.insert(self.cur + i, chars[i]);
            i += 1;
            assert(self.buf@ =~= old(self).buf@.subrange(0, self.cur as int)
                + chars@.take(i as int)
                + old(self).buf@.subrange(self.cur as int, old(self).buf@.len() as int));
        }
        proof {
            assert(chars@.take(i as int) =~= chars@);
            if old(kr)@.len() == 0 {
                assert(self.buf@ =~= old(self).buf@);
            }
        }
        Ok(true)
    }
}

/// The message that is logged when a path was set.
pub open spec fn path_set_message(p: Seq<char>) -> Seq<char> {
    "path set as Some("@ + str_debug_text(p) + ")"@
}

/// What a save asks of the caller: the whole content, written to the
/// frame's path; or a path first, where the frame has none.
pub open spec fn save_effect(f: FrameView) -> EffectView {
    match f.path {
        None => EffectView::AskSavePath,
        Some(p) => EffectView::WriteFile { path: p, text: f.content },
    }
}

} // verus!

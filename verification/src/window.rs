//! The window: the session that owns the open frames, the minibuffer, the
//! kill ring and the key bindings, and executes commands on the active
//! frame.
//!
//! The window reaches neither the terminal nor the file system. Its caller
//! hands it each key press and the width of the terminal, carries out the
//! [`Effect`] that an operation returns, and reports the outcome with
//! `file_written`, `file_read`, `get_path_from_user` or `save_path_entered`.

use crate::actions::{action_name, action_text, Action};
use crate::frame::{
    eol_target, init_frame, path_set_message, row_above, row_below, row_end, row_start,
    save_effect, Effect, EffectView, Frame, FrameView,
};
use crate::handler::{
    distinct_names, edited, key_name, lookup_in, named_log, standard_table, unknown_log, Handler,
};
use crate::keys::Key;
use crate::killring::Killring;
use crate::mini::{MiniBuf, MiniBufView};
use crate::modeline::Modeline;
use crate::text::headed;
use crate::trusted::{clamp, debug_str, str_debug_text};
use vstd::prelude::*;

verus! {

/// What a window is, as a mathematical value.
pub struct WindowView {
    pub frames: Seq<FrameView>,
    pub active: int,
    pub log: MiniBufView,
    pub mini_shown: bool,
    pub bindings: Seq<(Seq<char>, Action)>,
    pub modeline: Seq<char>,
    pub kills: Seq<Seq<char>>,
    pub interrupted: bool,
}

/// The message that is logged for a command that could not be executed.
pub open spec fn failed_message(act: Action) -> Seq<char> {
    "failed to execute command "@ + action_text(act)
}

/// The message that is logged when the content was written to `path`.
pub open spec fn saved_message(path: Seq<char>) -> Seq<char> {
    "saved in "@ + str_debug_text(path)
}

/// The names of the given frames, in their order.
pub open spec fn names_of(frames: Seq<FrameView>) -> Seq<Seq<char>> {
    frames.map_values(|f: FrameView| f.name)
}

impl WindowView {
    /// The active frame is one of the open frames, every frame is
    /// well-formed, and no name is bound twice.
    pub open spec fn wf(self) -> bool {
        &&& 0 <= self.active < self.frames.len()
        &&& forall|i: int| 0 <= i < self.frames.len() ==> (#[trigger] self.frames[i]).wf()
        &&& distinct_names(self.bindings)
    }

    /// The frame that commands act on.
    pub open spec fn aframe(self) -> FrameView {
        self.frames[self.active]
    }

    /// The same window with `f` in the place of the active frame.
    pub open spec fn with_aframe(self, f: FrameView) -> WindowView {
        WindowView { frames: self.frames.update(self.active, f), ..self }
    }

    /// The same window with another log.
    pub open spec fn with_log(self, log: MiniBufView) -> WindowView {
        WindowView { log: log, ..self }
    }

    /// The same window with the minibuffer shown if it was hidden, and
    /// hidden if it was shown.
    pub open spec fn popup_mini(self) -> WindowView {
        WindowView { mini_shown: !self.mini_shown, ..self }
    }

    /// The window after `act` was executed with a terminal `width` columns
    /// wide.
    pub open spec fn execute(self, act: Action, width: int) -> WindowView {
        let f = self.aframe();
        let len = f.content.len() as int;
        match act {
            Action::Quit => WindowView { interrupted: true, ..self },
            Action::DoNo => self,
            Action::Save => self,
            Action::MoveUp => self.with_aframe(
                FrameView { cursor: row_above(f.cursor, width), ..f },
            ),
            Action::MoveDown => self.with_aframe(
                FrameView { cursor: row_below(f.cursor, width, len), ..f },
            ),
            Action::MoveLeft => self.with_aframe(f.move_bck()),
            Action::MoveRight => self.with_aframe(f.move_fwd()),
            Action::Eol => self.with_aframe(
                FrameView { cursor: row_end(f.cursor, width, len), ..f },
            ),
            Action::Bol => self.with_aframe(FrameView { cursor: row_start(f.cursor, width), ..f }),
            Action::Kill => WindowView {
                frames: self.frames.update(self.active, f.kill(width)),
                kills: self.kills.push(f.kill_span(width)),
                ..self
            },
            Action::Yank => if self.kills.len() == 0 {
                self
            } else {
                WindowView {
                    frames: self.frames.update(self.active, f.yank(self.kills.last())),
                    kills: self.kills.drop_last(),
                    ..self
                }
            },
            Action::PrintMini => self.popup_mini(),
            Action::LoadFromFilePath => match f.path {
                Some(_) => self,
                None => self.with_log(self.log.show_err("no file path"@)),
            },
            Action::SetActiveFilePath => self,
        }
    }

    /// What executing `act` leaves for the caller to do.
    pub open spec fn effect_of(self, act: Action) -> EffectView {
        match act {
            Action::Save => save_effect(self.aframe()),
            Action::LoadFromFilePath => match self.aframe().path {
                Some(p) => EffectView::ReadFile { path: p },
                None => EffectView::Nothing,
            },
            Action::SetActiveFilePath => EffectView::AskPath,
            _ => EffectView::Nothing,
        }
    }

    /// The window after a key press was dispatched.
    pub open spec fn handle_keypress(self, k: Key) -> WindowView {
        match lookup_in(self.bindings, key_name(k)) {
            Some(_) => self.with_log(named_log(self.log, k)),
            None => self.with_aframe(edited(self.aframe(), k)).with_log(
                unknown_log(named_log(self.log, k), k),
            ),
        }
    }

    /// The command that a key press gives.
    pub open spec fn action_of(self, k: Key) -> Action {
        match lookup_in(self.bindings, key_name(k)) {
            Some(a) => a,
            None => Action::DoNo,
        }
    }
}

/// What the caller has to draw: the lines of text from the top, and the
/// column and the row of the terminal's cursor.
#[derive(Debug)]
pub struct Screen {
    pub lines: Vec<String>,
    pub x: usize,
    pub y: usize,
}

/// The whole editor state behind one terminal.
#[derive(Debug)]
pub struct Window {
    frames: Vec<Frame>,
    active: usize,
    mbuf: MiniBuf,
    mbup: bool,
    handler: Handler,
    mdln: Modeline,
    kilr: Killring,
    interrupted: bool,
}

impl View for Window {
    type V = WindowView;

    closed spec fn view(&self) -> WindowView {
        WindowView {
            frames: Seq::new(self.frames@.len(), |i: int| self.frames@[i]@),
            active: self.active as int,
            log: self.mbuf@,
            mini_shown: self.mbup,
            bindings: self.handler.table(),
            modeline: self.mdln@,
            kills: self.kilr@,
            interrupted: self.interrupted,
        }
    }
}

/// A new window: one scratch frame, which is active, the standard key
/// bindings, an empty kill ring, and the minibuffer hidden.
pub fn init_win() -> (w: Window)
    ensures
        w.wf(),
        w@ == (WindowView {
            frames: seq![
                FrameView {
                    id: 0,
                    name: "Startup Buffer Name"@,
                    content: "Startup Buffer Text"@,
                    cursor: 0,
                    path: None,
                },
            ],
            active: 0,
            log: MiniBufView { outs: seq!["Success List"@], errs: seq!["Error List"@] },
            mini_shown: false,
            bindings: standard_table(),
            modeline: "Modeline"@,
            kills: Seq::empty(),
            interrupted: false,
        }),
{
    let fnam = "Startup Buffer Name".to_owned();
    let fbuf = "Startup Buffer Text".to_owned();
    let af = init_frame(0, fnam, fbuf, None);
    let mut fs: Vec<Frame> = Vec::new();
    fs.push(af);
    let kr: Killring = Killring::init_killring();
    let out = Window {
        frames: fs,
        active: 0,
        mbuf: MiniBuf::init_minibuf(),
        mdln: Modeline::init_modeline(),
        handler: Handler::init_handler(),
        mbup: false,
        kilr: kr,
        interrupted: false,
    };
    assert(out@.frames =~= seq![af@]);
    out
}

/// The column and the row of the terminal at which the buffer offset `i`
/// is shown, on a terminal `cols` columns wide.
pub fn fcur_to_tcur(i: usize, cols: usize) -> (r: (usize, usize))
    requires
        cols > 0,
    ensures
        r.0 == i % cols,
        r.1 == i / cols,
{
    let x: usize = i % cols;
    let y: usize = i / cols;
    (x, y)
}

impl Window {
    /// The window is well-formed when its value is.
    pub open spec fn wf(&self) -> bool {
        self@.wf()
    }

    /// Whether the session has been ended by a quit command.
    pub fn is_interrupted(&self) -> (b: bool)
        ensures
            b == self@.interrupted,
    {
        self.interrupted
    }

    /// Whether the minibuffer is shown.
    pub fn mini_shown(&self) -> (b: bool)
        ensures
            b == self@.mini_shown,
    {
        self.mbup
    }

    /// The active frame.
    pub fn aframe(&self) -> (f: &Frame)
        requires
            self.wf(),
        ensures
            f@ == self@.aframe(),
            f.wf(),
    {
        &self.frames[self.active]
    }

    /// The minibuffer.
    pub fn mbuf(&self) -> (m: &MiniBuf)
        ensures
            m@ == self@.log,
    {
        &self.mbuf
    }

    /// The number of open frames.
    pub fn frame_count(&self) -> (n: usize)
        ensures
            n == self@.frames.len(),
    {
        self.frames.len()
    }

    /// What to draw on a terminal `cols` columns wide: the text of the
    /// active frame, the minibuffer where it is shown, the mode line, and
    /// the place of the cursor.
    pub fn refresh(&self, cols: usize) -> (s: Screen)
        requires
            self.wf(),
            cols > 0,
        ensures
            s.lines.deep_view() == if self@.mini_shown {
                seq![self@.aframe().content, self@.log.text(), self@.modeline]
            } else {
                seq![self@.aframe().content, self@.modeline]
            },
            s.x == self@.aframe().cursor % (cols as int),
            s.y == self@.aframe().cursor / (cols as int),
    {
        let mut lines: Vec<String> = Vec::new();
        lines.push(self.frames[self.active].print());
        if self.mbup {
            lines.push(self.mbuf.print());
        }
        lines.push(self.mdln.print());
        let (new_x, new_y) = fcur_to_tcur(self.frames[self.active].cur(), cols);
        proof {
            if self.mbup {
                assert(lines.deep_view() =~= seq![
                    self@.aframe().content,
                    self@.log.text(),
                    self@.modeline,
                ]);
            } else {
                assert(lines.deep_view() =~= seq![self@.aframe().content, self@.modeline]);
            }
        }
        Screen { lines: lines, x: new_x, y: new_y }
    }

    /// Adds a frame to the window and makes it the active one.
    pub fn add_frame(&mut self, frame: Frame) -> (r: Result<(), std::io::Error>)
        requires
            old(self).wf(),
            frame.wf(),
        ensures
            final(self).wf(),
            final(self)@ == (WindowView {
                frames: old(self)@.frames.push(frame@),
                active: old(self)@.frames.len() as int,
                ..old(self)@
            }),
            r is Ok,
    {
        self.frames.push(frame);
        self.active = self.frames.len() - 1;
        assert(self@.frames =~= old(self)@.frames.push(frame@));
        Ok(())
    }

    /// Lists the names of the open frames in the minibuffer.
    pub fn ls_frames(&mut self) -> (r: Result<bool, std::io::Error>)
        requires
            old(self).wf(),
        ensures
            final(self).wf(),
            final(self)@ == old(self)@.with_log(
                MiniBufView {
                    outs: old(self)@.log.outs + names_of(old(self)@.frames),
                    ..old(self)@.log
                },
            ),
            r matches Ok(b) && b,
    {
        let mut i: usize = 0;
        assert(names_of(self@.frames).take(0) =~= Seq::empty());
        assert(self@.log.outs + Seq::<Seq<char>>::empty() =~= self@.log.outs);
        while i < self.frames.len()
            invariant
                i <= self.frames.len(),
                self.wf(),
                self@ == old(self)@.with_log(
                    MiniBufView {
                        outs: old(self)@.log.outs + names_of(old(self)@.frames).take(i as int),
                        ..old(self)@.log
                    },
                ),
            decreases self.frames.len() - i,
        {
            let out = self.frames[i].name();
            let _ = self.mbuf.show_success(out);
            i += 1;
            assert(old(self)@.log.outs + names_of(old(self)@.frames).take(i as int)
                =~= (old(self)@.log.outs + names_of(old(self)@.frames).take(i - 1)).push(out@));
        }
        assert(names_of(old(self)@.frames).take(i as int) =~= names_of(old(self)@.frames));
        Ok(true)
    }

    /// Shows the minibuffer if it was hidden, and hides it if it was shown.
    pub fn popup_mini(&mut self) -> (r: Result<bool, std::io::Error>)
        ensures
            final(self)@ == old(self)@.popup_mini(),
            old(self).wf() ==> final(self).wf(),
            r matches Ok(b) && b,
    {
        self.mbup = !self.mbup;
        Ok(true)
    }

    /// Binds the active frame to the path that the user gave, and logs
    /// that.
    pub fn get_path_from_user(&mut self, path: String) -> (r: Result<bool, std::io::Error>)
        requires
            old(self).wf(),
        ensures
            final(self).wf(),
            final(self)@ == old(self)@.with_aframe(old(self)@.aframe().set_path(path@)).with_log(
                old(self)@.log.show_success(path_set_message(path@)),
            ),
            r matches Ok(b) && b,
    {
        let r = self.frames[self.active].set_path(path, &mut self.mbuf);
        assert(self@.frames =~= old(self)@.frames.update(
            old(self)@.active,
            old(self)@.aframe().set_path(path@),
        ));
        r
    }

    /// Binds the active frame to the path that the user gave for a save,
    /// and tells the caller to write the content there.
    pub fn save_path_entered(&mut self, path: String) -> (e: Effect)
        requires
            old(self).wf(),
        ensures
            final(self).wf(),
            final(self)@ == old(self)@.with_aframe(old(self)@.aframe().set_path(path@)),
            e@ == (EffectView::WriteFile { path: path@, text: old(self)@.aframe().content }),
    {
        let e = self.frames[self.active].save_as(path);
        assert(self@.frames =~= old(self)@.frames.update(
            old(self)@.active,
            old(self)@.aframe().set_path(path@),
        ));
        e
    }

    /// Takes the outcome of writing the content to `path`: a success is
    /// logged with the path, a failure with its own text.
    pub fn file_written(&mut self, path: &String, outcome: Result<(), String>)
        ensures
            old(self).wf() ==> final(self).wf(),
            match outcome {
                Ok(_) => final(self)@ == old(self)@.with_log(
                    old(self)@.log.show_success(saved_message(path@)),
                ),
                Err(s) => final(self)@ == old(self)@.with_log(old(self)@.log.show_err(s@)),
            },
    {
        match outcome {
            Ok(_) => {
                let quoted = debug_str(path.as_str());
                let s_text = headed("saved in ", quoted.as_str());
                let _ = self.mbuf.show_success(s_text);
            },
            Err(s) => {
                let _ = self.mbuf.show_err(s);
            },
        }
    }

    /// Takes the outcome of reading the file of the active frame: what was
    /// read replaces the content of the frame and is logged; a failure is
    /// logged with its own text.
    pub fn file_read(&mut self, outcome: Result<String, String>)
        requires
            old(self).wf(),
        ensures
            final(self).wf(),
            match outcome {
                Ok(text) => final(self)@ == old(self)@.with_aframe(
                    old(self)@.aframe().replace_content(text@),
                ).with_log(old(self)@.log.show_success(text@)),
                Err(s) => final(self)@ == old(self)@.with_log(old(self)@.log.show_err(s@)),
            },
    {
        assert(self@.aframe().wf());
        self.frames[self.active].loaded(outcome, &mut self.mbuf);
        assert(self@.frames =~= old(self)@.frames.update(old(self)@.active, self@.aframe()));
        assert(old(self)@.frames.update(old(self)@.active, old(self)@.aframe()) =~= old(self)@.frames);
    }

    /// Dispatches one key press on the active frame.
    pub fn handle_keypress(&mut self, raw_k: Key) -> (r: Result<Action, std::io::Error>)
        requires
            old(self).wf(),
        ensures
            final(self).wf(),
            final(self)@ == old(self)@.handle_keypress(raw_k),
            r matches Ok(a) && a == old(self)@.action_of(raw_k),
    {
        assert(self@.aframe().wf());
        let r = self.handler.handle_keypress(raw_k, &mut self.frames[self.active], &mut self.mbuf);
        assert(self@.frames =~= old(self)@.frames.update(old(self)@.active, self@.aframe()));
        assert(old(self)@.frames.update(old(self)@.active, old(self)@.aframe()) =~= old(self)@.frames);
        r
    }

    /// Logs that `act` could not be executed, and toggles the minibuffer.
    pub fn report_failed(&mut self, act: Action) -> (r: Result<bool, std::io::Error>)
        ensures
            final(self)@ == old(self)@.with_log(
                old(self)@.log.show_err(failed_message(act)),
            ).popup_mini(),
            old(self).wf() ==> final(self).wf(),
            r matches Ok(b) && b,
    {
        let name = action_name(act);
        let error_text = headed("failed to execute command ", name.as_str());
        let _ = self.mbuf.show_err(error_text);
        self.popup_mini()
    }

    /// Executes a command on the active frame, for a terminal `cols`
    /// columns wide, and returns what is left for the caller to do.
    #[allow(unreachable_patterns)]
    pub fn execute(&mut self, act: Action, cols: usize) -> (e: Effect)
        requires
            old(self).wf(),
            (act == Action::Eol || act == Action::Bol || act == Action::Kill) ==> cols > 0,
        ensures
            final(self).wf(),
            final(self)@ == old(self)@.execute(act, cols as int),
            e@ == old(self)@.effect_of(act),
    {
        assert(self@.aframe().wf());
        let c: usize = cols;
        let l: usize = self.frames[self.active].len();
        let old_i: usize = self.frames[self.active].cur();
        let e = match act {
            Action::Quit => {
                self.interrupted = true;
                Effect::Nothing
            },
            Action::DoNo => Effect::Nothing,
            Action::Save => self.frames[self.active].save(),
            Action::MoveUp => {
                if old_i > c {
                    let new_cur: usize = old_i - c;
                    self.frames[self.active].set_cur(new_cur);
                } else {
                    self.frames[self.active].set_cur(0);
                }
                Effect::Nothing
            },
            Action::MoveDown => {
                let new_cur: usize = clamp(old_i.saturating_add(c), 0, l);
                self.frames[self.active].set_cur(new_cur);
                Effect::Nothing
            },
            Action::MoveLeft => {
                let _ = self.frames[self.active].move_bck();
                Effect::Nothing
            },
            Action::MoveRight => {
                let _ = self.frames[self.active].move_fwd();
                Effect::Nothing
            },
            Action::Eol => {
                self.frames[self.active].set_cur(eol_target(old_i, c, l));
                Effect::Nothing
            },
            Action::Bol => {
                let rem: usize = old_i % c;
                assert(old_i % c <= old_i) by (nonlinear_arith)
                    requires
                        c > 0,
                ;
                self.frames[self.active].set_cur(old_i - rem);
                Effect::Nothing
            },
            Action::Kill => {
                let _ = self.frames[self.active].kill(&mut self.kilr, c);
                Effect::Nothing
            },
            Action::Yank => {
                let _ = self.frames[self.active].yank(&mut self.kilr);
                Effect::Nothing
            },
            Action::PrintMini => {
                let _ = self.popup_mini();
                Effect::Nothing
            },
            Action::LoadFromFilePath => self.frames[self.active].load_from_path(&mut self.mbuf),
            Action::SetActiveFilePath => Effect::AskPath,
            // Don't crash, just tell what went wrong.
            c => {
                let _ = self.report_failed(c);
                Effect::Nothing
            },
        };
        assert(self@.frames =~= old(self)@.frames.update(old(self)@.active, self@.aframe()));
        assert(old(self)@.frames.update(old(self)@.active, old(self)@.aframe()) =~= old(self)@.frames);
        e
    }
}

} // verus!

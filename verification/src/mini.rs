//! The minibuffer: the log of success and error messages of a session.

use crate::text::{enclosed, show_strings, strings_text};
use vstd::prelude::*;

verus! {

/// What a minibuffer holds, as a mathematical value.
pub struct MiniBufView {
    pub outs: Seq<Seq<char>>,
    pub errs: Seq<Seq<char>>,
}

impl MiniBufView {
    /// The log with one more error.
    pub open spec fn show_err(self, e: Seq<char>) -> MiniBufView {
        MiniBufView { errs: self.errs.push(e), ..self }
    }

    /// The log with one more success message.
    pub open spec fn show_success(self, s: Seq<char>) -> MiniBufView {
        MiniBufView { outs: self.outs.push(s), ..self }
    }

    /// The text that shows the whole log: both lists, each on a line of its
    /// own.
    pub open spec fn text(self) -> Seq<char> {
        "\n"@ + strings_text(self.outs) + "\n"@ + strings_text(self.errs)
    }
}

/// Two lists of messages, each in the order in which they were reported.
#[derive(Debug, Clone)]
pub struct MiniBuf {
    outs: Vec<String>,
    errs: Vec<String>,
}

impl View for MiniBuf {
    type V = MiniBufView;

    closed spec fn view(&self) -> MiniBufView {
        MiniBufView { outs: self.outs.deep_view(), errs: self.errs.deep_view() }
    }
}

impl MiniBuf {
    /// A minibuffer whose two lists hold their headings.
    pub fn init_minibuf() -> (m: MiniBuf)
        ensures
            m@ == (MiniBufView { outs: seq!["Success List"@], errs: seq!["Error List"@] }),
    {
        let mut bs: Vec<String> = Vec::new();
        bs.push("Success List".to_owned());
        let mut es: Vec<String> = Vec::new();
        es.push("Error List".to_owned());
        let m = MiniBuf { outs: bs, errs: es };
        assert(m@.outs =~= seq!["Success List"@]);
        assert(m@.errs =~= seq!["Error List"@]);
        m
    }

    /// The text to show for the minibuffer.
    pub fn print(&self) -> (s: String)
        ensures
            s@ == self@.text(),
    {
        let o = show_strings(&self.outs);
        let mut s: String = enclosed("\n", o.as_str(), "\n");
        let e = show_strings(&self.errs);
        s.append(e.as_str());
        s
    }

    /// Records an error.
    pub fn show_err(&mut self, e: String) -> (r: Result<bool, std::io::Error>)
        ensures
            final(self)@ == old(self)@.show_err(e@),
            r matches Ok(b) && b,
    {
        self.errs.push(e);
        assert(self@.errs =~= old(self)@.errs.push(e@));
        Ok(true)
    }

    /// Records the output of a successful execution.
    pub fn show_success(&mut self, s: String) -> (r: Result<bool, std::io::Error>)
        ensures
            final(self)@ == old(self)@.show_success(s@),
            r matches Ok(b) && b,
    {
        self.outs.push(s);
        assert(self@.outs =~= old(self)@.outs.push(s@));
        Ok(true)
    }

    /// The success messages, oldest first.
    pub fn outs(&self) -> (v: Vec<String>)
        ensures
            v.deep_view() == self@.outs,
    {
        self.outs.clone()
    }

    /// The error messages, oldest first.
    pub fn errs(&self) -> (v: Vec<String>)
        ensures
            v.deep_view() == self@.errs,
    {
        self.errs.clone()
    }
}

} // verus!

//! The mode line: one line of information below the text.

use vstd::prelude::*;

verus! {

/// The line that the window shows below the text.
#[derive(Debug, Clone)]
pub struct Modeline {
    buf: String,
}

impl View for Modeline {
    type V = Seq<char>;

    closed spec fn view(&self) -> Seq<char> {
        self.buf@
    }
}

impl Modeline {
    /// The mode line with its standard text.
    pub fn init_modeline() -> (m: Modeline)
        ensures
            m@ == "Modeline"@,
    {
        Modeline { buf: "Modeline".to_owned() }
    }

    /// The text to show for the mode line.
    pub fn print(&self) -> (s: String)
        ensures
            s@ == self@,
    {
        self.buf.clone()
    }
}

} // verus!

//! The kill ring: a stack of text spans that were cut from a buffer.

use vstd::prelude::*;

verus! {

/// The history of killed spans, the most recent one last.
#[derive(Debug, Clone)]
pub struct Killring {
    hist: Vec<String>,
}

impl View for Killring {
    type V = Seq<Seq<char>>;

    /// The killed spans, oldest first.
    closed spec fn view(&self) -> Seq<Seq<char>> {
        self.hist.deep_view()
    }
}

impl Killring {
    /// The empty kill ring.
    pub fn init_killring() -> (k: Killring)
        ensures
            k@ == Seq::<Seq<char>>::empty(),
    {
        let h: Vec<String> = Vec::new();
        let k = Killring { hist: h };
        assert(k@ =~= Seq::<Seq<char>>::empty());
        k
    }

    /// Stores a killed span on top of the history.
    pub fn kill(&mut self, s: String) -> (r: Result<bool, std::io::Error>)
        ensures
            final(self)@ == old(self)@.push(s@),
            r matches Ok(b) && b,
    {
        self.hist.push(s);
        assert(self@ =~= old(self)@.push(s@));
        Ok(true)
    }

    /// Takes the most recent span off the history and returns it. On an
    /// empty history the result is the empty span and nothing changes.
    pub fn yank(&mut self) -> (r: Result<String, std::io::Error>)
        ensures
            r is Ok,
            old(self)@.len() == 0 ==> {
                &&& r->Ok_0@ == Seq::<char>::empty()
                &&& final(self)@ == old(self)@
            },
            old(self)@.len() > 0 ==> {
                &&& r->Ok_0@ == old(self)@.last()
                &&& final(self)@ == old(self)@.drop_last()
            },
    {
        match self.hist.pop() {
            Some(s) => {
                assert(self@ =~= old(self)@.drop_last());
                Ok(s)
            },
            None => Ok(String::new()),
        }
    }
}

} // verus!

use vstd::prelude::*;

verus! {

/// One of the two players' marks.
#[derive(Clone, Copy, Debug, Hash, PartialEq, Eq, Structural)]
pub enum Mark {
    X,
    O,
}

impl Mark {
    /// The other player's mark.
    pub open spec fn spec_opponent(self) -> Mark {
        match self {
            Mark::X => Mark::O,
            Mark::O => Mark::X,
        }
    }

    /// The one-letter text of the mark.
    pub open spec fn spec_text(self) -> Seq<char> {
        match self {
            Mark::X => "X"@,
            Mark::O => "O"@,
        }
    }

    /// The one-letter text of the mark.
    pub fn to_str(self) -> (r: &'static str)
        ensures
            r@ == self.spec_text(),
    {
        match self {
            Mark::X => "X",
            Mark::O => "O",
        }
    }

    /// The other player's mark.
    pub fn opponent(self) -> (r: Mark)
        ensures
            r == self.spec_opponent(),
    {
        match self {
            Mark::X => Mark::O,
            Mark::O => Mark::X,
        }
    }
}

} // verus!

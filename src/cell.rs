use vstd::prelude::*;

use crate::mark::Mark;

verus! {

/// The text shown for a slot: the mark's letter, or a blank.
pub open spec fn slot_text(s: Option<Mark>) -> Seq<char> {
    match s {
        None => " "@,
        Some(m) => m.spec_text(),
    }
}

/// One square of a sub-board: empty, or holding the mark placed in it.
/// Once a mark is placed it is never changed.
#[derive(Clone, Copy, Debug, Hash, PartialEq, Eq, Structural)]
pub struct Cell(Option<Mark>);

impl View for Cell {
    type V = Option<Mark>;

    closed spec fn view(&self) -> Option<Mark> {
        self.0
    }
}

impl Default for Cell {
    fn default() -> (r: Cell)
        ensures
            r@ is None,
    {
        Cell(None)
    }
}

impl Cell {
    /// The mark in the cell, if any.
    pub fn mark(&self) -> (r: Option<Mark>)
        ensures
            r == self@,
    {
        self.0
    }

    /// Whether no mark has been placed in the cell.
    pub fn is_empty(&self) -> (r: bool)
        ensures
            r == self@ is None,
    {
        self.0.is_none()
    }

    /// Places `mark` if the cell is empty. An occupied cell is left as it is
    /// and the call returns false.
    pub fn place_move(&mut self, mark: Mark) -> (r: bool)
        ensures
            r == old(self)@ is None,
            r ==> final(self)@ == Some(mark),
            !r ==> *final(self) == *old(self),
    {
        if self.is_empty() {
            self.0 = Some(mark);
            true
        } else {
            false
        }
    }

    /// The text shown for the cell.
    pub fn to_str(self) -> (r: &'static str)
        ensures
            r@ == slot_text(self@),
    {
        match self.0 {
            None => " ",
            Some(mark) => mark.to_str(),
        }
    }
}

} // verus!

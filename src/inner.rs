use vstd::prelude::*;

use crate::cell::{slot_text, Cell};
use crate::coord::Coord;
use crate::lines::{lemma_no_marks, line_winner, scan_lines};
use crate::mark::Mark;

verus! {

/// A grid of nine empty slots.
pub open spec fn empty_grid() -> Seq<Option<Mark>> {
    Seq::new(9, |i: int| None)
}

/// A sub-board with cells `s` takes a mark at `cell` exactly when it is not
/// won yet and that cell is empty.
pub open spec fn sub_accepts(s: Seq<Option<Mark>>, cell: Coord) -> bool {
    line_winner(s) is None && s[cell.spec_index()] is None
}

/// The cells of a sub-board after `mark` is offered at `cell`: placed if the
/// sub-board accepts it, unchanged otherwise.
pub open spec fn sub_after(s: Seq<Option<Mark>>, mark: Mark, cell: Coord) -> Seq<Option<Mark>> {
    if sub_accepts(s, cell) {
        s.update(cell.spec_index(), Some(mark))
    } else {
        s
    }
}

/// One row of an open sub-board's picture: three cells between thin bars.
pub open spec fn row_text(a: Option<Mark>, b: Option<Mark>, c: Option<Mark>) -> Seq<char> {
    slot_text(a) + "│"@ + slot_text(b) + "│"@ + slot_text(c)
}

/// The five lines of text that picture a sub-board: its cells while it is
/// open, a large letter of its winner once it is won.
pub open spec fn sub_board_text(s: Seq<Option<Mark>>) -> Seq<Seq<char>> {
    match line_winner(s) {
        None => seq![
            row_text(s[0], s[1], s[2]),
            "─┼─┼─"@,
            row_text(s[3], s[4], s[5]),
            "─┼─┼─"@,
            row_text(s[6], s[7], s[8]),
        ],
        Some(Mark::X) => seq!["X   X"@, " X X "@, "  X  "@, " X X "@, "X   X"@],
        Some(Mark::O) => seq![" OOO "@, "O   O"@, "O   O"@, "O   O"@, " OOO "@],
    }
}

/// One of the nine 3x3 boards. It holds its cells and caches its winner; once
/// won it takes no further marks.
#[derive(Clone, Copy, Debug, Hash, PartialEq, Eq)]
pub struct InnerBoard {
    cells: [Cell; 9],
    winner: Option<Mark>,
}

impl View for InnerBoard {
    type V = Seq<Option<Mark>>;

    /// The marks of the nine cells, in row-major order.
    closed spec fn view(&self) -> Seq<Option<Mark>> {
        self.cells@.map_values(|c: Cell| c@)
    }
}

impl InnerBoard {
    /// The cached winner agrees with the cells.
    pub closed spec fn wf(&self) -> bool {
        self.winner == line_winner(self@)
    }

    pub proof fn lemma_len(&self)
        ensures
            self@.len() == 9,
    {
    }

    /// A sub-board with nine empty cells and no winner.
    pub fn new() -> (r: InnerBoard)
        ensures
            r.wf(),
            r@ == empty_grid(),
            line_winner(r@) is None,
    {
        let r = InnerBoard { cells: [Cell::default();9], winner: None };
        assert(r@ =~= empty_grid());
        proof {
            lemma_no_marks(r@);
        }
        r
    }

    /// Whether `cell` holds no mark.
    pub fn is_empty(&self, cell: Coord) -> (r: bool)
        ensures
            r == (self@[cell.spec_index()] is None),
    {
        self.cells[cell.index()].is_empty()
    }

    /// Places `mark` at `cell` and updates the cached winner. The move is
    /// refused, and nothing changes, when the sub-board is already won or
    /// the cell is taken.
    pub fn place_move(&mut self, mark: Mark, cell: Coord) -> (r: bool)
        requires
            old(self).wf(),
        ensures
            final(self).wf(),
            r == sub_accepts(old(self)@, cell),
            final(self)@ == sub_after(old(self)@, mark, cell),
            !r ==> *final(self) == *old(self),
    {
        let i = cell.index();
        if self.winner.is_none() && self.cells[i].is_empty() {
            let mut c = self.cells[i];
            c.place_move(mark);
            self.cells[i] = c;
            assert(self@ =~= old(self)@.update(i as int, Some(mark)));
            self.winner = self.find_winner();
            true
        } else {
            false
        }
    }

    /// The cached winner.
    pub fn winner(&self) -> (r: Option<Mark>)
        requires
            self.wf(),
        ensures
            r == line_winner(self@),
    {
        self.winner
    }

    /// Recomputes the winner from the cells: the mark of the first winning
    /// line whose three cells hold the same mark.
    pub fn find_winner(&self) -> (r: Option<Mark>)
        ensures
            r == line_winner(self@),
    {
        let slots = [
            self.cells[0].mark(),
            self.cells[1].mark(),
            self.cells[2].mark(),
            self.cells[3].mark(),
            self.cells[4].mark(),
            self.cells[5].mark(),
            self.cells[6].mark(),
            self.cells[7].mark(),
            self.cells[8].mark(),
        ];
        assert(slots@ =~= self@);
        scan_lines(&slots)
    }

    fn row(&self, first: usize) -> (r: String)
        requires
            first <= 6,
        ensures
            r@ == row_text(self@[first as int], self@[first + 1], self@[first + 2]),
    {
        let mut r = String::from_str(self.cells[first].to_str());
        r.append("│");
        r.append(self.cells[first + 1].to_str());
        r.append("│");
        r.append(self.cells[first + 2].to_str());
        r
    }

    /// The five lines of text that picture this sub-board.
    pub fn lines(&self) -> (r: [String; 5])
        requires
            self.wf(),
        ensures
            r@.map_values(|l: String| l@) == sub_board_text(self@),
    {
        let r = match self.winner {
            None => [
                self.row(0),
                String::from_str("─┼─┼─"),
                self.row(3),
                String::from_str("─┼─┼─"),
                self.row(6),
            ],
            Some(Mark::X) => [
                String::from_str("X   X"),
                String::from_str(" X X "),
                String::from_str("  X  "),
                String::from_str(" X X "),
                String::from_str("X   X"),
            ],
            Some(Mark::O) => [
                String::from_str(" OOO "),
                String::from_str("O   O"),
                String::from_str("O   O"),
                String::from_str("O   O"),
                String::from_str(" OOO "),
            ],
        };
        assert(r@.map_values(|l: String| l@) =~= sub_board_text(self@));
        r
    }
}

} // verus!

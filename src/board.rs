use vstd::prelude::*;

use crate::coord::Coord;
use crate::inner::{sub_accepts, sub_after, sub_board_text, InnerBoard};
use crate::lines::{has_line, lemma_no_marks, lemma_winner_has_line, line_won_by, line_winner, scan_lines};
use crate::mark::Mark;

verus! {

/// The winners of the nine sub-boards whose cells are `g`, in row-major order.
pub open spec fn sub_winners(g: Seq<Seq<Option<Mark>>>) -> Seq<Option<Mark>> {
    Seq::new(9, |i: int| line_winner(g[i]))
}

/// The winner of the whole game: the line scan applied to the sub-boards'
/// winners.
pub open spec fn game_winner(g: Seq<Seq<Option<Mark>>>) -> Option<Mark> {
    line_winner(sub_winners(g))
}

/// The game with cells `g` takes a mark at `cell` of sub-board `board`
/// exactly when that sub-board takes it.
pub open spec fn board_accepts(g: Seq<Seq<Option<Mark>>>, board: Coord, cell: Coord) -> bool {
    sub_accepts(g[board.spec_index()], cell)
}

/// The cells of the game after `mark` is offered at `cell` of sub-board
/// `board`.
pub open spec fn board_after(
    g: Seq<Seq<Option<Mark>>>,
    mark: Mark,
    board: Coord,
    cell: Coord,
) -> Seq<Seq<Option<Mark>>> {
    g.update(board.spec_index(), sub_after(g[board.spec_index()], mark, cell))
}

/// A picture row of three sub-boards side by side, between heavy bars.
pub open spec fn joined_text(a: Seq<char>, b: Seq<char>, c: Seq<char>) -> Seq<char> {
    " "@ + a + " ┃ "@ + b + " ┃ "@ + c + " "@
}

/// A blank picture row between heavy bars.
pub open spec fn spacer_text() -> Seq<char> {
    "       ┃       ┃       "@
}

/// The heavy rule between two bands of sub-boards.
pub open spec fn rule_text() -> Seq<char> {
    "━━━━━━━╋━━━━━━━╋━━━━━━━"@
}

/// Line `k` of the picture of the whole game, where `t` holds the pictures
/// of the sub-boards. The lines come in bands of eight: a blank row, the five
/// rows of three sub-boards side by side, a blank row, then a heavy rule
/// (the last band has no rule).
pub open spec fn picture_line(t: Seq<Seq<Seq<char>>>, k: int) -> Seq<char> {
    let row = k % 8;
    let first = 3 * (k / 8);
    if row == 7 {
        rule_text()
    } else if row == 0 || row == 6 {
        spacer_text()
    } else {
        joined_text(t[first][row - 1], t[first + 1][row - 1], t[first + 2][row - 1])
    }
}

/// The twenty-three lines of text that picture the whole game.
pub open spec fn board_text(g: Seq<Seq<Option<Mark>>>) -> Seq<Seq<char>> {
    let t = Seq::new(9, |i: int| sub_board_text(g[i]));
    Seq::new(23, |k: int| picture_line(t, k))
}

/// Three pictures rows side by side between heavy bars.
fn joined(a: &String, b: &String, c: &String) -> (r: String)
    ensures
        r@ == joined_text(a@, b@, c@),
{
    let mut r = String::from_str(" ");
    r.append(a.as_str());
    r.append(" ┃ ");
    r.append(b.as_str());
    r.append(" ┃ ");
    r.append(c.as_str());
    r.append(" ");
    r
}

/// The whole game: nine sub-boards and the cached overall winner. Which
/// sub-board a player must play in next is left to the caller, who asks
/// `board_is_won` to decide it.
#[derive(Clone, Copy, Debug, Hash, PartialEq, Eq)]
pub struct Board {
    boards: [InnerBoard; 9],
    winner: Option<Mark>,
}

impl View for Board {
    type V = Seq<Seq<Option<Mark>>>;

    /// The cells of the nine sub-boards, each in row-major order.
    closed spec fn view(&self) -> Seq<Seq<Option<Mark>>> {
        self.boards@.map_values(|b: InnerBoard| b@)
    }
}

impl Board {
    /// Every sub-board is well formed.
    pub closed spec fn boards_wf(&self) -> bool {
        forall|i: int| 0 <= i < 9 ==> (#[trigger] self.boards[i]).wf()
    }

    /// Every sub-board is well formed, and the cached winner is set exactly
    /// when some line of sub-boards is won by one mark, and to a mark that
    /// has won such a line.
    pub closed spec fn wf(&self) -> bool {
        &&& self.boards_wf()
        &&& (self.winner is None <==> game_winner(self@) is None)
        &&& (self.winner matches Some(m) ==> has_line(sub_winners(self@), m))
    }

    /// The cached overall winner. It is set by the move that first completes
    /// a line of won sub-boards, and never changes afterwards.
    pub closed spec fn spec_winner(&self) -> Option<Mark> {
        self.winner
    }

    /// The game has nine sub-boards of nine cells each.
    pub proof fn lemma_shape(&self)
        ensures
            self@.len() == 9,
            forall|i: int| 0 <= i < 9 ==> (#[trigger] self@[i]).len() == 9,
    {
        assert forall|i: int| 0 <= i < 9 implies (#[trigger] self@[i]).len() == 9 by {
            self.boards[i].lemma_len();
        }
    }

    /// A game whose nine sub-boards are empty and which nobody has won.
    pub fn new() -> (r: Board)
        ensures
            r.wf(),
            r@.len() == 9,
            forall|i: int| 0 <= i < 9 ==> #[trigger] r@[i] == crate::inner::empty_grid(),
            forall|i: int| 0 <= i < 9 ==> line_winner(#[trigger] r@[i]) is None,
            game_winner(r@) is None,
            r.spec_winner() is None,
    {
        let b = InnerBoard::new();
        let r = Board { boards: [b;9], winner: None };
        proof {
            lemma_no_marks(b@);
            assert forall|i: int| 0 <= i < 9 implies #[trigger] r@[i] == b@ by {
                assert(r.boards[i] == b);
            }
            assert(sub_winners(r@) =~= Seq::new(9, |i: int| None));
            lemma_no_marks(sub_winners(r@));
        }
        r
    }

    /// Offers `mark` at `cell` of sub-board `board`. The sub-board decides
    /// whether to take it. While the game has no winner, a move that wins its
    /// sub-board has the overall winner recomputed; once set, the overall
    /// winner stays. Returns whether the mark was placed.
    pub fn place_move(&mut self, mark: Mark, board: Coord, cell: Coord) -> (r: bool)
        requires
            old(self).wf(),
        ensures
            final(self).wf(),
            r == board_accepts(old(self)@, board, cell),
            final(self)@ == board_after(old(self)@, mark, board, cell),
            old(self).spec_winner() is Some ==> final(self).spec_winner() == old(
                self,
            ).spec_winner(),
            old(self).spec_winner() is None ==> final(self).spec_winner() == game_winner(
                final(self)@,
            ),
            !r ==> *final(self) == *old(self),
    {
        let i = board.index();
        let mut sub = self.boards[i];
        if sub.place_move(mark, cell) {
            self.boards[i] = sub;
            assert(self@ =~= board_after(old(self)@, mark, board, cell));
            let ghost before = sub_winners(old(self)@);
            let ghost after = sub_winners(self@);
            assert(forall|j: int| 0 <= j < 9 && j != i ==> after[j] == before[j]);
            assert(before[i as int] is None);
            proof {
                // A line completed before the move stays completed: the sub-board
                // that took the move was not won, so it lies on no such line.
                assert forall|k: int, m: Mark|
                    0 <= k < 8 && #[trigger] line_won_by(before, k, m) implies line_won_by(
                    after,
                    k,
                    m,
                ) by {}
                lemma_winner_has_line(before);
                lemma_winner_has_line(after);
            }
            if self.winner.is_none() && sub.winner().is_some() {
                self.winner = self.scan_winner();
            } else if self.winner.is_none() {
                assert(after =~= before);
            } else {
                proof {
                    let m = self.winner.unwrap();
                    let k = choose|k: int| 0 <= k < 8 && #[trigger] line_won_by(before, k, m);
                    assert(line_won_by(after, k, m));
                    assert(has_line(after, m));
                }
            }
            true
        } else {
            false
        }
    }

    /// The cached overall winner.
    pub fn winner(&self) -> (r: Option<Mark>)
        requires
            self.wf(),
        ensures
            r == self.spec_winner(),
            r is None <==> game_winner(self@) is None,
            r matches Some(m) ==> has_line(sub_winners(self@), m),
    {
        self.winner
    }

    /// Recomputes the overall winner: the line scan over the sub-boards'
    /// winners.
    pub fn find_winner(&self) -> (r: Option<Mark>)
        requires
            self.wf(),
        ensures
            r == game_winner(self@),
    {
        self.scan_winner()
    }

    /// The line scan over the sub-boards' winners.
    fn scan_winner(&self) -> (r: Option<Mark>)
        requires
            self.boards_wf(),
        ensures
            r == game_winner(self@),
    {
        let slots = [
            self.boards[0].winner(),
            self.boards[1].winner(),
            self.boards[2].winner(),
            self.boards[3].winner(),
            self.boards[4].winner(),
            self.boards[5].winner(),
            self.boards[6].winner(),
            self.boards[7].winner(),
            self.boards[8].winner(),
        ];
        assert(slots@ =~= sub_winners(self@));
        scan_lines(&slots)
    }

    /// Whether sub-board `board` has been won.
    pub fn board_is_won(&self, board: Coord) -> (r: bool)
        requires
            self.wf(),
        ensures
            r == (line_winner(self@[board.spec_index()]) is Some),
    {
        self.boards[board.index()].winner().is_some()
    }

    /// A copy of sub-board `board`.
    pub fn board(&self, board: Coord) -> (r: InnerBoard)
        requires
            self.wf(),
        ensures
            r.wf(),
            r@ == self@[board.spec_index()],
    {
        self.boards[board.index()]
    }

    /// The twenty-three lines of text that picture the whole game, sub-boards
    /// in three bands of three.
    pub fn lines(&self) -> (r: [String; 23])
        requires
            self.wf(),
        ensures
            r@.map_values(|l: String| l@) == board_text(self@),
    {
        let t = [
            self.boards[0].lines(),
            self.boards[1].lines(),
            self.boards[2].lines(),
            self.boards[3].lines(),
            self.boards[4].lines(),
            self.boards[5].lines(),
            self.boards[6].lines(),
            self.boards[7].lines(),
            self.boards[8].lines(),
        ];
        let r = [
            String::from_str("       ┃       ┃       "),
            joined(&t[0][0], &t[1][0], &t[2][0]),
            joined(&t[0][1], &t[1][1], &t[2][1]),
            joined(&t[0][2], &t[1][2], &t[2][2]),
            joined(&t[0][3], &t[1][3], &t[2][3]),
            joined(&t[0][4], &t[1][4], &t[2][4]),
            String::from_str("       ┃       ┃       "),
            String::from_str("━━━━━━━╋━━━━━━━╋━━━━━━━"),
            String::from_str("       ┃       ┃       "),
            joined(&t[3][0], &t[4][0], &t[5][0]),
            joined(&t[3][1], &t[4][1], &t[5][1]),
            joined(&t[3][2], &t[4][2], &t[5][2]),
            joined(&t[3][3], &t[4][3], &t[5][3]),
            joined(&t[3][4], &t[4][4], &t[5][4]),
            String::from_str("       ┃       ┃       "),
            String::from_str("━━━━━━━╋━━━━━━━╋━━━━━━━"),
            String::from_str("       ┃       ┃       "),
            joined(&t[6][0], &t[7][0], &t[8][0]),
            joined(&t[6][1], &t[7][1], &t[8][1]),
            joined(&t[6][2], &t[7][2], &t[8][2]),
            joined(&t[6][3], &t[7][3], &t[8][3]),
            joined(&t[6][4], &t[7][4], &t[8][4]),
            String::from_str("       ┃       ┃       "),
        ];
        proof {
            let ts = Seq::new(9, |i: int| sub_board_text(self@[i]));
            assert forall|i: int, j: int| 0 <= i < 9 && 0 <= j < 5 implies #[trigger] t[i][j]@
                == ts[i][j] by {
                assert(t[i]@.map_values(|l: String| l@) == sub_board_text(self@[i]));
            }
            assert(r[0]@ == picture_line(ts, 0));
            assert(r[1]@ == picture_line(ts, 1));
            assert(r[2]@ == picture_line(ts, 2));
            assert(r[3]@ == picture_line(ts, 3));
            assert(r[4]@ == picture_line(ts, 4));
            assert(r[5]@ == picture_line(ts, 5));
            assert(r[6]@ == picture_line(ts, 6));
            assert(r[7]@ == picture_line(ts, 7));
            assert(r[8]@ == picture_line(ts, 8));
            assert(r[9]@ == picture_line(ts, 9));
            assert(r[10]@ == picture_line(ts, 10));
            assert(r[11]@ == picture_line(ts, 11));
            assert(r[12]@ == picture_line(ts, 12));
            assert(r[13]@ == picture_line(ts, 13));
            assert(r[14]@ == picture_line(ts, 14));
            assert(r[15]@ == picture_line(ts, 15));
            assert(r[16]@ == picture_line(ts, 16));
            assert(r[17]@ == picture_line(ts, 17));
            assert(r[18]@ == picture_line(ts, 18));
            assert(r[19]@ == picture_line(ts, 19));
            assert(r[20]@ == picture_line(ts, 20));
            assert(r[21]@ == picture_line(ts, 21));
            assert(r[22]@ == picture_line(ts, 22));
            assert(r@.map_values(|l: String| l@) =~= board_text(self@));
        }
        r
    }
}

} // verus!

use vstd::prelude::*;

use crate::board::{board_accepts, board_after, game_winner, sub_winners};
use crate::coord::Coord;
use crate::inner::{sub_accepts, sub_after};
use crate::lines::{
    is_line, lemma_swap_winner, lemma_three_marks_winner, line_winner, swap_marks, swap_slot,
    three_marks,
};
use crate::mark::Mark;

verus! {

/// The game with every mark in every sub-board given to the other player.
pub open spec fn swap_game(g: Seq<Seq<Option<Mark>>>) -> Seq<Seq<Option<Mark>>> {
    g.map_values(|s: Seq<Option<Mark>>| swap_marks(s))
}

/// A move onto an occupied cell is refused and changes nothing, so the same
/// attempt is refused again however often it is repeated.
pub proof fn lemma_occupied_cell_refused(
    g: Seq<Seq<Option<Mark>>>,
    mark: Mark,
    board: Coord,
    cell: Coord,
)
    requires
        g.len() == 9,
        g[board.spec_index()].len() == 9,
        g[board.spec_index()][cell.spec_index()] is Some,
    ensures
        !board_accepts(g, board, cell),
        board_after(g, mark, board, cell) == g,
{
    assert(board_after(g, mark, board, cell) =~= g);
}

/// A won sub-board refuses every move, whatever the mark and the cell, and
/// keeps its cells and its winner.
pub proof fn lemma_won_sub_board_frozen(s: Seq<Option<Mark>>, mark: Mark, cell: Coord)
    requires
        line_winner(s) is Some,
    ensures
        !sub_accepts(s, cell),
        sub_after(s, mark, cell) == s,
{
}

/// Once a sub-board of the game is won, no move anywhere in the game changes
/// its cells or its winner.
pub proof fn lemma_won_sub_board_kept(
    g: Seq<Seq<Option<Mark>>>,
    mark: Mark,
    board: Coord,
    cell: Coord,
    won: Coord,
)
    requires
        g.len() == 9,
        line_winner(g[won.spec_index()]) is Some,
    ensures
        board_after(g, mark, board, cell)[won.spec_index()] == g[won.spec_index()],
{
}

/// Whether a sub-board is won never goes from true back to false, and a move
/// can change it only for the sub-board that the move targets. So each
/// sub-board becomes won at most once.
pub proof fn lemma_won_is_monotonic(
    g: Seq<Seq<Option<Mark>>>,
    mark: Mark,
    board: Coord,
    cell: Coord,
    p: Coord,
)
    requires
        g.len() == 9,
    ensures
        line_winner(g[p.spec_index()]) is Some ==> line_winner(
            board_after(g, mark, board, cell)[p.spec_index()],
        ) == line_winner(g[p.spec_index()]),
        p != board ==> line_winner(board_after(g, mark, board, cell)[p.spec_index()])
            == line_winner(g[p.spec_index()]),
{
    assert(p != board ==> p.spec_index() != board.spec_index());
}

/// With the same mark winning exactly three distinct sub-boards, and no other
/// sub-board won, the game is won by that mark exactly when those three form
/// a winning line, and is otherwise not won.
pub proof fn lemma_three_won_boards(g: Seq<Seq<Option<Mark>>>, a: int, b: int, c: int, m: Mark)
    requires
        0 <= a < 9,
        0 <= b < 9,
        0 <= c < 9,
        a != b && b != c && a != c,
        sub_winners(g) == three_marks(a, b, c, m),
    ensures
        game_winner(g) == if is_line(a, b, c) {
            Some(m)
        } else {
            None
        },
{
    lemma_three_marks_winner(a, b, c, m);
}

/// Giving every mark of the game to the other player gives every sub-board's
/// win, and the game's win, to the other player.
pub proof fn lemma_swap_game(g: Seq<Seq<Option<Mark>>>)
    requires
        g.len() == 9,
        forall|i: int| 0 <= i < 9 ==> (#[trigger] g[i]).len() == 9,
    ensures
        sub_winners(swap_game(g)) == swap_marks(sub_winners(g)),
        game_winner(swap_game(g)) == swap_slot(game_winner(g)),
{
    assert forall|i: int| 0 <= i < 9 implies #[trigger] sub_winners(swap_game(g))[i] == swap_marks(
        sub_winners(g),
    )[i] by {
        lemma_swap_winner(g[i]);
    }
    assert(sub_winners(swap_game(g)) =~= swap_marks(sub_winners(g)));
    lemma_swap_winner(sub_winners(g));
}

/// The cells of the game after each move of `moves` (a mark, a sub-board and
/// a cell) is offered in turn.
pub open spec fn moves_after(
    g: Seq<Seq<Option<Mark>>>,
    moves: Seq<(Mark, Coord, Coord)>,
) -> Seq<Seq<Option<Mark>>>
    decreases moves.len(),
{
    if moves.len() == 0 {
        g
    } else {
        let (mark, board, cell) = moves[0];
        moves_after(board_after(g, mark, board, cell), moves.drop_first())
    }
}

/// Any number of attempts, with either mark, at one occupied cell leave the
/// game as it was.
pub proof fn lemma_occupied_cell_refused_repeatedly(
    g: Seq<Seq<Option<Mark>>>,
    moves: Seq<(Mark, Coord, Coord)>,
    board: Coord,
    cell: Coord,
)
    requires
        g.len() == 9,
        g[board.spec_index()].len() == 9,
        g[board.spec_index()][cell.spec_index()] is Some,
        forall|i: int| 0 <= i < moves.len() ==> (#[trigger] moves[i]).1 == board && moves[i].2 == cell,
    ensures
        moves_after(g, moves) == g,
    decreases moves.len(),
{
    if moves.len() > 0 {
        lemma_occupied_cell_refused(g, moves[0].0, board, cell);
        let rest = moves.drop_first();
        assert forall|i: int| 0 <= i < rest.len() implies (#[trigger] rest[i]).1 == board
            && rest[i].2 == cell by {
            assert(rest[i] == moves[i + 1]);
        }
        lemma_occupied_cell_refused_repeatedly(g, rest, board, cell);
    }
}

/// Once a sub-board is won, no sequence of later moves anywhere in the game
/// changes its cells, and so neither its winner nor whether it is won.
pub proof fn lemma_won_sub_board_kept_by_moves(
    g: Seq<Seq<Option<Mark>>>,
    moves: Seq<(Mark, Coord, Coord)>,
    won: Coord,
)
    requires
        g.len() == 9,
        line_winner(g[won.spec_index()]) is Some,
    ensures
        moves_after(g, moves)[won.spec_index()] == g[won.spec_index()],
        line_winner(moves_after(g, moves)[won.spec_index()]) == line_winner(g[won.spec_index()]),
    decreases moves.len(),
{
    if moves.len() > 0 {
        let (mark, board, cell) = moves[0];
        lemma_won_sub_board_kept(g, mark, board, cell, won);
        lemma_won_sub_board_kept_by_moves(board_after(g, mark, board, cell), moves.drop_first(), won);
    }
}

} // verus!

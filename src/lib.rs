//! Ultimate tic-tac-toe: nine 3x3 sub-boards arranged in a 3x3 grid. Winning
//! a sub-board claims its slot in the grid, and a line of claimed slots wins
//! the game. The same eight-line scan decides a winner at both levels.
mod board;
mod cell;
mod coord;
mod inner;
mod laws;
mod lines;
mod mark;

pub use board::{
    board_accepts, board_after, board_text, game_winner, joined_text, picture_line, rule_text,
    spacer_text, sub_winners, Board,
};
pub use cell::{slot_text, Cell};
pub use coord::{
    lemma_index_bijection, lemma_token_round_trip, spec_from_index, spec_from_token, Coord,
};
pub use inner::{empty_grid, row_text, sub_accepts, sub_after, sub_board_text, InnerBoard};
pub use laws::{
    lemma_occupied_cell_refused, lemma_occupied_cell_refused_repeatedly, lemma_swap_game,
    lemma_three_won_boards, lemma_won_is_monotonic, lemma_won_sub_board_frozen,
    lemma_won_sub_board_kept, lemma_won_sub_board_kept_by_moves, moves_after, swap_game,
};
pub use lines::{
    completes, first_winner_from, has_line, is_line, lemma_swap_winner, lemma_three_marks_winner,
    lemma_winner_has_line, line_won_by, line_winner, on_line, scan_lines, swap_marks, swap_slot,
    three_marks, win_line,
};
pub use mark::Mark;

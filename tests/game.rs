use std::str::FromStr;

use ultimate_ttt::{Board, Cell, Coord, InnerBoard, Mark};

const ALL: [Coord; 9] = [
    Coord::TopLeft,
    Coord::Top,
    Coord::TopRight,
    Coord::Left,
    Coord::Middle,
    Coord::Right,
    Coord::BottomLeft,
    Coord::Bottom,
    Coord::BottomRight,
];

const LINES: [[usize; 3]; 8] = [
    [0, 1, 2],
    [3, 4, 5],
    [6, 7, 8],
    [0, 3, 6],
    [1, 4, 7],
    [2, 5, 8],
    [0, 4, 8],
    [2, 4, 6],
];

fn is_line(a: usize, b: usize, c: usize) -> bool {
    LINES.iter().any(|l| l.contains(&a) && l.contains(&b) && l.contains(&c))
}

/// Wins sub-board `board` for `mark` along its top row.
fn win_sub_board(game: &mut Board, mark: Mark, board: Coord) {
    assert!(game.place_move(mark, board, Coord::TopLeft));
    assert!(game.place_move(mark, board, Coord::Top));
    assert!(game.place_move(mark, board, Coord::TopRight));
    assert!(game.board_is_won(board));
}

#[test]
fn mark_text_and_opponent() {
    assert_eq!(Mark::X.to_str(), "X");
    assert_eq!(Mark::O.to_str(), "O");
    assert_eq!(Mark::X.opponent(), Mark::O);
    assert_eq!(Mark::O.opponent(), Mark::X);
}

#[test]
fn coord_index_round_trip() {
    for (i, c) in ALL.iter().enumerate() {
        assert_eq!(c.index(), i);
        assert_eq!(Coord::from_index(i), Some(*c));
    }
    assert_eq!(Coord::from_index(9), None);
    assert_eq!(Coord::from_index(usize::MAX), None);
}

#[test]
fn coord_names() {
    let names = [
        "top-left",
        "top",
        "top-right",
        "left",
        "middle",
        "right",
        "bottom-left",
        "bottom",
        "bottom-right",
    ];
    for (c, n) in ALL.iter().zip(names.iter()) {
        assert_eq!(c.to_str(), *n);
    }
}

#[test]
fn coord_tokens() {
    let tokens = ["tl", "t", "tr", "l", "m", "r", "bl", "b", "br"];
    for (c, t) in ALL.iter().zip(tokens.iter()) {
        assert_eq!(Coord::from_token(t), Some(*c));
        assert_eq!(Coord::from_str(t), Ok(*c));
    }
    for bad in ["", "x", "tm", "lt", "TL", "tll", "middle", "ml", " t"] {
        assert_eq!(Coord::from_token(bad), None);
        assert_eq!(Coord::from_str(bad), Err(()));
    }
}

#[test]
fn cell_place_once() {
    let mut c = Cell::default();
    assert!(c.is_empty());
    assert_eq!(c.mark(), None);
    assert_eq!(c.to_str(), " ");
    assert!(c.place_move(Mark::O));
    assert!(!c.is_empty());
    assert_eq!(c.mark(), Some(Mark::O));
    assert_eq!(c.to_str(), "O");
    for _ in 0..5 {
        assert!(!c.place_move(Mark::X));
        assert_eq!(c.mark(), Some(Mark::O));
    }
}

#[test]
fn inner_board_place_and_win() {
    let mut b = InnerBoard::new();
    assert!(b.is_empty(Coord::Middle));
    assert!(b.place_move(Mark::X, Coord::Middle));
    assert!(!b.is_empty(Coord::Middle));
    assert!(!b.place_move(Mark::O, Coord::Middle));
    assert_eq!(b.winner(), None);
    assert!(b.place_move(Mark::X, Coord::TopLeft));
    assert_eq!(b.find_winner(), None);
    assert!(b.place_move(Mark::X, Coord::BottomRight));
    assert_eq!(b.winner(), Some(Mark::X));
    assert_eq!(b.find_winner(), Some(Mark::X));
}

#[test]
fn inner_board_frozen_once_won() {
    let mut b = InnerBoard::new();
    for c in [Coord::Left, Coord::Middle, Coord::Right] {
        assert!(b.place_move(Mark::O, c));
    }
    assert_eq!(b.winner(), Some(Mark::O));
    let before = b;
    for c in ALL {
        assert!(!b.place_move(Mark::X, c));
        assert!(!b.place_move(Mark::O, c));
    }
    assert_eq!(b, before);
    assert_eq!(b.winner(), Some(Mark::O));
    assert!(b.is_empty(Coord::TopLeft));
}

#[test]
fn inner_board_every_line_wins() {
    for mark in [Mark::X, Mark::O] {
        for l in LINES {
            let mut b = InnerBoard::new();
            for i in l {
                assert!(b.place_move(mark, ALL[i]));
            }
            assert_eq!(b.winner(), Some(mark));
        }
    }
}

#[test]
fn inner_board_other_triples_do_not_win() {
    for a in 0..9 {
        for b in (a + 1)..9 {
            for c in (b + 1)..9 {
                let mut board = InnerBoard::new();
                board.place_move(Mark::X, ALL[a]);
                board.place_move(Mark::X, ALL[b]);
                let placed = board.place_move(Mark::X, ALL[c]);
                assert!(placed);
                let expected = if is_line(a, b, c) { Some(Mark::X) } else { None };
                assert_eq!(board.winner(), expected);
            }
        }
    }
}

#[test]
fn inner_board_lines_open() {
    let mut b = InnerBoard::new();
    assert!(b.place_move(Mark::X, Coord::TopLeft));
    assert!(b.place_move(Mark::O, Coord::Middle));
    assert!(b.place_move(Mark::X, Coord::BottomRight));
    let expected = ["X│ │ ", "─┼─┼─", " │O│ ", "─┼─┼─", " │ │X"];
    assert_eq!(b.lines(), expected.map(String::from));
}

#[test]
fn inner_board_lines_won() {
    let mut x = InnerBoard::new();
    let mut o = InnerBoard::new();
    for c in [Coord::TopLeft, Coord::Left, Coord::BottomLeft] {
        assert!(x.place_move(Mark::X, c));
        assert!(o.place_move(Mark::O, c));
    }
    let big_x = ["X   X", " X X ", "  X  ", " X X ", "X   X"];
    let big_o = [" OOO ", "O   O", "O   O", "O   O", " OOO "];
    assert_eq!(x.lines(), big_x.map(String::from));
    assert_eq!(o.lines(), big_o.map(String::from));
}

#[test]
fn first_move_leaves_game_open() {
    let mut game = Board::new();
    assert!(game.place_move(Mark::X, Coord::TopLeft, Coord::Middle));
    assert!(!game.board_is_won(Coord::TopLeft));
    assert_eq!(game.winner(), None);
}

#[test]
fn completed_row_wins_sub_board() {
    let mut game = Board::new();
    assert!(game.place_move(Mark::X, Coord::TopLeft, Coord::TopLeft));
    assert!(!game.board_is_won(Coord::TopLeft));
    assert!(game.place_move(Mark::X, Coord::TopLeft, Coord::Top));
    assert!(!game.board_is_won(Coord::TopLeft));
    assert!(game.place_move(Mark::X, Coord::TopLeft, Coord::TopRight));
    assert!(game.board_is_won(Coord::TopLeft));
    assert_eq!(game.board(Coord::TopLeft).winner(), Some(Mark::X));
    assert_eq!(game.winner(), None);
}

#[test]
fn won_sub_board_refuses_moves() {
    let mut game = Board::new();
    win_sub_board(&mut game, Mark::X, Coord::TopLeft);
    assert!(game.board(Coord::TopLeft).is_empty(Coord::Middle));
    let before = game;
    assert!(!game.place_move(Mark::O, Coord::TopLeft, Coord::Middle));
    assert_eq!(game, before);
    assert!(game.place_move(Mark::O, Coord::Top, Coord::Middle));
}

#[test]
fn top_row_of_sub_boards_wins_game() {
    let mut game = Board::new();
    win_sub_board(&mut game, Mark::O, Coord::TopLeft);
    assert_eq!(game.winner(), None);
    win_sub_board(&mut game, Mark::O, Coord::Top);
    assert_eq!(game.winner(), None);
    win_sub_board(&mut game, Mark::O, Coord::TopRight);
    assert_eq!(game.winner(), Some(Mark::O));
    assert_eq!(game.find_winner(), Some(Mark::O));
}

#[test]
fn alternating_moves_in_one_sub_board() {
    let mut game = Board::new();
    let moves = [
        Coord::Middle,
        Coord::TopRight,
        Coord::BottomRight,
        Coord::TopLeft,
        Coord::Top,
        Coord::BottomLeft,
        Coord::Bottom,
    ];
    let mut mark = Mark::X;
    for (n, cell) in moves.iter().enumerate() {
        assert!(game.place_move(mark, Coord::TopLeft, *cell));
        // X completes the middle column (top, middle, bottom) on the seventh move.
        assert_eq!(game.board_is_won(Coord::TopLeft), n == 6);
        mark = mark.opponent();
    }
    assert_eq!(game.board(Coord::TopLeft).winner(), Some(Mark::X));
    assert_eq!(game.winner(), None);
}

#[test]
fn occupied_cell_refused_repeatedly() {
    let mut game = Board::new();
    assert!(game.place_move(Mark::X, Coord::Right, Coord::Left));
    let before = game;
    for _ in 0..10 {
        assert!(!game.place_move(Mark::O, Coord::Right, Coord::Left));
        assert!(!game.place_move(Mark::X, Coord::Right, Coord::Left));
    }
    assert_eq!(game, before);
    assert_eq!(game.board(Coord::Right).is_empty(Coord::Left), false);
}

#[test]
fn every_line_of_sub_boards_wins() {
    for mark in [Mark::X, Mark::O] {
        for l in LINES {
            let mut game = Board::new();
            for i in l {
                assert_eq!(game.winner(), None);
                win_sub_board(&mut game, mark, ALL[i]);
            }
            assert_eq!(game.winner(), Some(mark));
        }
    }
}

#[test]
fn other_triples_of_sub_boards_do_not_win() {
    for a in 0..9 {
        for b in (a + 1)..9 {
            for c in (b + 1)..9 {
                let mut game = Board::new();
                for i in [a, b, c] {
                    win_sub_board(&mut game, Mark::O, ALL[i]);
                }
                let expected = if is_line(a, b, c) { Some(Mark::O) } else { None };
                assert_eq!(game.winner(), expected);
            }
        }
    }
}

#[test]
fn swapped_marks_swap_the_winner() {
    // The same moves, once with X and O as given and once swapped.
    let moves = [
        (Coord::Left, Coord::TopLeft),
        (Coord::Left, Coord::Middle),
        (Coord::Left, Coord::BottomRight),
        (Coord::Middle, Coord::Top),
        (Coord::Middle, Coord::Middle),
        (Coord::Middle, Coord::Bottom),
        (Coord::Right, Coord::TopRight),
        (Coord::Right, Coord::Middle),
        (Coord::Right, Coord::BottomLeft),
    ];
    let mut game = Board::new();
    let mut swapped = Board::new();
    for (board, cell) in moves {
        assert!(game.place_move(Mark::X, board, cell));
        assert!(swapped.place_move(Mark::O, board, cell));
    }
    assert!(game.place_move(Mark::O, Coord::Top, Coord::Top));
    assert!(swapped.place_move(Mark::X, Coord::Top, Coord::Top));
    assert_eq!(game.winner(), Some(Mark::X));
    assert_eq!(swapped.winner(), Some(Mark::O));
    for p in ALL {
        let w = game.board(p).winner();
        assert_eq!(swapped.board(p).winner(), w.map(|m| m.opponent()));
    }
}

#[test]
fn won_status_never_reverts() {
    let mut game = Board::new();
    let mut ever_won = [false; 9];
    let mut mark = Mark::X;
    for step in 0..200usize {
        let board = ALL[(step * 7) % 9];
        let cell = ALL[(step * 5 + step / 9) % 9];
        let placed = game.place_move(mark, board, cell);
        for (i, p) in ALL.iter().enumerate() {
            let won = game.board_is_won(*p);
            if ever_won[i] {
                assert!(won);
            }
            if won && !ever_won[i] {
                // Only the sub-board that took the move can become won.
                assert!(placed);
                assert_eq!(*p, board);
            }
            ever_won[i] = won;
        }
        if placed {
            mark = mark.opponent();
        }
    }
    assert!(ever_won.iter().any(|w| *w));
}

#[test]
fn board_lines_fresh() {
    let game = Board::new();
    let lines = game.lines();
    let spacer = "       ┃       ┃       ";
    let rule = "━━━━━━━╋━━━━━━━╋━━━━━━━";
    let open_row = "  │ │  ┃  │ │  ┃  │ │  ";
    let grid_row = " ─┼─┼─ ┃ ─┼─┼─ ┃ ─┼─┼─ ";
    for band in 0..3 {
        let base = band * 8;
        assert_eq!(lines[base], spacer);
        assert_eq!(lines[base + 1], open_row);
        assert_eq!(lines[base + 2], grid_row);
        assert_eq!(lines[base + 3], open_row);
        assert_eq!(lines[base + 4], grid_row);
        assert_eq!(lines[base + 5], open_row);
        assert_eq!(lines[base + 6], spacer);
        if band < 2 {
            assert_eq!(lines[base + 7], rule);
        }
    }
}

#[test]
fn board_lines_after_moves() {
    let mut game = Board::new();
    win_sub_board(&mut game, Mark::X, Coord::Middle);
    assert!(game.place_move(Mark::O, Coord::Right, Coord::Middle));
    let lines = game.lines();
    assert_eq!(lines[9], "  │ │  ┃ X   X ┃  │ │  ");
    assert_eq!(lines[10], " ─┼─┼─ ┃  X X  ┃ ─┼─┼─ ");
    assert_eq!(lines[11], "  │ │  ┃   X   ┃  │O│  ");
    assert_eq!(lines[12], " ─┼─┼─ ┃  X X  ┃ ─┼─┼─ ");
    assert_eq!(lines[13], "  │ │  ┃ X   X ┃  │ │  ");
    assert_eq!(lines[1], "  │ │  ┃  │ │  ┃  │ │  ");
}

#[test]
fn game_winner_stays_once_set() {
    let mut game = Board::new();
    win_sub_board(&mut game, Mark::X, Coord::BottomLeft);
    win_sub_board(&mut game, Mark::X, Coord::Bottom);
    win_sub_board(&mut game, Mark::X, Coord::BottomRight);
    assert_eq!(game.winner(), Some(Mark::X));
    win_sub_board(&mut game, Mark::O, Coord::TopLeft);
    win_sub_board(&mut game, Mark::O, Coord::Top);
    assert!(game.place_move(Mark::O, Coord::TopRight, Coord::TopLeft));
    assert!(game.place_move(Mark::O, Coord::TopRight, Coord::Top));
    assert!(game.place_move(Mark::O, Coord::TopRight, Coord::TopRight));
    assert!(game.board_is_won(Coord::TopRight));
    assert_eq!(game.winner(), Some(Mark::X));
    // A fresh scan finds the top row first; the cached winner does not follow it.
    assert_eq!(game.find_winner(), Some(Mark::O));
}

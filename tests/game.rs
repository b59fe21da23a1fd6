use connect4::board::{cell, new_board, other_player, test_board, Board, Piece};
use connect4::moves::{check_full, game_error, make_move, place, try_move, validate_move};
use connect4::scan::{check_winner, evaluate, first_line, has_empty, Direction, Verdict};
use connect4::turn::{human_turn_step, start_turn, TurnState, MAX_TRIES};

fn board_with(cells: &[(usize, usize, Piece)]) -> Board {
    let mut b = new_board();
    for &(r, c, p) in cells {
        b[r][c] = p;
    }
    b
}

/// Full board with no line of four: pairs of columns alternate colour, and so do rows.
fn drawn_board() -> Board {
    let mut b = new_board();
    for r in 0..6 {
        for c in 0..7 {
            b[r][c] = if (c / 2 + r) % 2 == 0 { Piece::R } else { Piece::B };
        }
    }
    b
}

#[test]
fn new_board_is_all_empty() {
    let b = new_board();
    assert_eq!(b.len(), 6);
    let mut count = 0;
    for r in 0..6 {
        assert_eq!(b[r].len(), 7);
        for c in 0..7 {
            assert_eq!(cell(&b, r, c), Piece::E);
            count += 1;
        }
    }
    assert_eq!(count, 42);
}

#[test]
fn place_lands_on_lowest_empty_cell() {
    let mut b = new_board();
    assert_eq!(place(&mut b, 3, Piece::R).unwrap(), 5);
    assert_eq!(place(&mut b, 3, Piece::B).unwrap(), 4);
    assert_eq!(cell(&b, 5, 3), Piece::R);
    assert_eq!(cell(&b, 4, 3), Piece::B);
    let mut expected = new_board();
    expected[5][3] = Piece::R;
    expected[4][3] = Piece::B;
    assert_eq!(b, expected);
}

#[test]
fn place_skips_taken_cells_only() {
    let mut b = board_with(&[(5, 0, Piece::B), (4, 0, Piece::R)]);
    assert_eq!(place(&mut b, 0, Piece::R).unwrap(), 3);
    assert_eq!(cell(&b, 3, 0), Piece::R);
    assert_eq!(cell(&b, 2, 0), Piece::E);
}

#[test]
fn place_on_full_column_fails_without_change() {
    let mut b = new_board();
    for i in 0..6 {
        let p = if i % 2 == 0 { Piece::R } else { Piece::B };
        assert_eq!(place(&mut b, 6, p).unwrap(), 5 - i);
    }
    let before = b.clone();
    let err = place(&mut b, 6, Piece::R).unwrap_err();
    assert_eq!(err.msg, "Column must not be full.");
    assert_eq!(b, before);
}

#[test]
fn check_full_reports_landing_row() {
    let mut b = board_with(&[(5, 2, Piece::R)]);
    let before = b.clone();
    assert_eq!(check_full(&mut b, 2).unwrap(), 4);
    assert_eq!(check_full(&mut b, 1).unwrap(), 5);
    assert_eq!(b, before);
}

#[test]
fn fresh_board_is_pending() {
    let b = new_board();
    assert_eq!(evaluate(&b), Verdict::Pending);
    assert_eq!(check_winner(&b), None);
}

#[test]
fn bottom_row_line_wins() {
    let b = board_with(&[(5, 0, Piece::B), (5, 1, Piece::B), (5, 2, Piece::B), (5, 3, Piece::B)]);
    assert_eq!(evaluate(&b), Verdict::Win(Piece::B));
    assert_eq!(check_winner(&b), Some(Piece::B));
    assert_eq!(first_line(&b, Direction::Horizontal), Some(Piece::B));
    assert_eq!(first_line(&b, Direction::Vertical), None);
}

#[test]
fn vertical_line_wins() {
    let b = board_with(&[(2, 6, Piece::R), (3, 6, Piece::R), (4, 6, Piece::R), (5, 6, Piece::R)]);
    assert_eq!(evaluate(&b), Verdict::Win(Piece::R));
    assert_eq!(first_line(&b, Direction::Vertical), Some(Piece::R));
}

#[test]
fn down_right_line_wins() {
    let b = board_with(&[(2, 3, Piece::R), (3, 4, Piece::R), (4, 5, Piece::R), (5, 6, Piece::R)]);
    assert_eq!(evaluate(&b), Verdict::Win(Piece::R));
    assert_eq!(first_line(&b, Direction::DownRight), Some(Piece::R));
    assert_eq!(first_line(&b, Direction::UpRight), None);
}

#[test]
fn up_right_line_wins() {
    let b = board_with(&[(5, 0, Piece::B), (4, 1, Piece::B), (3, 2, Piece::B), (2, 3, Piece::B)]);
    assert_eq!(evaluate(&b), Verdict::Win(Piece::B));
    assert_eq!(first_line(&b, Direction::UpRight), Some(Piece::B));
    assert_eq!(first_line(&b, Direction::DownRight), None);
}

#[test]
fn three_in_a_row_is_not_a_win() {
    let b = board_with(&[(5, 0, Piece::R), (5, 1, Piece::R), (5, 2, Piece::R), (5, 3, Piece::B)]);
    assert_eq!(evaluate(&b), Verdict::Pending);
}

#[test]
fn vertical_lines_are_reported_first() {
    let b = board_with(&[
        (5, 0, Piece::R),
        (5, 1, Piece::R),
        (5, 2, Piece::R),
        (5, 3, Piece::R),
        (2, 6, Piece::B),
        (3, 6, Piece::B),
        (4, 6, Piece::B),
        (5, 6, Piece::B),
    ]);
    assert_eq!(check_winner(&b), Some(Piece::B));
    assert_eq!(evaluate(&b), Verdict::Win(Piece::B));
}

#[test]
fn full_board_without_line_is_draw() {
    let b = drawn_board();
    assert!(!has_empty(&b));
    assert_eq!(evaluate(&b), Verdict::Draw);
    assert_eq!(check_winner(&b), Some(Piece::E));
}

#[test]
fn one_empty_cell_keeps_game_going() {
    let mut b = drawn_board();
    b[0][6] = Piece::E;
    assert!(has_empty(&b));
    assert_eq!(evaluate(&b), Verdict::Pending);
}

#[test]
fn sample_board_layout() {
    let b = test_board();
    assert_eq!(b[0], vec![Piece::E; 7]);
    assert_eq!(b[1], vec![Piece::E; 7]);
    let br = vec![Piece::B, Piece::R, Piece::B, Piece::R, Piece::B, Piece::R, Piece::B];
    let rb = vec![Piece::R, Piece::B, Piece::R, Piece::B, Piece::R, Piece::B, Piece::R];
    assert_eq!(b[2], br);
    assert_eq!(b[3], br);
    assert_eq!(b[4], rb);
    assert_eq!(b[5], rb);
    assert_eq!(evaluate(&b), Verdict::Pending);
}

#[test]
fn validate_move_accepts_one_to_seven() {
    assert_eq!(validate_move("1").unwrap(), 0);
    assert_eq!(validate_move("4").unwrap(), 3);
    assert_eq!(validate_move("7").unwrap(), 6);
}

#[test]
fn validate_move_rejects_other_text() {
    for bad in ["8", "0", "a", "", "12", "1 2", "-1", "one"] {
        let err = validate_move(bad).unwrap_err();
        assert_eq!(err.msg, "column must be one of 1-7");
    }
}

#[test]
fn validate_move_trims_white_space() {
    assert_eq!(validate_move("  5 \n").unwrap(), 4);
    assert_eq!(validate_move("\t2\r\n").unwrap(), 1);
    assert!(validate_move("   ").is_err());
}

#[test]
fn try_move_passes_read_errors_on() {
    let err = try_move(Err(game_error("stream closed"))).unwrap_err();
    assert_eq!(err.msg, "stream closed");
    assert_eq!(try_move(Ok(String::from("3"))).unwrap(), 2);
    assert!(try_move(Ok(String::from("9"))).is_err());
}

#[test]
fn red_stacks_four_in_first_column_and_wins() {
    let mut b = new_board();
    for i in 0..4 {
        assert_eq!(evaluate(&b), Verdict::Pending);
        assert_eq!(make_move(&mut b, Piece::R, Ok(String::from("1"))).unwrap(), Piece::R);
        assert_eq!(cell(&b, 5 - i, 0), Piece::R);
    }
    assert_eq!(evaluate(&b), Verdict::Win(Piece::R));
}

#[test]
fn make_move_errors_leave_board_alone() {
    let mut b = new_board();
    let err = make_move(&mut b, Piece::B, Ok(String::from("x"))).unwrap_err();
    assert_eq!(err.msg, "column must be one of 1-7");
    assert_eq!(b, new_board());
    for _ in 0..6 {
        make_move(&mut b, Piece::B, Ok(String::from("2"))).unwrap();
    }
    let full = b.clone();
    let err = make_move(&mut b, Piece::R, Ok(String::from("2"))).unwrap_err();
    assert_eq!(err.msg, "Column must not be full.");
    assert_eq!(b, full);
    let err = make_move(&mut b, Piece::R, Err(game_error("no input"))).unwrap_err();
    assert_eq!(err.msg, "no input");
    assert_eq!(b, full);
}

#[test]
fn evaluate_twice_gives_same_verdict() {
    let boards = vec![new_board(), drawn_board(), test_board(), board_with(&[(5, 0, Piece::R), (4, 1, Piece::R), (3, 2, Piece::R), (2, 3, Piece::R)])];
    for b in boards {
        let first = evaluate(&b);
        let second = evaluate(&b);
        assert_eq!(first, second);
    }
}

#[test]
fn turn_forfeited_after_five_failures() {
    let mut s = start_turn();
    assert_eq!(s, TurnState::Awaiting(MAX_TRIES));
    for left in (1..5).rev() {
        s = human_turn_step(s, false);
        assert_eq!(s, TurnState::Awaiting(left));
    }
    s = human_turn_step(s, false);
    assert_eq!(s, TurnState::Forfeited);
    assert_eq!(human_turn_step(s, true), TurnState::Forfeited);
}

#[test]
fn turn_ends_on_success() {
    let s = human_turn_step(human_turn_step(start_turn(), false), true);
    assert_eq!(s, TurnState::Placed);
    assert_eq!(human_turn_step(s, false), TurnState::Placed);
}

#[test]
fn pieces_show_and_alternate() {
    assert_eq!(Piece::R.symbol(), 'R');
    assert_eq!(Piece::B.symbol(), 'B');
    assert_eq!(Piece::E.symbol(), ' ');
    assert_eq!(other_player(Piece::R), Piece::B);
    assert_eq!(other_player(Piece::B), Piece::R);
}

#[test]
fn game_error_keeps_message() {
    let e = game_error("bad thing");
    assert_eq!(e.description(), "bad thing");
    assert_eq!(e.msg, "bad thing");
}

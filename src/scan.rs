use vstd::prelude::*;

use crate::board::{all_empty, cell_of, wf_board, Board, Piece, COLS, ROWS};

verus! {

/// One of the four line directions, listed in the order in which they are scanned.
#[derive(PartialEq, Eq, Structural, Clone, Copy, Debug)]
pub enum Direction {
    /// Downwards along a column.
    Vertical,
    /// Rightwards along a row.
    Horizontal,
    /// Down and to the right.
    DownRight,
    /// Up and to the right.
    UpRight,
}

/// The outcome of a scan of the board.
#[derive(PartialEq, Eq, Structural, Clone, Copy, Debug)]
pub enum Verdict {
    /// No line of four yet, and at least one empty cell.
    Pending,
    /// The given player has a line of four.
    Win(Piece),
    /// Every cell is taken and nobody has a line of four.
    Draw,
}

/// Whether a line of four in direction `d` may start at (`r`, `c`) and stay on the grid.
pub open spec fn is_start(d: Direction, r: int, c: int) -> bool {
    match d {
        Direction::Vertical => 0 <= r < 3 && 0 <= c < COLS,
        Direction::Horizontal => 0 <= r < ROWS && 0 <= c < 4,
        Direction::DownRight => 0 <= r < 3 && 0 <= c < 4,
        Direction::UpRight => 3 <= r < ROWS && 0 <= c < 4,
    }
}

/// The `i`-th cell (from 0 to 3) of the line that starts at (`r`, `c`) in direction `d`.
pub open spec fn line_cell(b: &Board, d: Direction, r: int, c: int, i: int) -> Piece {
    match d {
        Direction::Vertical => cell_of(b, r + i, c),
        Direction::Horizontal => cell_of(b, r, c + i),
        Direction::DownRight => cell_of(b, r + i, c + i),
        Direction::UpRight => cell_of(b, r - i, c + i),
    }
}

/// The four cells from (`r`, `c`) in direction `d` all hold the non-empty piece `p`.
pub open spec fn line_of(b: &Board, d: Direction, r: int, c: int, p: Piece) -> bool {
    &&& is_start(d, r, c)
    &&& p != Piece::E
    &&& line_cell(b, d, r, c, 0) == p
    &&& line_cell(b, d, r, c, 1) == p
    &&& line_cell(b, d, r, c, 2) == p
    &&& line_cell(b, d, r, c, 3) == p
}

/// Player `p` has a line of four somewhere on the board.
pub open spec fn has_line(b: &Board, p: Piece) -> bool {
    exists|d: Direction, r: int, c: int| #[trigger] line_of(b, d, r, c, p)
}

/// Every cell of the board holds a piece.
pub open spec fn board_full(b: &Board) -> bool {
    forall|r: int, c: int| 0 <= r < ROWS && 0 <= c < COLS ==> #[trigger] cell_of(b, r, c) != Piece::E
}

/// How many lines of direction `d` fit on the grid.
pub open spec fn window_count(d: Direction) -> int {
    match d {
        Direction::Vertical => 21,
        Direction::Horizontal => 24,
        Direction::DownRight => 12,
        Direction::UpRight => 12,
    }
}

/// Row where the `k`-th line of direction `d` starts, in scan order: vertical lines
/// column by column, the others row by row.
pub open spec fn start_row(d: Direction, k: int) -> int {
    match d {
        Direction::Vertical => k % 3,
        Direction::UpRight => 3 + k / 4,
        _ => k / 4,
    }
}

/// Column where the `k`-th line of direction `d` starts, in scan order.
pub open spec fn start_col(d: Direction, k: int) -> int {
    match d {
        Direction::Vertical => k / 3,
        _ => k % 4,
    }
}

/// The `k`-th line of direction `d` is a line of four of the piece it starts with.
pub open spec fn window_wins(b: &Board, d: Direction, k: int) -> bool {
    line_of(b, d, start_row(d, k), start_col(d, k), cell_of(b, start_row(d, k), start_col(d, k)))
}

/// The piece of the first winning line of direction `d` at or after the `k`-th, if any.
pub open spec fn first_win_from(b: &Board, d: Direction, k: nat) -> Option<Piece>
    decreases window_count(d) - k,
{
    if k >= window_count(d) {
        None
    } else if window_wins(b, d, k as int) {
        Some(cell_of(b, start_row(d, k as int), start_col(d, k as int)))
    } else {
        first_win_from(b, d, k + 1)
    }
}

/// The piece of the first winning line of direction `d`, in scan order.
pub open spec fn first_win(b: &Board, d: Direction) -> Option<Piece> {
    first_win_from(b, d, 0)
}

/// The winner reported by a scan: vertical lines first, then horizontal, then the two
/// diagonals.
pub open spec fn winner(b: &Board) -> Option<Piece> {
    if first_win(b, Direction::Vertical) is Some {
        first_win(b, Direction::Vertical)
    } else if first_win(b, Direction::Horizontal) is Some {
        first_win(b, Direction::Horizontal)
    } else if first_win(b, Direction::DownRight) is Some {
        first_win(b, Direction::DownRight)
    } else {
        first_win(b, Direction::UpRight)
    }
}

/// The verdict on a board.
pub open spec fn verdict_of(b: &Board) -> Verdict {
    match winner(b) {
        Some(p) => Verdict::Win(p),
        None => if board_full(b) {
            Verdict::Draw
        } else {
            Verdict::Pending
        },
    }
}

/// The verdict in the encoding of `check_winner`: the winner, `E` for a draw, nothing
/// while the game goes on.
pub open spec fn outcome_of(b: &Board) -> Option<Piece> {
    match verdict_of(b) {
        Verdict::Win(p) => Some(p),
        Verdict::Draw => Some(Piece::E),
        Verdict::Pending => None,
    }
}

/// Where the `k`-th line of direction `d` starts.
fn window_start(d: Direction, k: usize) -> (res: (usize, usize))
    requires
        k < window_count(d),
    ensures
        res.0 == start_row(d, k as int),
        res.1 == start_col(d, k as int),
        is_start(d, res.0 as int, res.1 as int),
{
    match d {
        Direction::Vertical => (k % 3, k / 3),
        Direction::UpRight => (3 + k / 4, k % 4),
        _ => (k / 4, k % 4),
    }
}

/// Reads the `i`-th cell of the line that starts at (`r`, `c`) in direction `d`.
fn read_line_cell(board: &Board, d: Direction, r: usize, c: usize, i: usize) -> (p: Piece)
    requires
        wf_board(board),
        is_start(d, r as int, c as int),
        i < 4,
    ensures
        p == line_cell(board, d, r as int, c as int, i as int),
{
    match d {
        Direction::Vertical => board[r + i][c],
        Direction::Horizontal => board[r][c + i],
        Direction::DownRight => board[r + i][c + i],
        Direction::UpRight => board[r - i][c + i],
    }
}

/// Scans the lines of one direction in order and returns the piece of the first line of
/// four found. A line that starts on an empty cell is skipped.
pub fn first_line(board: &Board, d: Direction) -> (res: Option<Piece>)
    requires
        wf_board(board),
    ensures
        res == first_win(board, d),
{
    let count: usize = match d {
        Direction::Vertical => 21,
        Direction::Horizontal => 24,
        _ => 12,
    };
    let mut k: usize = 0;
    while k < count
        invariant
            wf_board(board),
            count == window_count(d),
            k <= count,
            first_win(board, d) == first_win_from(board, d, k as nat),
        decreases count - k,
    {
        let (r, c) = window_start(d, k);
        let p = board[r][c];
        if p != Piece::E {
            let p1 = read_line_cell(board, d, r, c, 1);
            let p2 = read_line_cell(board, d, r, c, 2);
            let p3 = read_line_cell(board, d, r, c, 3);
            if p == p1 && p == p2 && p == p3 {
                return Some(p);
            }
        }
        k = k + 1;
    }
    None
}

/// Whether some cell of the board is empty.
pub fn has_empty(board: &Board) -> (res: bool)
    requires
        wf_board(board),
    ensures
        res == !board_full(board),
{
    let mut r: usize = 0;
    while r < ROWS
        invariant
            wf_board(board),
            r <= ROWS,
            forall|i: int, j: int| 0 <= i < r && 0 <= j < COLS ==> #[trigger] cell_of(board, i, j) != Piece::E,
        decreases ROWS - r,
    {
        let mut c: usize = 0;
        while c < COLS
            invariant
                wf_board(board),
                r < ROWS,
                c <= COLS,
                forall|i: int, j: int| 0 <= i < r && 0 <= j < COLS ==> #[trigger] cell_of(board, i, j) != Piece::E,
                forall|j: int| 0 <= j < c ==> #[trigger] cell_of(board, r as int, j) != Piece::E,
            decreases COLS - c,
        {
            if board[r][c] == Piece::E {
                assert(cell_of(board, r as int, c as int) == Piece::E);
                return true;
            }
            c = c + 1;
        }
        r = r + 1;
    }
    false
}

/// Scans the whole board: `Some(p)` when player `p` has a line of four (vertical lines are
/// looked at first, then horizontal, then down-right, then up-right), `Some(E)` when every
/// cell is taken and nobody has one, `None` while the game goes on.
pub fn check_winner(board: &Board) -> (res: Option<Piece>)
    requires
        wf_board(board),
    ensures
        res == outcome_of(board),
{
    let v = first_line(board, Direction::Vertical);
    if v.is_some() {
        return v;
    }
    let h = first_line(board, Direction::Horizontal);
    if h.is_some() {
        return h;
    }
    let dr = first_line(board, Direction::DownRight);
    if dr.is_some() {
        return dr;
    }
    let ur = first_line(board, Direction::UpRight);
    if ur.is_some() {
        return ur;
    }
    if has_empty(board) {
        None
    } else {
        Some(Piece::E)
    }
}

/// The verdict on a board, computed afresh by a full scan.
pub fn evaluate(board: &Board) -> (res: Verdict)
    requires
        wf_board(board),
    ensures
        res == verdict_of(board),
{
    proof {
        lemma_winner_has_line(board);
    }
    match check_winner(board) {
        Some(Piece::E) => Verdict::Draw,
        Some(p) => Verdict::Win(p),
        None => Verdict::Pending,
    }
}

/// What `first_win_from` reports is the piece of a winning line at or after `k`, and it
/// reports nothing only when no such line exists.
proof fn lemma_first_win_from(b: &Board, d: Direction, k: nat)
    ensures
        match first_win_from(b, d, k) {
            Some(p) => exists|j: int|
                k <= j < window_count(d) && #[trigger] window_wins(b, d, j) && p == cell_of(
                    b,
                    start_row(d, j),
                    start_col(d, j),
                ),
            None => forall|j: int| k <= j < window_count(d) ==> !#[trigger] window_wins(b, d, j),
        },
    decreases window_count(d) - k,
{
    if k < window_count(d) {
        lemma_first_win_from(b, d, k + 1);
    }
}

/// The reported winner is a player with a line of four, and nobody is reported only when
/// nobody has one.
proof fn lemma_winner_has_line(b: &Board)
    ensures
        match winner(b) {
            Some(p) => p != Piece::E && has_line(b, p),
            None => forall|d: Direction, r: int, c: int, p: Piece| !#[trigger] line_of(b, d, r, c, p),
        },
{
    lemma_first_win_from(b, Direction::Vertical, 0);
    lemma_first_win_from(b, Direction::Horizontal, 0);
    lemma_first_win_from(b, Direction::DownRight, 0);
    lemma_first_win_from(b, Direction::UpRight, 0);
    match winner(b) {
        Some(p) => {
            let d = if first_win(b, Direction::Vertical) is Some {
                Direction::Vertical
            } else if first_win(b, Direction::Horizontal) is Some {
                Direction::Horizontal
            } else if first_win(b, Direction::DownRight) is Some {
                Direction::DownRight
            } else {
                Direction::UpRight
            };
            let j = choose|j: int|
                0 <= j < window_count(d) && #[trigger] window_wins(b, d, j) && p == cell_of(
                    b,
                    start_row(d, j),
                    start_col(d, j),
                );
            assert(line_of(b, d, start_row(d, j), start_col(d, j), p));
        },
        None => {
            assert forall|d: Direction, r: int, c: int, p: Piece| !#[trigger] line_of(b, d, r, c, p) by {
                if line_of(b, d, r, c, p) {
                    let j = start_index(d, r, c);
                    lemma_start_index(d, r, c);
                    assert(window_wins(b, d, j));
                }
            }
        },
    }
}

/// Position in scan order of the line of direction `d` that starts at (`r`, `c`).
pub open spec fn start_index(d: Direction, r: int, c: int) -> int {
    match d {
        Direction::Vertical => 3 * c + r,
        Direction::UpRight => 4 * (r - 3) + c,
        _ => 4 * r + c,
    }
}

proof fn lemma_start_index(d: Direction, r: int, c: int)
    requires
        is_start(d, r, c),
    ensures
        0 <= start_index(d, r, c) < window_count(d),
        start_row(d, start_index(d, r, c)) == r,
        start_col(d, start_index(d, r, c)) == c,
{
}

/// Boards with the same cells have the same first winning line at or after `k`.
proof fn lemma_first_win_same_cells(b1: &Board, b2: &Board, d: Direction, k: nat)
    requires
        wf_board(b1),
        wf_board(b2),
        forall|r: int, c: int|
            0 <= r < ROWS && 0 <= c < COLS ==> #[trigger] cell_of(b1, r, c) == cell_of(b2, r, c),
    ensures
        first_win_from(b1, d, k) == first_win_from(b2, d, k),
    decreases window_count(d) - k,
{
    if k < window_count(d) {
        lemma_first_win_same_cells(b1, b2, d, k + 1);
    }
}

/// The verdict depends on the cells alone: two boards that hold the same pieces, and in
/// particular one board scanned twice without a move in between, get the same verdict.
pub proof fn lemma_verdict_depends_on_cells(b1: &Board, b2: &Board)
    requires
        wf_board(b1),
        wf_board(b2),
        forall|r: int, c: int|
            0 <= r < ROWS && 0 <= c < COLS ==> #[trigger] cell_of(b1, r, c) == cell_of(b2, r, c),
    ensures
        verdict_of(b1) == verdict_of(b2),
        outcome_of(b1) == outcome_of(b2),
{
    lemma_first_win_same_cells(b1, b2, Direction::Vertical, 0);
    lemma_first_win_same_cells(b1, b2, Direction::Horizontal, 0);
    lemma_first_win_same_cells(b1, b2, Direction::DownRight, 0);
    lemma_first_win_same_cells(b1, b2, Direction::UpRight, 0);
    assert(board_full(b1) == board_full(b2)) by {
        if board_full(b1) {
            assert forall|r: int, c: int| 0 <= r < ROWS && 0 <= c < COLS implies #[trigger] cell_of(b2, r, c)
                != Piece::E by {
                assert(cell_of(b1, r, c) != Piece::E);
            }
        }
        if board_full(b2) {
            assert forall|r: int, c: int| 0 <= r < ROWS && 0 <= c < COLS implies #[trigger] cell_of(b1, r, c)
                != Piece::E by {
                assert(cell_of(b2, r, c) != Piece::E);
            }
        }
    }
}

/// A board with no piece on it is pending.
pub proof fn lemma_empty_board_pending(b: &Board)
    requires
        wf_board(b),
        all_empty(b),
    ensures
        verdict_of(b) == Verdict::Pending,
{
    lemma_winner_has_line(b);
    assert forall|p: Piece| !has_line(b, p) by {
        assert forall|d: Direction, r: int, c: int| !#[trigger] line_of(b, d, r, c, p) by {
            if line_of(b, d, r, c, p) {
                assert(cell_of(b, r, c) == Piece::E);
            }
        }
    }
    assert(cell_of(b, 0, 0) == Piece::E);
}

/// When four cells in a row, a column or a diagonal all hold the piece `p`, and no other
/// piece has such a line, the verdict is a win for `p`.
pub proof fn lemma_line_wins(b: &Board, d: Direction, r: int, c: int, p: Piece)
    requires
        wf_board(b),
        line_of(b, d, r, c, p),
        forall|q: Piece| q != p ==> !#[trigger] has_line(b, q),
    ensures
        verdict_of(b) == Verdict::Win(p),
{
    lemma_winner_has_line(b);
}

/// A verdict of a win for `p` means that `p` has a line of four.
pub proof fn lemma_win_has_line(b: &Board, p: Piece)
    requires
        wf_board(b),
        verdict_of(b) == Verdict::Win(p),
    ensures
        p != Piece::E,
        has_line(b, p),
{
    lemma_winner_has_line(b);
}

/// A board whose every cell is taken, with no line of four anywhere, is a draw.
pub proof fn lemma_full_board_draw(b: &Board)
    requires
        wf_board(b),
        board_full(b),
        forall|p: Piece| !#[trigger] has_line(b, p),
    ensures
        verdict_of(b) == Verdict::Draw,
{
    lemma_winner_has_line(b);
}

} // verus!

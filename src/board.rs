use vstd::prelude::*;

verus! {

/// Number of rows of the grid; row 0 is the top, row 5 the bottom.
pub const ROWS: usize = 6;

/// Number of columns of the grid.
pub const COLS: usize = 7;

/// A cell of the grid: a red piece, a black piece, or nothing.
#[derive(PartialEq, Eq, Structural, Clone, Copy, Debug)]
pub enum Piece {
    R,
    B,
    E,
}

/// The grid, as a vector of rows.
pub type Board = Vec<Vec<Piece>>;

/// A board has exactly `ROWS` rows of `COLS` cells each.
pub open spec fn wf_board(b: &Board) -> bool {
    &&& b@.len() == ROWS
    &&& forall|r: int| 0 <= r < ROWS ==> (#[trigger] b@[r])@.len() == COLS
}

/// The piece at row `r`, column `c`.
pub open spec fn cell_of(b: &Board, r: int, c: int) -> Piece {
    b@[r]@[c]
}

/// Every cell of the board is empty.
pub open spec fn all_empty(b: &Board) -> bool {
    forall|r: int, c: int| 0 <= r < ROWS && 0 <= c < COLS ==> #[trigger] cell_of(b, r, c) == Piece::E
}

/// Creates a board whose every cell is empty.
pub fn new_board() -> (b: Board)
    ensures
        wf_board(&b),
        all_empty(&b),
{
    let mut b: Board = Vec::new();
    let mut r: usize = 0;
    while r < ROWS
        invariant
            r <= ROWS,
            b@.len() == r,
            forall|i: int| 0 <= i < r ==> (#[trigger] b@[i])@.len() == COLS,
            forall|i: int, c: int| 0 <= i < r && 0 <= c < COLS ==> #[trigger] b@[i]@[c] == Piece::E,
        decreases ROWS - r,
    {
        let row: Vec<Piece> = vec![Piece::E; COLS];
        assert(forall|c: int| 0 <= c < COLS ==> row@[c] == Piece::E);
        let ghost prev = b@;
        b.push(row);
        assert forall|i: int, c: int| 0 <= i <= r && 0 <= c < COLS implies #[trigger] b@[i]@[c]
            == Piece::E by {
            if i < r {
                assert(b@[i] == prev[i]);
            }
        }
        r = r + 1;
    }
    b
}

/// The piece at row `row`, column `col`.
pub fn cell(board: &Board, row: usize, col: usize) -> (p: Piece)
    requires
        wf_board(board),
        row < ROWS,
        col < COLS,
    ensures
        p == cell_of(board, row as int, col as int),
{
    board[row][col]
}

impl Piece {
    /// The character that shows the piece on screen: `R`, `B`, or a blank for an empty
    /// cell.
    pub fn symbol(&self) -> (ch: char)
        ensures
            ch == match *self {
                Piece::R => 'R',
                Piece::B => 'B',
                Piece::E => ' ',
            },
    {
        match self {
            Piece::R => 'R',
            Piece::B => 'B',
            Piece::E => ' ',
        }
    }
}

/// The player who moves after `p`.
pub fn other_player(p: Piece) -> (q: Piece)
    ensures
        q == match p {
            Piece::R => Piece::B,
            Piece::B => Piece::R,
            Piece::E => Piece::E,
        },
{
    match p {
        Piece::R => Piece::B,
        Piece::B => Piece::R,
        Piece::E => Piece::E,
    }
}

/// The piece in row `r`, column `c` of the sample board: two empty rows on top, then rows
/// that alternate black and red, each pair of rows starting with the other colour.
pub open spec fn sample_cell(r: int, c: int) -> Piece {
    if r < 2 {
        Piece::E
    } else if (r < 4) == (c % 2 == 0) {
        Piece::B
    } else {
        Piece::R
    }
}

/// Builds one row of the sample board from its first piece and the other colour.
fn alternating_row(first: Piece, second: Piece) -> (row: Vec<Piece>)
    ensures
        row@.len() == COLS,
        forall|c: int| 0 <= c < COLS ==> #[trigger] row@[c] == if c % 2 == 0 {
            first
        } else {
            second
        },
{
    vec![first, second, first, second, first, second, first]
}

/// A board with pieces on its four lower rows, used to try out the display.
pub fn test_board() -> (b: Board)
    ensures
        wf_board(&b),
        forall|r: int, c: int|
            0 <= r < ROWS && 0 <= c < COLS ==> #[trigger] cell_of(&b, r, c) == sample_cell(r, c),
{
    let b: Board = vec![
        vec![Piece::E; COLS],
        vec![Piece::E; COLS],
        alternating_row(Piece::B, Piece::R),
        alternating_row(Piece::B, Piece::R),
        alternating_row(Piece::R, Piece::B),
        alternating_row(Piece::R, Piece::B),
    ];
    assert forall|r: int, c: int|
        0 <= r < ROWS && 0 <= c < COLS implies #[trigger] cell_of(&b, r, c) == sample_cell(r, c) by {
        if r < 2 {
            assert(b@[r]@[c] == Piece::E);
        }
    }
    b
}

} // verus!

use vstd::prelude::*;

use crate::board::{cell_of, wf_board, Board, Piece, COLS, ROWS};

verus! {

/// An error of the game, carrying a message for the player.
#[derive(Clone, Debug)]
pub struct GameError {
    pub msg: String,
}

impl GameError {
    /// The message of the error.
    pub fn description(&self) -> (r: &str)
        ensures
            r@ == self.msg@,
    {
        self.msg.as_str()
    }
}

/// Makes a game error with the given message.
pub fn game_error(err: &str) -> (e: GameError)
    ensures
        e.msg@ == err@,
{
    GameError { msg: String::from_str(err) }
}

/// Message of the error for a column with no empty cell.
pub open spec fn column_full_message() -> Seq<char> {
    "Column must not be full."@
}

/// Message of the error for text that names no column.
pub open spec fn bad_column_message() -> Seq<char> {
    "column must be one of 1-7"@
}

/// No cell of column `c` is empty.
pub open spec fn column_full(b: &Board, c: int) -> bool {
    forall|r: int| 0 <= r < ROWS ==> #[trigger] cell_of(b, r, c) != Piece::E
}

/// Row `row` holds the lowest empty cell of column `c`: a piece dropped there lands on it.
pub open spec fn landing_row(b: &Board, c: int, row: int) -> bool {
    &&& 0 <= row < ROWS
    &&& cell_of(b, row, c) == Piece::E
    &&& forall|r: int| row < r < ROWS ==> #[trigger] cell_of(b, r, c) != Piece::E
}

/// `after` is `before` with the single cell (`row`, `c`) set to `p`.
pub open spec fn placed(before: &Board, after: &Board, row: int, c: int, p: Piece) -> bool {
    &&& wf_board(after)
    &&& forall|r: int, j: int|
        0 <= r < ROWS && 0 <= j < COLS ==> #[trigger] cell_of(after, r, j) == if r == row && j == c {
            p
        } else {
            cell_of(before, r, j)
        }
}

/// Finds the row where a piece dropped into `column` lands: the lowest empty cell of the
/// column. Fails when the column has no empty cell. The board is left as it is.
pub fn check_full(board: &mut Board, column: usize) -> (res: Result<usize, GameError>)
    requires
        wf_board(old(board)),
        column < COLS,
    ensures
        *final(board) == *old(board),
        match res {
            Ok(row) => landing_row(old(board), column as int, row as int),
            Err(e) => column_full(old(board), column as int) && e.msg@ == column_full_message(),
        },
{
    let mut i: usize = ROWS;
    while i > 0
        invariant
            wf_board(board),
            i <= ROWS,
            column < COLS,
            forall|r: int| i <= r < ROWS ==> #[trigger] cell_of(board, r, column as int) != Piece::E,
        decreases i,
    {
        if board[i - 1][column] != Piece::E {
            i = i - 1;
        } else {
            return Ok(i - 1);
        }
    }
    Err(game_error("Column must not be full."))
}

/// Drops `piece` into `column`: it lands on the lowest empty cell, whose row is returned.
/// On a full column the board is left as it is and an error is returned.
pub fn place(board: &mut Board, column: usize, piece: Piece) -> (res: Result<usize, GameError>)
    requires
        wf_board(old(board)),
        column < COLS,
    ensures
        wf_board(final(board)),
        match res {
            Ok(row) => landing_row(old(board), column as int, row as int) && placed(
                old(board),
                final(board),
                row as int,
                column as int,
                piece,
            ),
            Err(e) => column_full(old(board), column as int) && e.msg@ == column_full_message()
                && *final(board) == *old(board),
        },
{
    match check_full(board, column) {
        Ok(row) => {
            board[row][column] = piece;
            Ok(row)
        },
        Err(e) => Err(e),
    }
}

/// A character with the Unicode White_Space property.
pub open spec fn is_white_space(ch: char) -> bool {
    let u = ch as u32;
    ||| 0x9 <= u <= 0xd
    ||| u == 0x20
    ||| u == 0x85
    ||| u == 0xa0
    ||| u == 0x1680
    ||| 0x2000 <= u <= 0x200a
    ||| u == 0x2028
    ||| u == 0x2029
    ||| u == 0x202f
    ||| u == 0x205f
    ||| u == 0x3000
}

/// `s` without its leading white space.
pub open spec fn trim_start(s: Seq<char>) -> Seq<char>
    decreases s.len(),
{
    if s.len() > 0 && is_white_space(s[0]) {
        trim_start(s.drop_first())
    } else {
        s
    }
}

/// `s` without its trailing white space.
pub open spec fn trim_end(s: Seq<char>) -> Seq<char>
    decreases s.len(),
{
    if s.len() > 0 && is_white_space(s.last()) {
        trim_end(s.drop_last())
    } else {
        s
    }
}

/// `s` without its leading and trailing white space.
pub open spec fn trimmed(s: Seq<char>) -> Seq<char> {
    trim_end(trim_start(s))
}

/// The column that a typed token names: the text, once trimmed, is a single digit from
/// `1` to `7`, which names the column one less than it.
pub open spec fn column_of_token(s: Seq<char>) -> Option<int> {
    let t = trimmed(s);
    if t.len() == 1 && ('1' as u32) <= (t[0] as u32) <= ('7' as u32) {
        Some(t[0] as u32 - '1' as u32)
    } else {
        None
    }
}

/// Relies on str::trim: it removes the leading and trailing characters that have the
/// Unicode White_Space property, and nothing else.
#[verifier::external_body]
fn trim_white<'a>(s: &'a str) -> (r: &'a str)
    ensures
        r@ == trimmed(s@),
{
    s.trim()
}

/// Parses a typed column: `"1"` to `"7"`, with surrounding white space allowed, give the
/// columns 0 to 6; anything else is an error.
pub fn validate_move(col: &str) -> (res: Result<usize, GameError>)
    ensures
        match res {
            Ok(c) => column_of_token(col@) == Some(c as int),
            Err(e) => column_of_token(col@) is None && e.msg@ == bad_column_message(),
        },
{
    let t = trim_white(col);
    if t.unicode_len() == 1 {
        let ch = t.get_char(0);
        let c: Option<usize> = match ch {
            '1' => Some(0),
            '2' => Some(1),
            '3' => Some(2),
            '4' => Some(3),
            '5' => Some(4),
            '6' => Some(5),
            '7' => Some(6),
            _ => None,
        };
        if let Some(c) = c {
            return Ok(c);
        }
    }
    Err(game_error("column must be one of 1-7"))
}

/// Turns what was read from the player into a column: a read error is passed on, a line
/// is validated.
pub fn try_move(line: Result<String, GameError>) -> (res: Result<usize, GameError>)
    ensures
        match line {
            Err(e) => res == Err::<usize, GameError>(e),
            Ok(s) => match res {
                Ok(c) => column_of_token(s@) == Some(c as int),
                Err(e) => column_of_token(s@) is None && e.msg@ == bad_column_message(),
            },
        },
{
    match line {
        Err(e) => Err(e),
        Ok(s) => validate_move(s.as_str()),
    }
}

/// Plays one attempted move of `piece` from what the player typed: the column is parsed,
/// then the piece is dropped into it. On any error the board is left as it is.
pub fn make_move(board: &mut Board, piece: Piece, line: Result<String, GameError>) -> (res: Result<
    Piece,
    GameError,
>)
    requires
        wf_board(old(board)),
    ensures
        wf_board(final(board)),
        match line {
            Err(e) => res == Err::<Piece, GameError>(e) && *final(board) == *old(board),
            Ok(s) => match column_of_token(s@) {
                None => *final(board) == *old(board) && (res matches Err(e) && e.msg@
                    == bad_column_message()),
                Some(c) => if column_full(old(board), c) {
                    *final(board) == *old(board) && (res matches Err(e) && e.msg@
                        == column_full_message())
                } else {
                    res == Ok::<Piece, GameError>(piece) && exists|row: int|
                        landing_row(old(board), c, row) && #[trigger] placed(
                            old(board),
                            final(board),
                            row,
                            c,
                            piece,
                        )
                },
            },
        },
{
    let column = match try_move(line) {
        Ok(m) => m,
        Err(e) => { return Err(e); },
    };
    match place(board, column, piece) {
        Ok(_) => Ok(piece),
        Err(e) => Err(e),
    }
}

} // verus!

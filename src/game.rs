use vstd::prelude::*;
use vstd::string::StringExecFns;

use crate::tree::str_eq;
use crate::validators::{is_digit, without_plus};

verus! {

/// A piece of the game: a cookie or a glass of milk.
#[derive(Clone, Copy, PartialEq, Eq, Structural, Debug)]
pub enum Piece {
    Cookie,
    Milk,
}

/// Where a game stands.
#[derive(Clone, Copy, PartialEq, Eq, Structural, Debug)]
pub enum GameState {
    /// Some line of four holds four of one piece.
    Winner(Piece),
    /// The board is full and no line is won.
    Draw,
    NotEnded,
}

/// A 4 by 4 board, held column by column; row 0 is the top row, row 3 the bottom one.
#[derive(Debug, PartialEq, Eq)]
pub struct Game {
    pub board: [[Option<Piece>; 4]; 4],
}

pub type Board = [[Option<Piece>; 4]; 4];

pub open spec fn cell(b: Board, column: int, row: int) -> Option<Piece> {
    b@[column]@[row]
}

/// The model of a board: its columns, each from the top down.
pub open spec fn board_view(b: Board) -> Seq<Seq<Option<Piece>>> {
    Seq::new(4, |c: int| b@[c]@)
}

/// The `j`-th cell of line `k`: lines 0 to 3 are the columns, 4 to 7 the rows, 8 the diagonal
/// from the top left and 9 the diagonal from the bottom left.
pub open spec fn line_cell(b: Board, k: int, j: int) -> Option<Piece> {
    if k < 4 {
        cell(b, k, j)
    } else if k < 8 {
        cell(b, j, k - 4)
    } else if k == 8 {
        cell(b, j, j)
    } else {
        cell(b, 3 - j, j)
    }
}

/// The piece that fills line `k`, if one does.
pub open spec fn line_winner(b: Board, k: int) -> Option<Piece> {
    if line_cell(b, k, 0) is Some && line_cell(b, k, 1) == line_cell(b, k, 0) && line_cell(b, k, 2)
        == line_cell(b, k, 0) && line_cell(b, k, 3) == line_cell(b, k, 0) {
        line_cell(b, k, 0)
    } else {
        None
    }
}

/// The piece that fills the first won line from line `k` on.
pub open spec fn first_winner(b: Board, k: int) -> Option<Piece>
    decreases 10 - k,
{
    if k >= 10 {
        None
    } else if line_winner(b, k) is Some {
        line_winner(b, k)
    } else {
        first_winner(b, k + 1)
    }
}

pub open spec fn is_full(b: Board) -> bool {
    forall|c: int, r: int| 0 <= c < 4 && 0 <= r < 4 ==> (#[trigger] cell(b, c, r)) is Some
}

pub open spec fn state_of(b: Board) -> GameState {
    match first_winner(b, 0) {
        Some(p) => GameState::Winner(p),
        None => if is_full(b) {
            GameState::Draw
        } else {
            GameState::NotEnded
        },
    }
}

/// The number of empty cells at the top of a column: a piece dropped in lands just above them.
pub open spec fn empty_from(b: Board, column: int, row: int) -> int
    decreases 4 - row,
{
    if row >= 4 || cell(b, column, row) is Some {
        row
    } else {
        empty_from(b, column, row + 1)
    }
}

pub open spec fn is_empty_board(b: Board) -> bool {
    forall|c: int, r: int| 0 <= c < 4 && 0 <= r < 4 ==> (#[trigger] cell(b, c, r)) is None
}

pub open spec fn wall_char() -> char {
    '\u{2B1C}'
}

pub open spec fn empty_char() -> char {
    '\u{2B1B}'
}

pub open spec fn piece_char(p: Piece) -> char {
    match p {
        Piece::Cookie => '\u{1F36A}',
        Piece::Milk => '\u{1F95B}',
    }
}

pub open spec fn cell_char(c: Option<Piece>) -> char {
    match c {
        Some(p) => piece_char(p),
        None => empty_char(),
    }
}

/// Row `r` of the picture: the cells between two walls.
pub open spec fn row_text(b: Board, r: int) -> Seq<char> {
    seq![
        wall_char(),
        cell_char(cell(b, 0, r)),
        cell_char(cell(b, 1, r)),
        cell_char(cell(b, 2, r)),
        cell_char(cell(b, 3, r)),
        wall_char(),
        '\n',
    ]
}

pub open spec fn bottom_text() -> Seq<char> {
    seq![wall_char(), wall_char(), wall_char(), wall_char(), wall_char(), wall_char(), '\n']
}

/// The line under the board: who won, or that nobody did; nothing while the game goes on.
pub open spec fn status_text(s: GameState) -> Seq<char> {
    match s {
        GameState::Winner(p) => seq![piece_char(p), ' ', 'w', 'i', 'n', 's', '!', '\n'],
        GameState::Draw => seq!['N', 'o', ' ', 'w', 'i', 'n', 'n', 'e', 'r', '.', '\n'],
        GameState::NotEnded => Seq::empty(),
    }
}

/// The picture of a board: its rows from the top, a wall below, and the status line.
pub open spec fn board_text(b: Board) -> Seq<char> {
    row_text(b, 0) + row_text(b, 1) + row_text(b, 2) + row_text(b, 3) + bottom_text() + status_text(
        state_of(b),
    )
}

fn piece_str(p: Piece) -> (r: &'static str)
    ensures
        r@ == seq![piece_char(p)],
{
    match p {
        Piece::Cookie => {
            proof { reveal_strlit("\u{1F36A}"); }
            assert("\u{1F36A}"@ =~= seq![piece_char(p)]);
            "\u{1F36A}"
        },
        Piece::Milk => {
            proof { reveal_strlit("\u{1F95B}"); }
            assert("\u{1F95B}"@ =~= seq![piece_char(p)]);
            "\u{1F95B}"
        },
    }
}

fn wall_str() -> (r: &'static str)
    ensures
        r@ == seq![wall_char()],
{
    proof { reveal_strlit("\u{2B1C}"); }
    assert("\u{2B1C}"@ =~= seq![wall_char()]);
    "\u{2B1C}"
}

fn newline_str() -> (r: &'static str)
    ensures
        r@ == seq!['\n'],
{
    proof { reveal_strlit("\n"); }
    assert("\n"@ =~= seq!['\n']);
    "\n"
}

fn status_str(s: GameState) -> (r: String)
    ensures
        r@ == status_text(s),
{
    match s {
        GameState::Winner(p) => {
            proof { reveal_strlit(" wins!\n"); }
            let mut out = String::from_str(piece_str(p));
            out.append(" wins!\n");
            assert(out@ =~= status_text(s));
            out
        },
        GameState::Draw => {
            proof { reveal_strlit("No winner.\n"); }
            let out = String::from_str("No winner.\n");
            assert(out@ =~= status_text(s));
            out
        },
        GameState::NotEnded => String::new(),
    }
}

fn cell_str(c: Option<Piece>) -> (r: &'static str)
    ensures
        r@ == seq![cell_char(c)],
{
    match c {
        Some(p) => piece_str(p),
        None => {
            proof { reveal_strlit("\u{2B1B}"); }
            assert("\u{2B1B}"@ =~= seq![empty_char()]);
            "\u{2B1B}"
        },
    }
}

/// The piece that a team plays: `milk` or `cookie`.
pub open spec fn team_piece(team: Seq<char>) -> Option<Piece> {
    if team == seq!['m', 'i', 'l', 'k'] {
        Some(Piece::Milk)
    } else if team == seq!['c', 'o', 'o', 'k', 'i', 'e'] {
        Some(Piece::Cookie)
    } else {
        None
    }
}

pub open spec fn decimal_value(d: Seq<char>) -> int
    decreases d.len(),
{
    if d.len() == 0 {
        0
    } else {
        decimal_value(d.drop_last()) * 10 + (d.last() as int - '0' as int)
    }
}

/// The number that Rust's `usize::from_str` reads from `s`, were `usize` unbounded: an
/// optional `+`, then at least one decimal digit.
pub open spec fn decimal_number(s: Seq<char>) -> Option<int> {
    let d = without_plus(s);
    if d.len() > 0 && forall|i: int| 0 <= i < d.len() ==> is_digit(d[i]) {
        Some(decimal_value(d))
    } else {
        None
    }
}

/// The move that a team name and a column number, counted from 1 to 4, stand for.
pub open spec fn move_of(team: Seq<char>, column: Seq<char>) -> Option<(Piece, usize)> {
    match (team_piece(team), decimal_number(column)) {
        (Some(p), Some(c)) => if 1 <= c <= 4 {
            Some((p, c as usize))
        } else {
            None
        },
        _ => None,
    }
}

/// Reads a move: the team (`milk` or `cookie`) and the column (a number from 1 to 4).
pub fn parse_move(team: &str, column: &str) -> (r: Option<(Piece, usize)>)
    ensures
        r == move_of(team@, column@),
{
    proof {
        reveal_strlit("milk");
        reveal_strlit("cookie");
    }
    assert("milk"@ =~= seq!['m', 'i', 'l', 'k']);
    assert("cookie"@ =~= seq!['c', 'o', 'o', 'k', 'i', 'e']);
    let piece = if str_eq(team, "milk") {
        Piece::Milk
    } else if str_eq(team, "cookie") {
        Piece::Cookie
    } else {
        return None;
    };
    let n = column.unicode_len();
    let start: usize = if n > 0 && column.get_char(0) == '+' {
        1
    } else {
        0
    };
    let ghost d = without_plus(column@);
    assert(d =~= column@.skip(start as int));
    if start == n {
        return None;
    }
    // The value read so far, held at 5 once it is past the last column.
    let mut acc: usize = 0;
    let mut i: usize = start;
    assert(d.take(0) =~= Seq::<char>::empty());
    while i < n
        invariant
            n == column@.len(),
            start <= i <= n,
            d == column@.skip(start as int),
            d == without_plus(column@),
            forall|j: int| start <= j < i ==> is_digit(column@[j]),
            acc <= 5,
            acc < 5 ==> acc == decimal_value(d.take(i - start)),
            acc == 5 ==> decimal_value(d.take(i - start)) >= 5,
        decreases n - i,
    {
        let c = column.get_char(i);
        if !('0' <= c && c <= '9') {
            assert(d[i - start] == c);
            return None;
        }
        assert(d.take(i - start + 1).drop_last() =~= d.take(i - start));
        assert(d.take(i - start + 1).last() == c);
        let digit = (c as u32 - '0' as u32) as usize;
        if acc < 5 {
            acc = acc * 10 + digit;
            if acc > 5 {
                acc = 5;
            }
        }
        i += 1;
    }
    assert(d.take(n - start) =~= d);
    assert forall|j: int| 0 <= j < d.len() implies is_digit(d[j]) by {
        assert(d[j] == column@[j + start]);
    }
    if 1 <= acc && acc <= 4 {
        Some((piece, acc))
    } else {
        None
    }
}

fn same(a: Option<Piece>, b: Option<Piece>) -> (r: bool)
    ensures
        r == (a == b),
{
    match (a, b) {
        (None, None) => true,
        (Some(Piece::Cookie), Some(Piece::Cookie)) => true,
        (Some(Piece::Milk), Some(Piece::Milk)) => true,
        _ => false,
    }
}

fn empty_board() -> (r: Board)
    ensures
        is_empty_board(r),
{
    [[None, None, None, None], [None, None, None, None], [None, None, None, None], [None, None, None, None]]
}

impl Game {
    pub fn new() -> (r: Game)
        ensures
            is_empty_board(r.board),
    {
        Game { board: empty_board() }
    }

    pub fn reset(&mut self)
        ensures
            is_empty_board(final(self).board),
    {
        self.board = empty_board();
    }

    fn line_cell(&self, k: usize, j: usize) -> (r: Option<Piece>)
        requires
            k < 10,
            j < 4,
        ensures
            r == line_cell(self.board, k as int, j as int),
    {
        if k < 4 {
            self.board[k][j]
        } else if k < 8 {
            self.board[j][k - 4]
        } else if k == 8 {
            self.board[j][j]
        } else {
            self.board[3 - j][j]
        }
    }

    fn line_winner(&self, k: usize) -> (r: Option<Piece>)
        requires
            k < 10,
        ensures
            r == line_winner(self.board, k as int),
    {
        let first = self.line_cell(k, 0);
        let mut winner = first;
        let mut j: usize = 1;
        while j < 4
            invariant
                k < 10,
                1 <= j <= 4,
                first == line_cell(self.board, k as int, 0),
                winner == (if forall|i: int| 1 <= i < j ==> line_cell(self.board, k as int, i) == first {
                    first
                } else {
                    None
                }),
            decreases 4 - j,
        {
            if !same(self.line_cell(k, j), winner) {
                winner = None;
            }
            j += 1;
        }
        winner
    }

    /// Where the game stands: the first won line, in the order columns, rows, diagonals, gives
    /// the winner; else a full board is a draw.
    pub fn get_state(&self) -> (r: GameState)
        ensures
            r == state_of(self.board),
    {
        let mut k: usize = 0;
        while k < 10
            invariant
                0 <= k <= 10,
                first_winner(self.board, 0) == first_winner(self.board, k as int),
            decreases 10 - k,
        {
            if let Some(p) = self.line_winner(k) {
                return GameState::Winner(p);
            }
            k += 1;
        }
        let mut c: usize = 0;
        while c < 4
            invariant
                0 <= c <= 4,
                first_winner(self.board, 0) is None,
                forall|i: int, r: int| 0 <= i < c && 0 <= r < 4 ==> (#[trigger] cell(self.board, i, r)) is Some,
            decreases 4 - c,
        {
            let mut r: usize = 0;
            while r < 4
                invariant
                    0 <= c < 4,
                    0 <= r <= 4,
                    first_winner(self.board, 0) is None,
                    forall|i: int, j: int| 0 <= i < c && 0 <= j < 4 ==> (#[trigger] cell(self.board, i, j)) is Some,
                    forall|j: int| 0 <= j < r ==> (#[trigger] cell(self.board, c as int, j)) is Some,
                decreases 4 - r,
            {
                if self.board[c][r].is_none() {
                    assert(cell(self.board, c as int, r as int) is None);
                    return GameState::NotEnded;
                }
                r += 1;
            }
            c += 1;
        }
        GameState::Draw
    }

    /// The picture of the board, with the status line under it.
    pub fn to_string(&self) -> (r: String)
        ensures
            r@ == board_text(self.board),
    {
        let mut out = String::new();
        let mut r: usize = 0;
        while r < 4
            invariant
                0 <= r <= 4,
                out@ == if r == 0 {
                    Seq::<char>::empty()
                } else if r == 1 {
                    row_text(self.board, 0)
                } else if r == 2 {
                    row_text(self.board, 0) + row_text(self.board, 1)
                } else if r == 3 {
                    row_text(self.board, 0) + row_text(self.board, 1) + row_text(self.board, 2)
                } else {
                    row_text(self.board, 0) + row_text(self.board, 1) + row_text(self.board, 2)
                        + row_text(self.board, 3)
                },
            decreases 4 - r,
        {
            let ghost before = out@;
            out.append(wall_str());
            let mut c: usize = 0;
            while c < 4
                invariant
                    0 <= c <= 4,
                    r < 4,
                    out@ == before + seq![wall_char()] + Seq::new(c as nat, |j: int| cell_char(cell(self.board, j, r as int))),
                decreases 4 - c,
            {
                let ghost mid = out@;
                out.append(cell_str(self.board[c][r]));
                assert(out@ =~= before + seq![wall_char()] + Seq::new((c + 1) as nat, |j: int| cell_char(cell(self.board, j, r as int))));
                c += 1;
            }
            out.append(wall_str());
            out.append(newline_str());
            assert(out@ =~= before + row_text(self.board, r as int));
            r += 1;
        }
        let ghost rows = out@;
        let mut k: usize = 0;
        while k < 6
            invariant
                0 <= k <= 6,
                out@ == rows + Seq::new(k as nat, |j: int| wall_char()),
            decreases 6 - k,
        {
            out.append(wall_str());
            assert(out@ =~= rows + Seq::new((k + 1) as nat, |j: int| wall_char()));
            k += 1;
        }
        out.append(newline_str());
        assert(out@ =~= rows + bottom_text());
        let ghost framed = out@;
        let status = status_str(self.get_state());
        out.append(status.as_str());
        assert(out@ =~= framed + status_text(state_of(self.board)));
        out
    }

    /// Drops `piece` into `column`, counted from 1 to 4 from the left: it lands on the lowest
    /// empty cell of the run of empty cells at the top. Returns false, leaving the board as it
    /// was, where the game has ended or the column is full.
    pub fn place(&mut self, piece: Piece, column: usize) -> (r: bool)
        requires
            1 <= column <= 4,
        ensures
            r == (state_of(old(self).board) == GameState::NotEnded && empty_from(
                old(self).board,
                column - 1,
                0,
            ) > 0),
            r ==> board_view(final(self).board) == board_view(old(self).board).update(
                column - 1,
                board_view(old(self).board)[column - 1].update(
                    empty_from(old(self).board, column - 1, 0) - 1,
                    Some(piece),
                ),
            ),
            !r ==> final(self).board == old(self).board,
    {
        match self.get_state() {
            GameState::NotEnded => {},
            _ => {
                return false;
            },
        }
        let index = column - 1;
        let mut row: usize = 0;
        while row < 4 && self.board[index][row].is_none()
            invariant
                index == column - 1,
                column - 1 < 4,
                0 <= row <= 4,
                empty_from(self.board, column - 1, 0) == empty_from(self.board, column - 1, row as int),
            decreases 4 - row,
        {
            row += 1;
        }
        if row == 0 {
            return false;
        }
        let ghost before = self.board;
        let mut col = self.board[index];
        col[row - 1] = Some(piece);
        self.board[index] = col;
        assert(board_view(self.board) =~= board_view(before).update(
            column - 1,
            board_view(before)[column - 1].update(row - 1, Some(piece)),
        ));
        true
    }
}

} // verus!

//! The board: a fixed sequence of 64 cells in row-major order, row 0 being
//! the notation's topmost rank and column 0 its leftmost file, so a square's
//! index is `row * 8 + column`. The board bulk-loads from the board field of
//! a position-notation string and exposes place/remove/move-apply over
//! indices.

use vstd::prelude::*;

use crate::cell::Cell;
use crate::error::Error;
use crate::moves::Move;
use crate::pieces::{decode_piece_char, is_piece_letter, piece_of_letter, Color, Piece};
use crate::text::{char_to_string, digit_val, is_digit_char, split_chars, split_vec, str_chars};

verus! {

#[derive(Debug)]
pub struct GameBoard {
    pub cells: Vec<Cell>,
}

/// 64 empty squares.
pub open spec fn empty_squares() -> Seq<Option<Piece>> {
    Seq::new(64, |i: int| Option::<Piece>::None)
}

/// The outcome of decoding a board field: the 64 square contents, or the
/// first character that is neither a piece letter nor a digit, or a write
/// that would leave the board.
pub enum FieldDecode {
    Board(Seq<Option<Piece>>),
    BadChar(char),
    OutOfBoard,
}

/// `b` with `n` empty squares written at `pos` onwards.
pub open spec fn write_empty(b: Seq<Option<Piece>>, pos: int, n: int) -> Seq<Option<Piece>>
    decreases n,
{
    if n <= 0 {
        b
    } else {
        write_empty(b.update(pos, Option::<Piece>::None), pos + 1, n - 1)
    }
}

/// The outcome of decoding one rank: the board with the rank's squares
/// written and the next write position, or one of the two failures.
pub enum RankDecode {
    Rank(Seq<Option<Piece>>, int),
    BadChar(char),
    OutOfBoard,
}

/// Decodes one rank's characters onto `b`, writing squares from `pos` on: a
/// piece letter writes that piece on one square, a digit `d` writes `d`
/// empty squares. A write outside the board stops with `OutOfBoard`; any
/// character that is neither a piece letter nor a digit stops with
/// `BadChar`.
pub open spec fn decode_rank(b: Seq<Option<Piece>>, r: Seq<char>, pos: int) -> RankDecode
    decreases r.len(),
{
    if r.len() == 0 {
        RankDecode::Rank(b, pos)
    } else if is_piece_letter(r[0]) {
        if 0 <= pos < 64 {
            decode_rank(b.update(pos, Some(piece_of_letter(r[0]))), r.skip(1), pos + 1)
        } else {
            RankDecode::OutOfBoard
        }
    } else if is_digit_char(r[0]) {
        let d = digit_val(r[0]);
        if d == 0 {
            decode_rank(b, r.skip(1), pos)
        } else if 0 <= pos && pos + d <= 64 {
            decode_rank(write_empty(b, pos, d), r.skip(1), pos + d)
        } else {
            RankDecode::OutOfBoard
        }
    } else {
        RankDecode::BadChar(r[0])
    }
}

/// Decodes the ranks from index `i` on, writing from square `pos` on: the
/// expanded ranks are concatenated in order and written sequentially, each
/// rank continuing where the previous one ended. No rank is checked to
/// expand to exactly eight squares: a wider or narrower rank silently shifts
/// all subsequent placements, as long as every write stays on the board.
pub open spec fn decode_ranks(
    b: Seq<Option<Piece>>,
    ranks: Seq<Seq<char>>,
    i: int,
    pos: int,
) -> FieldDecode
    decreases ranks.len() - i,
{
    if i < 0 || i >= ranks.len() {
        FieldDecode::Board(b)
    } else {
        match decode_rank(b, ranks[i], pos) {
            RankDecode::Rank(b2, pos2) => decode_ranks(b2, ranks, i + 1, pos2),
            RankDecode::BadChar(c) => FieldDecode::BadChar(c),
            RankDecode::OutOfBoard => FieldDecode::OutOfBoard,
        }
    }
}

/// The decoding of a whole board field: its `/`-separated ranks expanded,
/// concatenated in order and written onto an empty board from square 0.
pub open spec fn decode_field(field: Seq<char>) -> FieldDecode {
    decode_ranks(empty_squares(), split_chars(field, '/'), 0, 0)
}

/// One rendered cell: the piece's code between bars and blanks, or three
/// blanks between bars for an empty square.
pub open spec fn cell_text(sq: Option<Piece>) -> Seq<char> {
    match sq {
        Some(p) => seq!['|', ' ', crate::pieces::piece_letter(p), ' ', '|'],
        None => seq!['|', ' ', ' ', ' ', '|'],
    }
}

/// The separator line between rendered rows.
pub open spec fn border_text() -> Seq<char> {
    "-----------------------------------------"@
}

/// The rendered cells of one row, from column `col` to the right edge.
pub open spec fn row_cells_text(squares: Seq<Option<Piece>>, row: int, col: int) -> Seq<char>
    decreases 8 - col,
{
    if col < 0 || col >= 8 {
        Seq::<char>::empty()
    } else {
        cell_text(squares[8 * row + col]) + row_cells_text(squares, row, col + 1)
    }
}

/// One rendered row: a separator line, the eight cells, and a closing
/// separator line.
pub open spec fn row_text(squares: Seq<Option<Piece>>, row: int) -> Seq<char> {
    border_text() + seq!['\n'] + row_cells_text(squares, row, 0) + seq!['\n'] + border_text()
        + seq!['\n']
}

/// The rendered rows from `row` down.
pub open spec fn rows_text(squares: Seq<Option<Piece>>, row: int) -> Seq<char>
    decreases 8 - row,
{
    if row < 0 || row >= 8 {
        Seq::<char>::empty()
    } else {
        row_text(squares, row) + rows_text(squares, row + 1)
    }
}

/// The whole rendered board, eight rows from the top.
pub open spec fn board_text(squares: Seq<Option<Piece>>) -> Seq<char> {
    rows_text(squares, 0)
}

impl GameBoard {
    /// Well-formed: exactly 64 cells, each carrying its own index.
    pub open spec fn wf(&self) -> bool {
        &&& self.cells@.len() == 64
        &&& forall|i: int| 0 <= i < 64 ==> (#[trigger] self.cells@[i]).idx == i
    }

    /// The contents of the 64 squares, in index order.
    pub open spec fn squares(&self) -> Seq<Option<Piece>> {
        self.cells@.map_values(|c: Cell| c.piece)
    }

    /// A board of 64 empty cells, indices 0 to 63 in order.
    pub fn new() -> (b: GameBoard)
        ensures
            b.wf(),
            b.squares() == empty_squares(),
    {
        let mut cells: Vec<Cell> = Vec::new();
        let mut idx: usize = 0;
        while idx < 64
            invariant
                idx <= 64,
                cells@.len() == idx,
                forall|i: int|
                    0 <= i < idx ==> (#[trigger] cells@[i]) == (Cell {
                        idx: i as usize,
                        piece: Option::<Piece>::None,
                    }),
            decreases 64 - idx,
        {
            cells.push(Cell::new(idx, None));
            idx = idx + 1;
        }
        let b = GameBoard { cells };
        proof {
            assert(b.squares() =~= empty_squares());
        }
        b
    }

    /// Builds a board from the board field of a position notation, the
    /// ranks separated by `/`. The expanded ranks are concatenated in order
    /// and written sequentially from square 0; no rank is checked to be
    /// eight squares wide, so a wider or narrower rank silently shifts all
    /// subsequent placements. Any character that is neither a piece letter
    /// nor a digit fails with `InvalidPieceStr` carrying that character; an
    /// expansion that would overrun the board fails with `InvalidFen`
    /// carrying the whole field.
    pub fn build_board_from_fen(fen_slice: &str) -> (r: Result<GameBoard, Error>)
        ensures
            (match decode_field(fen_slice@) {
                FieldDecode::Board(sq) => r matches Ok(b) && b.wf() && b.squares() == sq,
                FieldDecode::BadChar(c) => r matches Err(Error::InvalidPieceStr(t)) && t@
                    == seq![c],
                FieldDecode::OutOfBoard => r matches Err(Error::InvalidFen(t)) && t@
                    == fen_slice@,
            }),
    {
        let chars = str_chars(fen_slice);
        let ranks = split_vec(&chars, '/');
        board_from_ranks(&ranks, fen_slice)
    }

    /// Places a piece on a cell. If the cell was occupied, the previous
    /// occupant is returned (capture semantics); the new piece is always
    /// placed.
    pub fn place_piece(&mut self, piece: Piece, idx: usize) -> (prev: Option<Piece>)
        requires
            old(self).wf(),
            idx < 64,
        ensures
            final(self).wf(),
            final(self).squares() == old(self).squares().update(idx as int, Some(piece)),
            prev == old(self).squares()[idx as int],
    {
        let mut cell: Cell = self.cells[idx];
        let mut p: Option<Piece> = None;
        if cell.is_occupied() {
            p = Some(cell.pop_piece().unwrap());
        }
        cell.place_piece(Some(piece));
        self.cells[idx] = cell;
        proof {
            assert(self.squares() =~= old(self).squares().update(idx as int, Some(piece)));
            assert(p == old(self).squares()[idx as int]);
        }
        p
    }

    /// Removes and returns the piece at a cell; fails with
    /// `PieceNotFoundAtCell` of that index, leaving the board unchanged, if
    /// the cell is empty.
    pub fn remove_piece(&mut self, idx: usize) -> (r: Result<Piece, Error>)
        requires
            old(self).wf(),
            idx < 64,
        ensures
            final(self).wf(),
            (match old(self).squares()[idx as int] {
                Some(p) => r == Ok::<Piece, Error>(p) && final(self).squares() == old(
                    self,
                ).squares().update(idx as int, Option::<Piece>::None),
                None => r == Err::<Piece, Error>(Error::PieceNotFoundAtCell(idx)) && *final(self)
                    == *old(self),
            }),
    {
        let mut cell: Cell = self.cells[idx];
        match cell.pop_piece() {
            Ok(p) => {
                self.cells[idx] = cell;
                proof {
                    assert(self.squares() =~= old(self).squares().update(
                        idx as int,
                        Option::<Piece>::None,
                    ));
                }
                Ok(p)
            },
            Err(e) => Err(e),
        }
    }

    /// Applies a coordinate move for the acting color: fails with
    /// `PieceNotFoundAtCell` if the origin is empty and with `InvalidMove`
    /// if the piece there is not the acting color's, leaving the board
    /// unchanged in both cases; otherwise moves the piece, discarding any
    /// occupant of the destination. No per-piece movement legality is
    /// checked.
    pub fn apply_move(&mut self, game_move: Move, curr_player: Color) -> (r: Result<(), Error>)
        requires
            old(self).wf(),
            game_move.from < 64,
            game_move.to < 64,
        ensures
            final(self).wf(),
            (match old(self).squares()[game_move.from as int] {
                None => r == Err::<(), Error>(Error::PieceNotFoundAtCell(game_move.from))
                    && *final(self) == *old(self),
                Some(p) => if p.color != curr_player {
                    r == Err::<(), Error>(Error::InvalidMove(game_move, curr_player, p.color))
                        && *final(self) == *old(self)
                } else {
                    r == Ok::<(), Error>(()) && final(self).squares() == old(
                        self,
                    ).squares().update(game_move.from as int, Option::<Piece>::None).update(
                        game_move.to as int,
                        Some(p),
                    )
                },
            }),
    {
        let p = match self.cells[game_move.from].piece {
            Some(p) => p.color(),
            None => {
                return Err(Error::PieceNotFoundAtCell(game_move.from));
            },
        };
        if p != curr_player {
            return Err(Error::InvalidMove(game_move, curr_player, p));
        }
        let piece = self.remove_piece(game_move.from).unwrap();
        self.place_piece(piece, game_move.to);
        Ok(())
    }

    /// Renders the board as a fixed-width text grid, eight cells per row
    /// between separator lines, each cell showing its piece code or blanks.
    /// For inspection and debugging only, not a protocol surface.
    pub fn render(&self) -> (s: String)
        requires
            self.wf(),
        ensures
            s@ == board_text(self.squares()),
    {
        proof {
            reveal_strlit("\n");
            reveal_strlit("| ");
            reveal_strlit(" |");
            reveal_strlit("|   |");
        }
        let ghost sq = self.squares();
        let mut s = String::new();
        let mut row: usize = 0;
        proof {
            assert(s@ + rows_text(sq, 0) =~= board_text(sq));
        }
        while row < 8
            invariant
                self.wf(),
                row <= 8,
                sq == self.squares(),
                s@ + rows_text(sq, row as int) == board_text(sq),
            decreases 8 - row,
        {
            let ghost tail = rows_text(sq, row as int + 1);
            s.append("-----------------------------------------");
            s.append("\n");
            proof {
                reveal_strlit("\n");
                assert(rows_text(sq, row as int) == row_text(sq, row as int) + tail);
                assert(s@ + (row_cells_text(sq, row as int, 0) + (seq!['\n'] + border_text()
                    + seq!['\n']) + tail) =~= board_text(sq));
            }
            let mut col: usize = 0;
            while col < 8
                invariant
                    self.wf(),
                    row < 8,
                    col <= 8,
                    sq == self.squares(),
                    s@ + (row_cells_text(sq, row as int, col as int) + (seq!['\n'] + border_text()
                        + seq!['\n']) + tail) == board_text(sq),
                    tail == rows_text(sq, row as int + 1),
                decreases 8 - col,
            {
                proof {
                    reveal_strlit("\n");
                    reveal_strlit("| ");
                    reveal_strlit(" |");
                    reveal_strlit("|   |");
                }
                let ghost s_before = s@;
                let idx: usize = 8 * row + col;
                match self.cells[idx].piece {
                    Some(p) => {
                        s.append("| ");
                        let code = p.to_string();
                        s.append(code.as_str());
                        s.append(" |");
                        proof {
                            assert(s@ =~= s_before + cell_text(sq[8 * (row as int) + col as int]));
                        }
                    },
                    None => {
                        s.append("|   |");
                        proof {
                            assert(s@ =~= s_before + cell_text(sq[8 * (row as int) + col as int]));
                        }
                    },
                }
                col = col + 1;
                proof {
                    assert(row_cells_text(sq, row as int, col - 1) == cell_text(
                        sq[8 * (row as int) + col - 1],
                    ) + row_cells_text(sq, row as int, col as int));
                    assert(s@ + (row_cells_text(sq, row as int, col as int) + (seq!['\n']
                        + border_text() + seq!['\n']) + tail) =~= board_text(sq));
                }
            }
            s.append("\n");
            s.append("-----------------------------------------");
            s.append("\n");
            row = row + 1;
            proof {
                reveal_strlit("\n");
                assert(row_cells_text(sq, row as int - 1, 8) =~= Seq::<char>::empty());
                assert(s@ + rows_text(sq, row as int) =~= board_text(sq));
            }
        }
        proof {
            assert(rows_text(sq, 8) =~= Seq::<char>::empty());
            assert(s@ =~= board_text(sq));
        }
        s
    }
}

/// Decodes already-split ranks onto a fresh board; `source` is the text an
/// `InvalidFen` failure carries.
pub(crate) fn board_from_ranks(ranks: &Vec<Vec<char>>, source: &str) -> (r: Result<
    GameBoard,
    Error,
>)
    ensures
        (match decode_ranks(empty_squares(), ranks@.map_values(|p: Vec<char>| p@), 0, 0) {
            FieldDecode::Board(sq) => r matches Ok(b) && b.wf() && b.squares() == sq,
            FieldDecode::BadChar(c) => r matches Err(Error::InvalidPieceStr(t)) && t@ == seq![c],
            FieldDecode::OutOfBoard => r matches Err(Error::InvalidFen(t)) && t@ == source@,
        }),
{
    let ghost rs = ranks@.map_values(|p: Vec<char>| p@);
    let mut board = GameBoard::new();
    let mut pos: usize = 0;
    let mut i: usize = 0;
    while i < ranks.len()
        invariant
            i <= ranks@.len(),
            rs == ranks@.map_values(|p: Vec<char>| p@),
            board.wf(),
            pos <= 64,
            decode_ranks(empty_squares(), rs, 0, 0) == decode_ranks(
                board.squares(),
                rs,
                i as int,
                pos as int,
            ),
        decreases ranks@.len() - i,
    {
        let rank: &Vec<char> = &ranks[i];
        assert(rank@ == rs[i as int]);
        let ghost b_start = board.squares();
        let ghost pos_start = pos as int;
        proof {
            assert(rank@.skip(0) =~= rank@);
        }
        let mut j: usize = 0;
        while j < rank.len()
            invariant
                j <= rank@.len(),
                board.wf(),
                pos <= 64,
                decode_rank(b_start, rank@, pos_start) == decode_rank(
                    board.squares(),
                    rank@.skip(j as int),
                    pos as int,
                ),
                rank@ == rs[i as int],
                i < ranks@.len(),
                rs == ranks@.map_values(|p: Vec<char>| p@),
                decode_ranks(empty_squares(), rs, 0, 0) == decode_ranks(
                    b_start,
                    rs,
                    i as int,
                    pos_start,
                ),
            decreases rank@.len() - j,
        {
            let c = rank[j];
            proof {
                assert(rank@.skip(j as int)[0] == rank@[j as int]);
                assert(rank@.skip(j as int).skip(1) =~= rank@.skip(j as int + 1));
            }
            let ghost b_now = board.squares();
            match decode_piece_char(c) {
                Some(p) => {
                    if pos < 64 {
                        board.cells[pos] = Cell::new(pos, Some(p));
                        proof {
                            assert(board.squares() =~= b_now.update(
                                pos as int,
                                Some(piece_of_letter(c)),
                            ));
                        }
                        pos = pos + 1;
                        j = j + 1;
                    } else {
                        return Err(Error::InvalidFen(source.to_owned()));
                    }
                },
                None => {
                    let u: u32 = c as u32;
                    if 48 <= u && u <= 57 {
                        let d: usize = (u - 48) as usize;
                        assert(d == digit_val(c));
                        if d == 0 {
                            j = j + 1;
                        } else if pos + d <= 64 {
                            let ghost dd = d as int;
                            let ghost pe = pos as int;
                            let mut k: usize = 0;
                            while k < d
                                invariant
                                    k <= d,
                                    board.wf(),
                                    pos + d <= 64,
                                    pe == pos,
                                    write_empty(b_now, pe, dd) == write_empty(
                                        board.squares(),
                                        pe + k,
                                        dd - k,
                                    ),
                                    dd == d,
                                decreases d - k,
                            {
                                let ghost b_mid = board.squares();
                                board.cells[pos + k] = Cell::new(pos + k, None);
                                proof {
                                    assert(board.squares() =~= b_mid.update(
                                        pe + k,
                                        Option::<Piece>::None,
                                    ));
                                }
                                k = k + 1;
                            }
                            pos = pos + d;
                            j = j + 1;
                        } else {
                            return Err(Error::InvalidFen(source.to_owned()));
                        }
                    } else {
                        return Err(Error::InvalidPieceStr(char_to_string(c)));
                    }
                },
            }
        }
        proof {
            assert(rank@.skip(rank@.len() as int) =~= Seq::<char>::empty());
        }
        i = i + 1;
    }
    Ok(board)
}

} // verus!

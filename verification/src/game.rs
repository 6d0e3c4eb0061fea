//! The position orchestrator: owns the board, the two players, the side to
//! move and the move history; validates the loaded notation string and
//! enforces turn alternation.
//!
//! The side to move is tracked as a `Color` tagging one of the two stored
//! players, so the turn state is a plain copyable value.

use vstd::prelude::*;

use crate::board::{decode_field, FieldDecode, GameBoard};
use crate::cell::Cell;
use crate::error::Error;
use crate::moves::{is_move_text, square_index, Move};
use crate::pieces::{opposite, Color, Piece, PieceType};
use crate::player::Player;
use crate::text::{contains_char, split_chars, split_vec, str_chars};

verus! {

#[derive(Debug)]
pub struct Game {
    pub board: GameBoard,
    pub fen_str: String,
    pub current_color: Color,
    pub white_player: Player,
    pub black_player: Player,
    pub move_history: Vec<Move>,
}

/// The six fields of a notation string: the pieces of the text between
/// single space characters.
pub open spec fn fen_fields(s: Seq<char>) -> Seq<Seq<char>> {
    split_chars(s, ' ')
}

/// The structural shape a notation string must have: exactly six
/// space-separated fields, a board field with exactly seven `/` separators,
/// and a board field that does not start with `/`.
pub open spec fn fen_structure_ok(s: Seq<char>) -> bool {
    let fields = fen_fields(s);
    &&& fields.len() == 6
    &&& split_chars(fields[0], '/').len() == 8
    &&& !(fields[0].len() > 0 && fields[0][0] == '/')
}

/// The active-color field must be exactly `w` or `b`.
pub open spec fn color_token_ok(t: Seq<char>) -> bool {
    t == seq!['w'] || t == seq!['b']
}

/// The side the active-color field names.
pub open spec fn active_color(t: Seq<char>) -> Color {
    if t == seq!['w'] {
        Color::White
    } else {
        Color::Black
    }
}

/// A notation string `load` accepts: well-shaped, with a board field that
/// decodes and a recognized active-color token.
pub open spec fn loadable(s: Seq<char>) -> bool {
    &&& fen_structure_ok(s)
    &&& decode_field(fen_fields(s)[0]) is Board
    &&& color_token_ok(fen_fields(s)[1])
}

/// Checks the structural shape of a notation string: exactly six
/// space-separated fields, a board field with exactly seven `/` separators
/// that does not start with `/`.
pub fn is_valid_fen(fen_str: &str) -> (b: bool)
    ensures
        b == fen_structure_ok(fen_str@),
{
    let chars = str_chars(fen_str);
    let fields = split_vec(&chars, ' ');
    proof {
        assert(fields@.map_values(|p: Vec<char>| p@).len() == fields@.len());
    }
    if fields.len() != 6 {
        return false;
    }
    let first = &fields[0];
    proof {
        assert(first@ == fen_fields(fen_str@)[0]);
    }
    let ranks = split_vec(first, '/');
    proof {
        assert(ranks@.map_values(|p: Vec<char>| p@).len() == ranks@.len());
    }
    if ranks.len() != 8 {
        return false;
    }
    if first.len() > 0 && first[0] == '/' {
        return false;
    }
    true
}

/// The kind of piece on a back-rank square: rooks in the corners, then
/// knights, then bishops, the queen on column 3 and the king on column 4.
pub open spec fn starting_piece_type(col: int) -> PieceType {
    if col == 0 || col == 7 {
        PieceType::Rook
    } else if col == 1 || col == 6 {
        PieceType::Knight
    } else if col == 2 || col == 5 {
        PieceType::Bishop
    } else if col == 3 {
        PieceType::Queen
    } else {
        PieceType::King
    }
}

/// The content of square `i` in the standard starting position: black's
/// back rank on row 0, pawns on rows 1 and 6, white's back rank on row 7.
pub open spec fn starting_square(i: int) -> Option<Piece> {
    let row: int = i / 8;
    let col: int = i % 8;
    if row == 0 {
        Some(Piece { color: Color::Black, piece_type: starting_piece_type(col) })
    } else if row == 1 {
        Some(Piece { color: Color::Black, piece_type: PieceType::Pawn })
    } else if row == 6 {
        Some(Piece { color: Color::White, piece_type: PieceType::Pawn })
    } else if row == 7 {
        Some(Piece { color: Color::White, piece_type: starting_piece_type(col) })
    } else {
        None
    }
}

/// The 64 squares of the standard starting position.
pub open spec fn starting_squares() -> Seq<Option<Piece>> {
    Seq::new(64, |i: int| starting_square(i))
}

fn starting_piece(i: usize) -> (r: Option<Piece>)
    requires
        i < 64,
    ensures
        r == starting_square(i as int),
{
    let row: usize = i / 8;
    let col: usize = i % 8;
    let kind = if col == 0 || col == 7 {
        PieceType::Rook
    } else if col == 1 || col == 6 {
        PieceType::Knight
    } else if col == 2 || col == 5 {
        PieceType::Bishop
    } else if col == 3 {
        PieceType::Queen
    } else {
        PieceType::King
    };
    if row == 0 {
        Some(Piece::new(kind, Color::Black))
    } else if row == 1 {
        Some(Piece::new(PieceType::Pawn, Color::Black))
    } else if row == 6 {
        Some(Piece::new(PieceType::Pawn, Color::White))
    } else if row == 7 {
        Some(Piece::new(kind, Color::White))
    } else {
        None
    }
}

/// Law: the side to move alternates: one flip always changes the color, and
/// flipping twice returns to the starting side.
pub proof fn lemma_turn_alternation(c: Color)
    ensures
        opposite(c) != c,
        opposite(opposite(c)) == c,
{
}

impl Game {
    /// Well-formed: the board is well-formed and each player slot holds its
    /// own color.
    pub open spec fn wf(&self) -> bool {
        &&& self.board.wf()
        &&& self.white_player.color == Color::White
        &&& self.black_player.color == Color::Black
    }

    /// A new game in the standard starting position, with white to move,
    /// full castling rights and an empty history. The stored notation string
    /// is the standard starting-position notation.
    pub fn new() -> (g: Game)
        ensures
            g.wf(),
            g.board.squares() == starting_squares(),
            g.fen_str@ == "rnbqkbnr/pppppppp/8/8/8/8/PPPPPPPP/RNBQKBNR w KQkq - 0 1"@,
            g.current_color == Color::White,
            g.white_player == (Player { color: Color::White, castle: (true, true) }),
            g.black_player == (Player { color: Color::Black, castle: (true, true) }),
            g.move_history@ == Seq::<Move>::empty(),
    {
        let mut cells: Vec<Cell> = Vec::new();
        let mut idx: usize = 0;
        while idx < 64
            invariant
                idx <= 64,
                cells@.len() == idx,
                forall|i: int|
                    0 <= i < idx ==> (#[trigger] cells@[i]) == (Cell {
                        idx: i as usize,
                        piece: starting_square(i),
                    }),
            decreases 64 - idx,
        {
            cells.push(Cell::new(idx, starting_piece(idx)));
            idx = idx + 1;
        }
        let board = GameBoard { cells };
        proof {
            assert(board.squares() =~= starting_squares());
        }
        Game {
            board,
            fen_str: "rnbqkbnr/pppppppp/8/8/8/8/PPPPPPPP/RNBQKBNR w KQkq - 0 1".to_owned(),
            current_color: Color::White,
            white_player: Player::white(),
            black_player: Player::black(),
            move_history: Vec::new(),
        }
    }

    /// Loads a position from a notation string. A malformed shape or an
    /// unrecognized active-color token fails with `InvalidFen` carrying the
    /// whole text; a board field that does not decode fails as
    /// `build_board_from_fen` does, an expansion that would overrun the
    /// board carrying the whole text. On success the board holds the
    /// decoded squares, the side to
    /// move comes from the active-color field, each player's castling flags
    /// (kingside, queenside) come from the castling field (`K`/`Q` for
    /// white, `k`/`q` for black), the given text is stored verbatim and the
    /// history is empty.
    pub fn load(fen_str: String) -> (r: Result<Game, Error>)
        ensures
            ({
                let s = fen_str@;
                let fields = fen_fields(s);
                if !fen_structure_ok(s) {
                    r matches Err(Error::InvalidFen(t)) && t@ == s
                } else {
                    match decode_field(fields[0]) {
                        FieldDecode::BadChar(c) => r matches Err(Error::InvalidPieceStr(t)) && t@
                            == seq![c],
                        FieldDecode::OutOfBoard => r matches Err(Error::InvalidFen(t)) && t@ == s,
                        FieldDecode::Board(sq) => if !color_token_ok(fields[1]) {
                            r matches Err(Error::InvalidFen(t)) && t@ == s
                        } else {
                            r matches Ok(g) && g.wf() && g.board.squares() == sq && g.fen_str@ == s
                                && g.current_color == active_color(fields[1]) && g.white_player
                                == (Player {
                                color: Color::White,
                                castle: (fields[2].contains('K'), fields[2].contains('Q')),
                            }) && g.black_player == (Player {
                                color: Color::Black,
                                castle: (fields[2].contains('k'), fields[2].contains('q')),
                            }) && g.move_history@ == Seq::<Move>::empty()
                        },
                    }
                }
            }),
    {
        if !is_valid_fen(fen_str.as_str()) {
            return Err(Error::InvalidFen(fen_str));
        }
        let chars = str_chars(fen_str.as_str());
        let fields = split_vec(&chars, ' ');
        proof {
            assert(fields@.map_values(|p: Vec<char>| p@).len() == fields@.len());
            assert(fields@[0]@ == fen_fields(fen_str@)[0]);
            assert(fields@[1]@ == fen_fields(fen_str@)[1]);
            assert(fields@[2]@ == fen_fields(fen_str@)[2]);
        }
        let ranks = split_vec(&fields[0], '/');
        let board = match crate::board::board_from_ranks(&ranks, fen_str.as_str()) {
            Ok(b) => b,
            Err(e) => {
                return Err(e);
            },
        };
        let ctok = &fields[1];
        let current_color: Color;
        if ctok.len() == 1 && ctok[0] == 'w' {
            proof {
                assert(ctok@ =~= seq!['w']);
            }
            current_color = Color::White;
        } else if ctok.len() == 1 && ctok[0] == 'b' {
            proof {
                assert(ctok@ =~= seq!['b']);
            }
            current_color = Color::Black;
        } else {
            proof {
                assert(ctok@ != seq!['w'] && ctok@ != seq!['b']) by {
                    if ctok@ == seq!['w'] {
                        assert(ctok@.len() == 1 && ctok@[0] == 'w');
                    }
                    if ctok@ == seq!['b'] {
                        assert(ctok@.len() == 1 && ctok@[0] == 'b');
                    }
                }
            }
            return Err(Error::InvalidFen(fen_str));
        }
        let castle = &fields[2];
        let mut white_player = Player::white();
        let mut black_player = Player::black();
        white_player.set_castle_prev((contains_char(castle, 'K'), contains_char(castle, 'Q')));
        black_player.set_castle_prev((contains_char(castle, 'k'), contains_char(castle, 'q')));
        Ok(
            Game {
                board,
                fen_str,
                current_color,
                white_player,
                black_player,
                move_history: Vec::new(),
            },
        )
    }

    /// A game loaded from the given notation text. This is the
    /// construct-or-halt convenience form: the text must be loadable, so the
    /// recoverable failures of `load` are traded for a precondition.
    pub fn from(fen: &str) -> (g: Game)
        requires
            loadable(fen@),
        ensures
            g.wf(),
            g.fen_str@ == fen@,
            decode_field(fen_fields(fen@)[0]) matches FieldDecode::Board(sq) && g.board.squares()
                == sq,
            g.current_color == active_color(fen_fields(fen@)[1]),
            g.white_player == (Player {
                color: Color::White,
                castle: (fen_fields(fen@)[2].contains('K'), fen_fields(fen@)[2].contains('Q')),
            }),
            g.black_player == (Player {
                color: Color::Black,
                castle: (fen_fields(fen@)[2].contains('k'), fen_fields(fen@)[2].contains('q')),
            }),
            g.move_history@ == Seq::<Move>::empty(),
    {
        match Self::load(fen.to_owned()) {
            Ok(g) => g,
            Err(_) => unreached(),
        }
    }

    fn switch_player(&mut self)
        ensures
            *final(self) == (Game { current_color: opposite(old(self).current_color), ..*old(self) }),
    {
        self.current_color = match self.current_color {
            Color::Black => Color::White,
            Color::White => Color::Black,
        };
    }

    /// Applies one coordinate move for the side to move: parses the text
    /// (failing with `InvalidMoveStr`), applies it to the board under the
    /// current color (failing as `apply_move` does), and on success flips
    /// the side to move and appends the move to the history. A failed call
    /// leaves the whole position unchanged.
    pub fn update(&mut self, move_code: &str) -> (r: Result<(), Error>)
        requires
            old(self).wf(),
        ensures
            final(self).wf(),
            final(self).fen_str == old(self).fen_str,
            final(self).white_player == old(self).white_player,
            final(self).black_player == old(self).black_player,
            ({
                if !is_move_text(move_code@) {
                    (r matches Err(Error::InvalidMoveStr(t)) && t@ == move_code@) && *final(self)
                        == *old(self)
                } else {
                    let m = Move {
                        from: square_index(move_code@[0], move_code@[1]) as usize,
                        to: square_index(move_code@[2], move_code@[3]) as usize,
                    };
                    match old(self).board.squares()[m.from as int] {
                        None => r == Err::<(), Error>(Error::PieceNotFoundAtCell(m.from))
                            && *final(self) == *old(self),
                        Some(p) => if p.color != old(self).current_color {
                            r == Err::<(), Error>(
                                Error::InvalidMove(m, old(self).current_color, p.color),
                            ) && *final(self) == *old(self)
                        } else {
                            r == Ok::<(), Error>(()) && final(self).board.squares()
                                == old(self).board.squares().update(
                                m.from as int,
                                Option::<Piece>::None,
                            ).update(m.to as int, Some(p))
                                && final(self).current_color == opposite(old(self).current_color)
                                && final(self).move_history@ == old(self).move_history@.push(m)
                        },
                    }
                }
            }),
    {
        let game_move = match Move::from_str(move_code) {
            Ok(m) => m,
            Err(e) => {
                return Err(e);
            },
        };
        match self.board.apply_move(game_move, self.current_color) {
            Ok(()) => {},
            Err(e) => {
                return Err(e);
            },
        }
        self.switch_player();
        self.move_history.push(game_move);
        Ok(())
    }

    /// The notation string this position was loaded from, verbatim. It is
    /// captured at load time and deliberately not recomputed: applied moves
    /// do not change it.
    pub fn get_fen(&self) -> (s: &str)
        ensures
            s@ == self.fen_str@,
    {
        self.fen_str.as_str()
    }

    /// The player whose turn it is.
    pub fn current_player(&self) -> (p: &Player)
        ensures
            *p == if self.current_color is White {
                self.white_player
            } else {
                self.black_player
            },
    {
        match self.current_color {
            Color::White => &self.white_player,
            Color::Black => &self.black_player,
        }
    }
}

} // verus!

use chess_lib_rs::board::GameBoard;
use chess_lib_rs::error::Error;
use chess_lib_rs::game::{is_valid_fen, Game};
use chess_lib_rs::moves::Move;
use chess_lib_rs::pieces::{Color, Piece, PieceType};

const START: &str = "rnbqkbnr/pppppppp/8/8/8/8/PPPPPPPP/RNBQKBNR w KQkq - 0 1";

fn squares(board: &GameBoard) -> Vec<Option<Piece>> {
    board.cells.iter().map(|c| c.piece).collect()
}

#[test]
fn board_from_notation_has_64_cells() {
    let board = GameBoard::build_board_from_fen("8/8/8/8/8/8/8/8").unwrap();
    assert_eq!(board.cells.len(), 64);
    assert!(board.cells.iter().all(|c| c.piece.is_none()));

    let board = GameBoard::build_board_from_fen("rnbqkbnr/pppppppp/8/8/8/8/PPPPPPPP/RNBQKBNR")
        .unwrap();
    assert_eq!(board.cells.len(), 64);
}

#[test]
fn default_game_matches_loaded_default_notation() {
    let fresh = Game::new();
    let loaded = Game::from(START);
    assert_eq!(squares(&fresh.board), squares(&loaded.board));
    assert_eq!(fresh.current_player().color, loaded.current_player().color);
    assert_eq!(fresh.white_player, loaded.white_player);
    assert_eq!(fresh.black_player, loaded.black_player);
}

#[test]
fn place_on_empty_cell_returns_none() {
    let mut board = GameBoard::new();
    assert!(board
        .place_piece(Piece::new(PieceType::Queen, Color::White), 42)
        .is_none());
    assert_eq!(
        board.cells[42].piece,
        Some(Piece::new(PieceType::Queen, Color::White))
    );
}

#[test]
fn remove_from_empty_cell_names_the_cell() {
    let mut board = GameBoard::new();
    let err = board.remove_piece(17).unwrap_err();
    assert!(matches!(err, Error::PieceNotFoundAtCell(17)));
}

#[test]
fn apply_move_rejects_empty_origin_and_leaves_board_unchanged() {
    let mut game = Game::new();
    let before = squares(&game.board);
    // e4 is empty in the starting position.
    let err = game.update("e4e5").unwrap_err();
    assert!(matches!(err, Error::PieceNotFoundAtCell(36)));
    assert_eq!(before, squares(&game.board));
    assert_eq!(game.current_player().color, Color::White);
    assert_eq!(game.move_history.len(), 0);
}

#[test]
fn apply_move_rejects_other_color_and_leaves_board_unchanged() {
    let mut game = Game::new();
    let before = squares(&game.board);
    // a7 holds a black pawn, but white is to move.
    let err = game.update("a7a6").unwrap_err();
    match err {
        Error::InvalidMove(m, acting, actual) => {
            assert_eq!(m, Move::new(8, 16));
            assert_eq!(acting, Color::White);
            assert_eq!(actual, Color::Black);
        }
        other => panic!("expected InvalidMove, got {:?}", other),
    }
    assert_eq!(before, squares(&game.board));
    assert_eq!(game.current_player().color, Color::White);
}

#[test]
fn turn_alternates_after_successful_updates() {
    let mut game = Game::new();
    assert_eq!(game.current_player().color, Color::White);
    game.update("a2a3").unwrap();
    assert_eq!(game.current_player().color, Color::Black);
    game.update("a7a6").unwrap();
    assert_eq!(game.current_player().color, Color::White);
    assert_eq!(game.move_history.len(), 2);
}

#[test]
fn capture_discards_the_occupant() {
    let mut game = Game::from("8/8/8/8/8/8/r7/R7 w - - 0 1");
    // The white rook on a1 (index 56) takes the black rook on a2 (index 48).
    game.update("a1a2").unwrap();
    assert_eq!(
        game.board.cells[48].piece,
        Some(Piece::new(PieceType::Rook, Color::White))
    );
    assert!(game.board.cells[56].piece.is_none());
}

#[test]
fn piece_codes_round_trip_for_all_twelve_pieces() {
    let kinds = [
        PieceType::King,
        PieceType::Queen,
        PieceType::Bishop,
        PieceType::Knight,
        PieceType::Rook,
        PieceType::Pawn,
    ];
    for kind in kinds {
        for color in [Color::White, Color::Black] {
            let piece = Piece::new(kind, color);
            let code = piece.to_string();
            assert_eq!(Piece::from_str(code.as_str()).unwrap(), piece);
        }
    }
}

#[test]
fn unknown_piece_letter_is_rejected() {
    let err = Piece::from_str("x").unwrap_err();
    match err {
        Error::InvalidPieceStr(t) => assert_eq!(t, "x"),
        other => panic!("expected InvalidPieceStr, got {:?}", other),
    }
    assert!(Piece::from_str("").is_err());
    assert!(Piece::from_str("pp").is_err());
}

#[test]
fn bad_board_character_is_rejected_with_that_character() {
    let err = GameBoard::build_board_from_fen("7x/8/8/8/8/8/8/8").unwrap_err();
    match err {
        Error::InvalidPieceStr(t) => assert_eq!(t, "x"),
        other => panic!("expected InvalidPieceStr, got {:?}", other),
    }
}

#[test]
fn narrow_rank_shifts_subsequent_placements() {
    // The expanded ranks are concatenated and written sequentially: a rank
    // only one square wide shifts the next rank's pieces, it does not leave
    // a hole.
    let board = GameBoard::build_board_from_fen("K/Q").unwrap();
    assert_eq!(
        board.cells[0].piece,
        Some(Piece::new(PieceType::King, Color::White))
    );
    assert_eq!(
        board.cells[1].piece,
        Some(Piece::new(PieceType::Queen, Color::White))
    );
    assert!(board.cells.iter().skip(2).all(|c| c.piece.is_none()));
}

#[test]
fn wide_rank_shifts_subsequent_placements() {
    // A nine-square first rank pushes the next rank's piece to square 9.
    let board = GameBoard::build_board_from_fen("9/R").unwrap();
    assert!(board.cells[8].piece.is_none());
    assert_eq!(
        board.cells[9].piece,
        Some(Piece::new(PieceType::Rook, Color::White))
    );
}

#[test]
fn overrunning_rank_is_rejected() {
    let err = GameBoard::build_board_from_fen("8/8/8/8/8/8/8/9").unwrap_err();
    match err {
        Error::InvalidFen(t) => assert_eq!(t, "8/8/8/8/8/8/8/9"),
        other => panic!("expected InvalidFen, got {:?}", other),
    }
}

#[test]
fn load_rejects_wrong_field_count() {
    // Five fields.
    assert!(!is_valid_fen("rnbqkbnr/pppppppp/8/8/8/8/PPPPPPPP/RNBQKBNR w KQkq - 0"));
    // Seven fields.
    assert!(!is_valid_fen(
        "rnbqkbnr/pppppppp/8/8/8/8/PPPPPPPP/RNBQKBNR w KQkq - 0 1 extra"
    ));
    let err = Game::load("rnbqkbnr/pppppppp/8/8/8/8/PPPPPPPP/RNBQKBNR w KQkq - 0".to_string())
        .unwrap_err();
    assert!(matches!(err, Error::InvalidFen(_)));
}

#[test]
fn load_rejects_wrong_separator_count() {
    // Six separators.
    assert!(!is_valid_fen("rnbqkbnr/pppppppp/8/8/8/8/RNBQKBNR w KQkq - 0 1"));
    // Eight separators.
    assert!(!is_valid_fen("rnbqkbnr/pppppppp/8/8/8/8/8/PPPPPPPP/RNBQKBNR w KQkq - 0 1"));
    // Board field starting with the separator.
    assert!(!is_valid_fen("/rnbqkbnr/pppppppp/8/8/8/8/PPPPPPPP w KQkq - 0 1"));
    assert!(Game::load("8/8/8/8/8/8/8 w KQkq - 0 1".to_string()).is_err());
}

#[test]
fn load_rejects_unknown_color_token() {
    let err = Game::load("8/8/8/8/8/8/8/8 x KQkq - 0 1".to_string()).unwrap_err();
    match err {
        Error::InvalidFen(t) => assert_eq!(t, "8/8/8/8/8/8/8/8 x KQkq - 0 1"),
        other => panic!("expected InvalidFen, got {:?}", other),
    }
}

#[test]
fn load_assigns_castling_flags_per_color() {
    let game = Game::from("8/8/8/8/8/8/8/8 w Kq - 0 1");
    assert_eq!(game.white_player.castle, (true, false));
    assert_eq!(game.black_player.castle, (false, true));
    let bare = Game::from("8/8/8/8/8/8/8/8 b - - 0 1");
    assert_eq!(bare.white_player.castle, (false, false));
    assert_eq!(bare.black_player.castle, (false, false));
}

#[test]
fn bad_move_text_is_rejected_and_state_kept() {
    let mut game = Game::new();
    for text in ["", "a8", "a8b", "a8b88", "i8b8", "a9b8", "a0b8", "8ab8", "e2 e4"] {
        let err = game.update(text).unwrap_err();
        match err {
            Error::InvalidMoveStr(t) => assert_eq!(t, text),
            other => panic!("expected InvalidMoveStr, got {:?}", other),
        }
    }
    assert_eq!(game.current_player().color, Color::White);
    assert_eq!(game.move_history.len(), 0);
}

#[test]
fn move_files_are_case_insensitive() {
    assert_eq!(Move::from_str("A8B8").unwrap(), Move::new(0, 1));
    assert_eq!(Move::from_str("E2E4").unwrap(), Move::from_str("e2e4").unwrap());
}

#[test]
fn notation_string_is_the_load_time_one() {
    let mut game = Game::new();
    game.update("e2e4").unwrap();
    // The stored notation is captured at load time and not recomputed.
    assert_eq!(game.get_fen(), START);
}

#[test]
fn render_shows_the_grid() {
    let border = "-".repeat(41);
    let mut expected = String::new();
    for _ in 0..8 {
        expected += &border;
        expected += "\n";
        for _ in 0..8 {
            expected += "|   |";
        }
        expected += "\n";
        expected += &border;
        expected += "\n";
    }
    assert_eq!(GameBoard::new().render(), expected);

    let mut board = GameBoard::new();
    board.place_piece(Piece::new(PieceType::King, Color::White), 0);
    let rendered = board.render();
    assert!(rendered.starts_with(&format!("{}\n| K ||   |", border)));
}

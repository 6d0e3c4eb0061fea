use chess_lib_rs::board::GameBoard;
use chess_lib_rs::cell::Cell;
use chess_lib_rs::pieces::{Color, Piece, PieceType};

#[test]
fn test_board_creation() {
    let test_board = GameBoard::new();

    assert_eq!(test_board.cells.len(), 64);
}

#[test]
fn test_correct_assignment() {
    let test_board = GameBoard::new();
    assert!(test_board.cells.get(0).is_some());
    assert_eq!(test_board.cells.get(0).unwrap().idx, 0);
    assert_eq!(test_board.cells.get(16).unwrap().idx, 16);
    assert_eq!(test_board.cells.get(63).unwrap().idx, 63);
    assert!(test_board.cells.get(64).is_none());
}

#[test]
fn test_placing_piece() {
    let mut board = GameBoard::new();
    let p_1 = board.place_piece(Piece::new(PieceType::King, Color::Black), 10);
    assert!(p_1.is_none());

    // Test placing
    let cell = &board.cells[10];
    assert!(cell.piece.is_some());
    assert_eq!(cell.piece.unwrap().piece_type(), PieceType::King);
    assert_eq!(cell.piece.unwrap().color(), Color::Black);

    // Testing placing with replacements
    let p_2 = board.place_piece(Piece::new(PieceType::Bishop, Color::Black), 10);
    assert!(p_2.is_some());
    assert_eq!(p_2.unwrap().piece_type(), PieceType::King);
    assert_eq!(p_2.unwrap().color(), Color::Black);
}

#[test]
fn test_removing_piece() {
    let mut board = GameBoard::new();
    board.cells[10] = Cell::new(10, Some(Piece::new(PieceType::King, Color::Black)));
    assert!(board.cells[11].piece.is_none());
    assert!(board.remove_piece(11).is_err());
    let piece = board.remove_piece(10);
    assert!(piece.is_ok());
    let piece = piece.unwrap();
    assert_eq!(piece.piece_type(), PieceType::King);
    assert_eq!(piece.color(), Color::Black);

    let cell = &board.cells[10];
    assert!(cell.piece.is_none());
}

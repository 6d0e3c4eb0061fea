use chess_lib_rs::pieces::{Color, Piece, PieceType};

#[test]
fn test_piece_display() {
    assert_eq!(Piece::new(PieceType::Pawn, Color::Black).to_string(), "p");
    assert_eq!(Piece::new(PieceType::Pawn, Color::White).to_string(), "P");
    assert_eq!(Piece::new(PieceType::Knight, Color::White).to_string(), "N");
    assert_eq!(Piece::new(PieceType::King, Color::Black).to_string(), "k");

    assert_ne!(Piece::new(PieceType::Bishop, Color::White).to_string(), "P");
    assert_ne!(Piece::new(PieceType::Rook, Color::White).to_string(), "N");
    assert_ne!(Piece::new(PieceType::King, Color::White).to_string(), "k");
    assert_ne!(Piece::new(PieceType::Queen, Color::Black).to_string(), "k");
}

#[test]
fn test_from_str() {
    assert_eq!(Piece::from_str("p").unwrap(), Piece::new(PieceType::Pawn, Color::Black));
    assert_eq!(Piece::from_str("P").unwrap(), Piece::new(PieceType::Pawn, Color::White));
    assert_eq!(Piece::from_str("k").unwrap(), Piece::new(PieceType::King, Color::Black));
    assert_eq!(Piece::from_str("K").unwrap(), Piece::new(PieceType::King, Color::White));
    assert_eq!(Piece::from_str("q").unwrap(), Piece::new(PieceType::Queen, Color::Black));
    assert_eq!(Piece::from_str("Q").unwrap(), Piece::new(PieceType::Queen, Color::White));
    assert_eq!(Piece::from_str("n").unwrap(), Piece::new(PieceType::Knight, Color::Black));
    assert_eq!(Piece::from_str("N").unwrap(), Piece::new(PieceType::Knight, Color::White));
    assert_eq!(Piece::from_str("r").unwrap(), Piece::new(PieceType::Rook, Color::Black));
    assert_eq!(Piece::from_str("R").unwrap(), Piece::new(PieceType::Rook, Color::White));
    assert_eq!(Piece::from_str("b").unwrap(), Piece::new(PieceType::Bishop, Color::Black));
    assert_eq!(Piece::from_str("B").unwrap(), Piece::new(PieceType::Bishop, Color::White));
}

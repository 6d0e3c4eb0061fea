//! A minimal authoritative chess-position tracker.
//!
//! The crate holds a board of 64 squares, loads a position from a
//! position-notation string, enforces turn alternation and ownership of the
//! moved piece, and exposes a coordinate-move interface to mutate the
//! position. It is a foundation for a GUI, trainer or engine to build on,
//! not a playable rules engine: per-piece movement legality, check detection,
//! en passant, promotion and castling moves are out of scope.

pub mod board;
pub mod cell;
pub mod error;
pub mod game;
pub mod moves;
pub mod pieces;
pub mod player;
pub mod text;

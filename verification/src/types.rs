//! The plain data model shared by the whole library: colors, pieces, moves,
//! scores, and terminal game outcomes.

use vstd::prelude::*;

verus! {

/// A position score from one side's point of view, in centipawns.
pub type Score = i32;

/// The side a piece or player belongs to.
#[derive(Clone, Copy, PartialEq, Eq, Structural, Debug)]
pub enum Color {
    White,
    Black,
}

/// The other side.
pub open spec fn opponent(c: Color) -> Color {
    match c {
        Color::White => Color::Black,
        Color::Black => Color::White,
    }
}

impl Color {
    /// The other side.
    pub fn other(self) -> (r: Color)
        ensures
            r == opponent(self),
    {
        match self {
            Color::White => Color::Black,
            Color::Black => Color::White,
        }
    }
}

/// A kind of chess piece.
#[derive(Clone, Copy, PartialEq, Eq, Structural, Debug)]
pub enum Piece {
    Pawn,
    Knight,
    Bishop,
    Rook,
    Queen,
    King,
}

/// A move: a source square, a destination square, and an optional promotion
/// piece. Squares are indices 0..64, counted file-first from a1.
#[derive(Clone, Copy, PartialEq, Eq, Debug)]
pub struct Move {
    pub from: u8,
    pub to: u8,
    pub promotion: Option<Piece>,
}

impl Move {
    /// Both squares name a real board square.
    pub open spec fn wf(self) -> bool {
        self.from < 64 && self.to < 64
    }
}

/// How a finished match ended.
#[derive(Clone, Copy, PartialEq, Eq, Structural, Debug)]
pub enum GameOutcome {
    WhiteCheckmates,
    WhiteResigns,
    BlackCheckmates,
    BlackResigns,
    Stalemate,
    DrawAccepted,
    DrawDeclared,
}

} // verus!

use vstd::prelude::*;

verus! {

/// The six kinds of chess pieces.
#[derive(Clone, Copy, Debug, PartialEq, Eq, Structural)]
pub enum PieceKind {
    Pawn,
    Knight,
    Bishop,
    Rook,
    Queen,
    King,
}

/// The two sides of a chess game.
#[derive(Clone, Copy, Debug, PartialEq, Eq, Structural)]
pub enum Side {
    White,
    Black,
}

/// Whether a position still has legal moves, and if not, why.
#[derive(Clone, Copy, Debug, PartialEq, Eq, Structural)]
pub enum BoardState {
    Ongoing,
    Stalemate,
    Checkmate,
}

/// The other side.
pub open spec fn opponent(s: Side) -> Side {
    match s {
        Side::White => Side::Black,
        Side::Black => Side::White,
    }
}

/// The side that is not `s`.
pub fn other_side(s: Side) -> (r: Side)
    ensures
        r == opponent(s),
{
    match s {
        Side::White => Side::Black,
        Side::Black => Side::White,
    }
}

} // verus!

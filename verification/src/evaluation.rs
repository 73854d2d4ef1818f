//! Scoring a position from one color's perspective: weighted material plus
//! weighted mobility, with fixed bonuses for terminal positions.

use vstd::prelude::*;

verus! {

use crate::rules::{
    checkers_count, count_pieces, engine_pos_of, in_check_of, legal_moves, legal_moves_of,
    max_legal_moves, mover_of, null_board_of, null_move, piece_count_of, side_to_move,
};
use crate::types::{opponent, Color, Piece, Score};

pub const PAWN_VALUE: Score = 100;

pub const KNIGHT_VALUE: Score = 300;

pub const BISHOP_VALUE: Score = 300;

pub const ROOK_VALUE: Score = 500;

pub const QUEEN_VALUE: Score = 900;

pub const CHECKMATE_VALUE: Score = 20_000;

pub const MOBILITY_WEIGHT: Score = 10;

/// The most material one side can score: each of the five valued kinds can
/// count at most 64 pieces.
pub const MATERIAL_BOUND: Score = 134_400;

/// The most mobility one side can score.
pub const MOBILITY_BOUND: Score = 46_080;

/// One side's weighted material: pawns, knights, bishops, rooks and queens
/// at their classical values; kings count nothing.
pub open spec fn material_of(b: chess::Board, c: Color) -> int {
    PAWN_VALUE * (piece_count_of(b, c, Piece::Pawn) as int) + KNIGHT_VALUE * (piece_count_of(
        b,
        c,
        Piece::Knight,
    ) as int) + BISHOP_VALUE * (piece_count_of(b, c, Piece::Bishop) as int) + ROOK_VALUE * (
    piece_count_of(b, c, Piece::Rook) as int) + QUEEN_VALUE * (piece_count_of(
        b,
        c,
        Piece::Queen,
    ) as int)
}

/// How many moves one side has: its legal moves when it is to move, and
/// otherwise the legal moves after a synthetic pass — zero when no pass is
/// possible because the side to move is in check.
pub open spec fn mobility_count_of(b: chess::Board, c: Color) -> int {
    if c == mover_of(b) {
        legal_moves_of(b).len() as int
    } else if in_check_of(b) {
        0
    } else {
        legal_moves_of(null_board_of(b)).len() as int
    }
}

/// One side's weighted mobility.
pub open spec fn mobility_of(b: chess::Board, c: Color) -> int {
    MOBILITY_WEIGHT * mobility_count_of(b, c)
}

/// The full evaluation, relative to `color`: zero for stalemate, the full
/// mate score when the side to move is checkmated (positive if `color`
/// delivered the mate), and otherwise the material-plus-mobility difference.
pub open spec fn evaluate_of(b: chess::Board, color: Color, to_move: Color) -> int {
    if legal_moves_of(b).len() == 0 {
        if !in_check_of(b) {
            0
        } else if to_move != color {
            CHECKMATE_VALUE as int
        } else {
            -CHECKMATE_VALUE as int
        }
    } else {
        material_of(b, color) + mobility_of(b, color) - material_of(b, opponent(color))
            - mobility_of(b, opponent(color))
    }
}

/// How many legal moves the side to move has.
fn count_moves(board: &chess::Board) -> (r: usize)
    requires
        engine_pos_of(*board),
    ensures
        r == legal_moves_of(*board).len(),
        r <= max_legal_moves(),
{
    legal_moves(board).len()
}

/// One side's weighted material.
pub(crate) fn material(board: &chess::Board, color: Color) -> (r: Score)
    ensures
        r == material_of(*board, color),
        0 <= r <= MATERIAL_BOUND,
{
    let pawns = count_pieces(board, color, Piece::Pawn);
    let knights = count_pieces(board, color, Piece::Knight);
    let bishops = count_pieces(board, color, Piece::Bishop);
    let rooks = count_pieces(board, color, Piece::Rook);
    let queens = count_pieces(board, color, Piece::Queen);
    (pawns as Score) * PAWN_VALUE + (knights as Score) * KNIGHT_VALUE + (bishops as Score)
        * BISHOP_VALUE + (rooks as Score) * ROOK_VALUE + (queens as Score) * QUEEN_VALUE
}

/// One side's weighted mobility.
fn mobility(board: &chess::Board, color: Color) -> (r: Score)
    requires
        engine_pos_of(*board),
    ensures
        r == mobility_of(*board, color),
        0 <= r <= MOBILITY_BOUND,
{
    let count: usize = if color != side_to_move(board) {
        match null_move(board) {
            Some(passed) => count_moves(&passed),
            None => 0,
        }
    } else {
        count_moves(board)
    };
    (count as Score) * MOBILITY_WEIGHT
}

/// Score a position relative to `color`, where `to_move` is the side whose
/// turn it is: exactly `evaluate_of`. The position must be one the engine's
/// move generator is defined on.
pub fn evaluate(board: &chess::Board, color: Color, to_move: Color) -> (r: Score)
    requires
        engine_pos_of(*board),
    ensures
        r == evaluate_of(*board, color, to_move),
        -(MATERIAL_BOUND + MOBILITY_BOUND) <= r <= MATERIAL_BOUND + MOBILITY_BOUND,
{
    let num_moves = count_moves(board);
    if num_moves == 0 {
        if checkers_count(board) == 0 {
            return 0;
        } else if to_move != color {
            return CHECKMATE_VALUE;
        } else {
            return -CHECKMATE_VALUE;
        }
    }

    let other_color = color.other();

    material(board, color) + mobility(board, color) - material(board, other_color) - mobility(
        board,
        other_color,
    )
}

/// Law: in a position where the side to move has no legal moves and is not
/// in check (stalemate), the evaluation is exactly zero for any color.
pub proof fn lemma_stalemate_evaluates_zero(b: chess::Board, color: Color, to_move: Color)
    requires
        legal_moves_of(b).len() == 0,
        !in_check_of(b),
    ensures
        evaluate_of(b, color, to_move) == 0,
{
}

/// Law: in a position where the side to move is checkmated, the evaluation
/// is the full mate score — positive for the winner, negative for the mated
/// side.
pub proof fn lemma_checkmate_evaluation(b: chess::Board, winner: Color, to_move: Color)
    requires
        legal_moves_of(b).len() == 0,
        in_check_of(b),
        winner != to_move,
    ensures
        evaluate_of(b, winner, to_move) == CHECKMATE_VALUE,
        evaluate_of(b, opponent(winner), to_move) == -CHECKMATE_VALUE,
{
}

/// Law: the evaluation is zero-sum — a position scored from the other
/// side's perspective is exactly the negation, the identity the negamax
/// search rests on.
pub proof fn lemma_evaluate_zero_sum(b: chess::Board, color: Color, to_move: Color)
    ensures
        evaluate_of(b, color, to_move) == -evaluate_of(b, opponent(color), to_move),
{
}

/// Law: with mobility held equal between the sides, the evaluation from
/// `color`'s own perspective is exactly the weighted material difference.
pub proof fn lemma_material_difference(b: chess::Board, color: Color)
    requires
        legal_moves_of(b).len() > 0,
        mobility_of(b, color) == mobility_of(b, opponent(color)),
    ensures
        evaluate_of(b, color, color) == material_of(b, color) - material_of(b, opponent(color)),
{
}

} // verus!

//! The trusted interface to the rules engine (the `chess` crate).
//!
//! The library never inspects a position or a match record itself: a
//! `chess::Board` and a `chess::Game` are opaque values here. What the rules
//! engine computes from them — the legal moves, the successor position, the
//! piece counts, the position fingerprint — is given a name as an
//! uninterpreted spec function, and each call into the engine goes through a
//! wrapper whose contract speaks over those names. Everything stated here is
//! checked against the `chess` crate's source by a reader, not by Verus.

use vstd::prelude::*;

verus! {

use crate::types::{Color, GameOutcome, Move, Piece};

#[verifier::external_type_specification]
#[verifier::external_body]
pub struct ExBoard(chess::Board);

#[verifier::external_type_specification]
#[verifier::external_body]
pub struct ExGame(chess::Game);

/// The legal moves of a position, in the rules engine's enumeration order.
pub uninterp spec fn legal_moves_of(b: chess::Board) -> Seq<Move>;

/// The position reached by playing a legal move.
pub uninterp spec fn board_after(b: chess::Board, m: Move) -> chess::Board;

/// The position's fingerprint (a zobrist-style hash).
pub uninterp spec fn hash_of(b: chess::Board) -> u64;

/// The side to move.
pub uninterp spec fn mover_of(b: chess::Board) -> Color;

/// How many enemy pieces give check to the side to move.
pub uninterp spec fn checkers_count_of(b: chess::Board) -> u32;

/// The side to move is in check.
pub open spec fn in_check_of(b: chess::Board) -> bool {
    checkers_count_of(b) > 0
}

/// The position after a synthetic pass (only defined when the side to move
/// is not in check).
pub uninterp spec fn null_board_of(b: chess::Board) -> chess::Board;

/// How many pieces of one kind and color stand on the board.
pub uninterp spec fn piece_count_of(b: chess::Board, c: Color, p: Piece) -> u32;

/// The current position of a match record.
pub uninterp spec fn game_position_of(g: chess::Game) -> chess::Board;

/// The terminal result of a match record, if any.
pub uninterp spec fn game_result_of(g: chess::Game) -> Option<GameOutcome>;

/// Whether the record allows a draw claim (threefold repetition or the
/// fifty-move rule).
pub uninterp spec fn game_can_draw_of(g: chess::Game) -> bool;

/// Positions the engine's move generator is defined on. The generator fills
/// a fixed 18-slot list with one entry per origin square that has moves, so
/// it needs a side with at most 18 such squares; every position reached from
/// the standard start has at most 16 pieces a side, promotions included.
/// Ensured along every way the library obtains a position — a fresh record,
/// a legal application, a pass — and required wherever moves are generated.
pub uninterp spec fn engine_pos_of(b: chess::Board) -> bool;

/// Records whose start position and every recorded position the engine's
/// move generator is defined on (the record's methods replay and enumerate
/// them). Holds of a fresh record and is kept by every recording method.
pub uninterp spec fn engine_game_of(g: chess::Game) -> bool;

/// A record exactly as the engine builds a fresh one: the standard start
/// position and an empty history.
pub uninterp spec fn fresh_game_of(g: chess::Game) -> bool;

/// What parsing standard algebraic notation against a position returns: a
/// function of the position and the text alone.
pub uninterp spec fn san_move_of(b: chess::Board, s: Seq<char>) -> Option<Move>;

/// An upper bound on how many legal moves any position can have: the
/// generator keeps at most 18 origin squares, each with at most 64
/// destinations and at most 4 promotion choices.
pub open spec fn max_legal_moves() -> int {
    4608
}

/// Relies on chess::MoveGen::new_legal: enumerates exactly the legal moves of
/// the position, in a deterministic order. The move list is an array of at
/// most 18 origin squares, each with a 64-bit destination set and at most 4
/// promotion choices, so its length is at most 4608; every square index the
/// engine produces is below 64. The generator writes that array unchecked,
/// so a position must satisfy `engine_pos_of` before moves are generated.
#[verifier::external_body]
pub(crate) fn legal_moves(b: &chess::Board) -> (r: Vec<Move>)
    requires
        engine_pos_of(*b),
    ensures
        r@ == legal_moves_of(*b),
        r@.len() <= max_legal_moves(),
        forall|i: int| 0 <= i < r@.len() ==> (#[trigger] r@[i]).wf(),
{
    chess::MoveGen::new_legal(b)
        .map(|m| Move {
            from: m.get_source().to_index() as u8,
            to: m.get_dest().to_index() as u8,
            promotion: match m.get_promotion() {
                None => None, Some(chess::Piece::Pawn) => Some(Piece::Pawn),
                Some(chess::Piece::Knight) => Some(Piece::Knight),
                Some(chess::Piece::Bishop) => Some(Piece::Bishop),
                Some(chess::Piece::Rook) => Some(Piece::Rook),
                Some(chess::Piece::Queen) => Some(Piece::Queen),
                Some(chess::Piece::King) => Some(Piece::King),
            },
        })
        .collect()
}

/// Relies on chess::Board::make_move_new: applying a legal move yields the
/// successor position. The move's squares must be real squares, and the move
/// must be legal, or the engine's result is unspecified. Applying a legal
/// move never adds a piece, so the successor stays within `engine_pos_of`.
#[verifier::external_body]
pub(crate) fn make_move(b: &chess::Board, m: Move) -> (r: chess::Board)
    requires
        engine_pos_of(*b),
        m.wf(),
        legal_moves_of(*b).contains(m),
    ensures
        r == board_after(*b, m),
        engine_pos_of(r),
{
    let cm = chess::ChessMove::new(
        chess::ALL_SQUARES[m.from as usize],
        chess::ALL_SQUARES[m.to as usize],
        match m.promotion {
            None => None, Some(Piece::Pawn) => Some(chess::Piece::Pawn),
            Some(Piece::Knight) => Some(chess::Piece::Knight),
            Some(Piece::Bishop) => Some(chess::Piece::Bishop),
            Some(Piece::Rook) => Some(chess::Piece::Rook),
            Some(Piece::Queen) => Some(chess::Piece::Queen),
            Some(Piece::King) => Some(chess::Piece::King),
        },
    );
    b.make_move_new(cm)
}

/// Relies on chess::Board::get_hash: the fingerprint is a function of the
/// position alone.
#[verifier::external_body]
pub(crate) fn board_hash(b: &chess::Board) -> (r: u64)
    ensures
        r == hash_of(*b),
{
    b.get_hash()
}

/// Relies on chess::Board::side_to_move.
#[verifier::external_body]
pub(crate) fn side_to_move(b: &chess::Board) -> (r: Color)
    ensures
        r == mover_of(*b),
{
    match b.side_to_move() {
        chess::Color::White => Color::White,
        chess::Color::Black => Color::Black,
    }
}

/// Relies on chess::Board::checkers and chess::BitBoard::popcnt: the number
/// of checking pieces.
#[verifier::external_body]
pub(crate) fn checkers_count(b: &chess::Board) -> (r: u32)
    ensures
        r == checkers_count_of(*b),
{
    b.checkers().popcnt()
}

/// Relies on chess::Board::null_move: a pass is available exactly when the
/// side to move is not in check, and it yields the position with the turn
/// handed over. A pass moves no piece, so it keeps `engine_pos_of`.
#[verifier::external_body]
pub(crate) fn null_move(b: &chess::Board) -> (r: Option<chess::Board>)
    ensures
        r is Some <==> !in_check_of(*b),
        r matches Some(nb) ==> nb == null_board_of(*b),
        engine_pos_of(*b) ==> (r matches Some(nb) ==> engine_pos_of(nb)),
{
    b.null_move()
}

/// Relies on chess::Board::pieces, chess::Board::color_combined and
/// chess::BitBoard::popcnt: the count of one color's pieces of one kind. A
/// popcount of a 64-bit set is at most 64.
#[verifier::external_body]
pub(crate) fn count_pieces(b: &chess::Board, c: Color, p: Piece) -> (r: u32)
    ensures
        r == piece_count_of(*b, c, p),
        r <= 64,
{
    let cp = match p {
        Piece::Pawn => chess::Piece::Pawn,
        Piece::Knight => chess::Piece::Knight,
        Piece::Bishop => chess::Piece::Bishop,
        Piece::Rook => chess::Piece::Rook,
        Piece::Queen => chess::Piece::Queen,
        Piece::King => chess::Piece::King,
    };
    let cc = match c {
        Color::White => chess::Color::White,
        Color::Black => chess::Color::Black,
    };
    (b.pieces(cp) & b.color_combined(cc)).popcnt()
}

/// Relies on chess::ChessMove::from_san: parsing standard algebraic notation
/// against a position depends on the position and the text alone, and
/// returns a move only if it is one of the position's legal moves. Parsing
/// enumerates the legal moves, so the position must satisfy `engine_pos_of`.
#[verifier::external_body]
pub(crate) fn parse_san(b: &chess::Board, text: &str) -> (r: Option<Move>)
    requires
        engine_pos_of(*b),
    ensures
        r == san_move_of(*b, text@),
        r matches Some(m) ==> m.wf() && legal_moves_of(*b).contains(m),
{
    match chess::ChessMove::from_san(b, text) {
        Err(_) => None,
        Ok(m) => Some(Move {
            from: m.get_source().to_index() as u8,
            to: m.get_dest().to_index() as u8,
            promotion: match m.get_promotion() {
                None => None, Some(chess::Piece::Pawn) => Some(Piece::Pawn),
                Some(chess::Piece::Knight) => Some(Piece::Knight),
                Some(chess::Piece::Bishop) => Some(Piece::Bishop),
                Some(chess::Piece::Rook) => Some(Piece::Rook),
                Some(chess::Piece::Queen) => Some(Piece::Queen),
                Some(chess::Piece::King) => Some(Piece::King),
            },
        }),
    }
}

/// Relies on chess::Game::new: a fresh record holds the standard start
/// position and an empty history, so it has no result, allows no draw
/// claim, and its positions are within the move generator's bounds.
#[verifier::external_body]
pub(crate) fn new_game() -> (g: chess::Game)
    ensures
        fresh_game_of(g),
        engine_game_of(g),
        game_result_of(g) is None,
        !game_can_draw_of(g),
{
    chess::Game::new()
}

/// Relies on chess::Game deriving Clone: the clone is the same record.
#[verifier::external_body]
pub(crate) fn clone_game(g: &chess::Game) -> (r: chess::Game)
    ensures
        r == *g,
{
    g.clone()
}

/// Relies on chess::Game::current_position: a deterministic replay of the
/// recorded moves. The replay itself generates no moves, so it is defined
/// for any record; a record within the generator's bounds yields a position
/// within them.
#[verifier::external_body]
pub(crate) fn current_position(g: &chess::Game) -> (r: chess::Board)
    ensures
        r == game_position_of(*g),
        engine_game_of(*g) ==> engine_pos_of(r),
{
    g.current_position()
}

/// Relies on chess::Game::result, which enumerates the current position's
/// moves to detect mate and stalemate — hence the record must be within the
/// generator's bounds.
#[verifier::external_body]
pub(crate) fn game_result(g: &chess::Game) -> (r: Option<GameOutcome>)
    requires
        engine_game_of(*g),
    ensures
        r == game_result_of(*g),
{
    match g.result() {
        None => None,
        Some(chess::GameResult::WhiteCheckmates) => Some(GameOutcome::WhiteCheckmates),
        Some(chess::GameResult::WhiteResigns) => Some(GameOutcome::WhiteResigns),
        Some(chess::GameResult::BlackCheckmates) => Some(GameOutcome::BlackCheckmates),
        Some(chess::GameResult::BlackResigns) => Some(GameOutcome::BlackResigns),
        Some(chess::GameResult::Stalemate) => Some(GameOutcome::Stalemate),
        Some(chess::GameResult::DrawAccepted) => Some(GameOutcome::DrawAccepted),
        Some(chess::GameResult::DrawDeclared) => Some(GameOutcome::DrawDeclared),
    }
}

/// Relies on chess::Game::side_to_move: the record's turn agrees with the
/// side to move of its current position.
#[verifier::external_body]
pub(crate) fn game_side_to_move(g: &chess::Game) -> (r: Color)
    ensures
        r == mover_of(game_position_of(*g)),
{
    match g.side_to_move() {
        chess::Color::White => Color::White,
        chess::Color::Black => Color::Black,
    }
}

/// Relies on chess::Game::can_declare_draw, which enumerates each recorded
/// position's moves for the repetition rule — hence the record must be
/// within the generator's bounds.
#[verifier::external_body]
pub(crate) fn game_can_declare_draw(g: &chess::Game) -> (r: bool)
    requires
        engine_game_of(*g),
    ensures
        r == game_can_draw_of(*g),
{
    g.can_declare_draw()
}

/// Relies on chess::Game::make_move: the move is recorded exactly when the
/// match has no result yet and the move is legal in the current position;
/// then the position advances, and the match ends exactly when the new
/// position has no legal moves (checkmate against the new mover, or
/// stalemate). An illegal or late move leaves the record unchanged. The
/// legality check enumerates the current position's moves, so the record
/// must be within the generator's bounds; recording only legality-checked
/// moves keeps it there.
#[verifier::external_body]
pub(crate) fn game_make_move(g: &mut chess::Game, m: Move) -> (r: bool)
    requires
        engine_game_of(*old(g)),
        m.wf(),
    ensures
        engine_game_of(*final (g)),
        r == (game_result_of(*old(g)) is None && legal_moves_of(
            game_position_of(*old(g)),
        ).contains(m)),
        !r ==> *final (g) == *old(g),
        r ==> game_position_of(*final (g)) == board_after(game_position_of(*old(g)), m),
        r ==> (game_result_of(*final (g)) is Some <==> legal_moves_of(
            game_position_of(*final (g)),
        ).len() == 0),
        r && legal_moves_of(game_position_of(*final (g))).len() == 0 ==> game_result_of(
            *final (g),
        ) == (if in_check_of(game_position_of(*final (g))) {
            if mover_of(game_position_of(*final (g))) == Color::White {
                Some(GameOutcome::BlackCheckmates)
            } else {
                Some(GameOutcome::WhiteCheckmates)
            }
        } else {
            Some(GameOutcome::Stalemate)
        }),
{
    let cm = chess::ChessMove::new(
        chess::ALL_SQUARES[m.from as usize],
        chess::ALL_SQUARES[m.to as usize],
        match m.promotion {
            None => None, Some(Piece::Pawn) => Some(chess::Piece::Pawn),
            Some(Piece::Knight) => Some(chess::Piece::Knight),
            Some(Piece::Bishop) => Some(chess::Piece::Bishop),
            Some(Piece::Rook) => Some(chess::Piece::Rook),
            Some(Piece::Queen) => Some(chess::Piece::Queen),
            Some(Piece::King) => Some(chess::Piece::King),
        },
    );
    g.make_move(cm)
}

/// Relies on chess::Game::resign: resignation is recorded exactly when the
/// match has no result yet; the position does not change. It consults the
/// result, which enumerates the current position's moves, so the record
/// must be within the generator's bounds; a resignation moves no piece.
#[verifier::external_body]
pub(crate) fn game_resign(g: &mut chess::Game, c: Color) -> (r: bool)
    requires
        engine_game_of(*old(g)),
    ensures
        engine_game_of(*final (g)),
        r == (game_result_of(*old(g)) is None),
        !r ==> *final (g) == *old(g),
        r ==> game_position_of(*final (g)) == game_position_of(*old(g)),
        r ==> game_result_of(*final (g)) == (if c == Color::White {
            Some(GameOutcome::WhiteResigns)
        } else {
            Some(GameOutcome::BlackResigns)
        }),
{
    g.resign(match c {
        Color::White => chess::Color::White,
        Color::Black => chess::Color::Black,
    })
}

/// Relies on chess::Game::declare_draw: the draw is recorded exactly when
/// the record allows the claim; the position does not change. The claim
/// check enumerates recorded positions' moves, so the record must be within
/// the generator's bounds; declaring moves no piece.
#[verifier::external_body]
pub(crate) fn game_declare_draw(g: &mut chess::Game) -> (r: bool)
    requires
        engine_game_of(*old(g)),
    ensures
        engine_game_of(*final (g)),
        r == game_can_draw_of(*old(g)),
        !r ==> *final (g) == *old(g),
        r ==> game_position_of(*final (g)) == game_position_of(*old(g)),
        r ==> game_result_of(*final (g)) == Some(GameOutcome::DrawDeclared),
{
    g.declare_draw()
}

} // verus!

use std::str::FromStr;

use patzer::evaluation::evaluate;
use patzer::strategies::{alpha_beta, choose_move, first_legal_move, hope_chess, random_move};
use patzer::player::Strategy;
use patzer::types::{Color, Move, Piece};

fn as_move(m: chess::ChessMove) -> Move {
    Move {
        from: m.get_source().to_index() as u8,
        to: m.get_dest().to_index() as u8,
        promotion: match m.get_promotion() {
            None => None,
            Some(chess::Piece::Pawn) => Some(Piece::Pawn),
            Some(chess::Piece::Knight) => Some(Piece::Knight),
            Some(chess::Piece::Bishop) => Some(Piece::Bishop),
            Some(chess::Piece::Rook) => Some(Piece::Rook),
            Some(chess::Piece::Queen) => Some(Piece::Queen),
            Some(chess::Piece::King) => Some(Piece::King),
        },
    }
}

fn side(c: chess::Color) -> Color {
    match c {
        chess::Color::White => Color::White,
        chess::Color::Black => Color::Black,
    }
}

#[test]
fn starting_position_is_even() {
    let board =
        chess::Board::from_str("rnbqkbnr/pppppppp/8/8/8/8/PPPPPPPP/RNBQKBNR w KQkq - 0 1").unwrap();
    assert_eq!(evaluate(&board, Color::White, Color::White), 0);
}

#[test]
fn recognizes_checkmate() {
    let board =
        chess::Board::from_str("r3r1k1/pbq2pQ1/7p/1pp5/4n3/2B4P/PPP2PP1/R3R1K1 b - - 0 20")
            .unwrap();
    assert_eq!(
        evaluate(&board, Color::White, side(board.side_to_move())),
        20_000
    );
    assert_eq!(
        evaluate(&board, Color::Black, side(board.side_to_move())),
        -20_000
    );
}

#[test]
fn recognizes_material_count() {
    let board =
        chess::Board::from_str("4rk1b/1ppb1p2/p1Bp4/8/5q2/7P/P5P1/4R2K b - - 0 27").unwrap();
    assert_eq!(evaluate(&board, Color::White, Color::White), -16_70);
}

#[test]
fn stalemate_evaluates_to_zero() {
    // black to move, not in check, no legal moves
    let board = chess::Board::from_str("k7/8/1Q6/8/8/8/8/7K b - - 0 1").unwrap();
    assert_eq!(board.status(), chess::BoardStatus::Stalemate);
    assert_eq!(evaluate(&board, Color::White, Color::Black), 0);
    assert_eq!(evaluate(&board, Color::Black, Color::Black), 0);
}

#[test]
fn ab_detects_smothered_mate() {
    let board = chess::Board::from_str("2r4k/6pp/8/4N3/8/1Q6/B5PP/7K w - - 0 1").unwrap();
    let candidate = alpha_beta(&board, 5);

    let expected = vec![
        as_move(chess::ChessMove::from_san(&board, "Qg8").unwrap()),
        as_move(chess::ChessMove::from_san(&board, "Ng6").unwrap()),
    ];

    assert!(candidate.is_some());
    if let Some(candidate) = candidate {
        assert!(expected.contains(&candidate));
    }
}

#[test]
fn alpha_beta_returns_a_legal_move() {
    let board = chess::Board::default();
    let chosen = alpha_beta(&board, 2).expect("the initial position has moves");
    let legal: Vec<Move> = chess::MoveGen::new_legal(&board).map(as_move).collect();
    assert!(legal.contains(&chosen));
}

#[test]
fn alpha_beta_with_no_moves_selects_nothing() {
    // stalemate: no legal move, so no move is available (resignation signal)
    let board = chess::Board::from_str("k7/8/1Q6/8/8/8/8/7K b - - 0 1").unwrap();
    assert!(alpha_beta(&board, 3).is_none());
}

#[test]
fn first_legal_strategy_is_deterministic() {
    let first_run = first_legal_move(&chess::Game::new());
    let second_run = first_legal_move(&chess::Game::new());
    assert!(first_run.is_some());
    assert_eq!(first_run, second_run);
}

#[test]
fn first_legal_matches_enumeration_head() {
    let game = chess::Game::new();
    let head = chess::MoveGen::new_legal(&game.current_position())
        .next()
        .map(as_move);
    assert_eq!(first_legal_move(&game), head);
}

#[test]
fn random_strategy_selects_a_legal_move() {
    let game = chess::Game::new();
    let chosen = random_move(&game).expect("the initial position has moves");
    let legal: Vec<Move> = chess::MoveGen::new_legal(&game.current_position())
        .map(as_move)
        .collect();
    assert!(legal.contains(&chosen));
}

#[test]
fn hope_strategy_promotes_the_passed_pawn() {
    // white's only material gain is promotion; the queen comes first in the
    // engine's promotion order, so the greedy lookahead picks it
    let game = chess::Game::from_str("8/P6k/8/8/8/8/8/7K w - - 0 1").unwrap();
    let chosen = hope_chess(&game).expect("white has moves");
    assert_eq!(
        chosen,
        Move { from: 48, to: 56, promotion: Some(Piece::Queen) }
    );
}

#[test]
fn hope_strategy_selects_a_legal_move() {
    let game = chess::Game::new();
    let chosen = hope_chess(&game).expect("the initial position has moves");
    let legal: Vec<Move> = chess::MoveGen::new_legal(&game.current_position())
        .map(as_move)
        .collect();
    assert!(legal.contains(&chosen));
}

#[test]
fn zero_depth_search_request_is_guarded() {
    let game = chess::Game::new();
    assert!(choose_move(Strategy::AlphaBeta(0), &game).is_none());
    assert!(choose_move(Strategy::AlphaBeta(1), &game).is_some());
}

#[test]
fn choose_move_dispatches_first_legal() {
    let game = chess::Game::new();
    assert_eq!(
        choose_move(Strategy::FirstLegal, &game),
        first_legal_move(&game)
    );
}

//! Move-selection strategies. Each one looks at a match record and either
//! picks a legal move or reports that it has none — which the caller treats
//! as resignation, never as an error.

use vstd::prelude::*;

pub mod alphabeta;

pub use alphabeta::alpha_beta;

verus! {

use crate::evaluation::{material, material_of};
use crate::player::Strategy;
use crate::rules::{
    board_after, current_position, engine_game_of, engine_pos_of, game_position_of, legal_moves,
    legal_moves_of, make_move, mover_of, side_to_move,
};
use crate::types::{Color, Move, Score};

/// How many plies the hope strategy looks ahead.
pub const HOPE_DEPTH: u8 = 2;

/// What the first-legal strategy picks: the first move of the rules
/// engine's enumeration, or nothing when there is none.
pub open spec fn first_legal_of(b: chess::Board) -> Option<Move> {
    if legal_moves_of(b).len() == 0 {
        None
    } else {
        Some(legal_moves_of(b)[0])
    }
}

/// Pick the first legal move of the current position.
pub fn first_legal_move(game: &chess::Game) -> (r: Option<Move>)
    requires
        engine_game_of(*game),
    ensures
        r == first_legal_of(game_position_of(*game)),
        r matches Some(m) ==> m.wf(),
{
    let position = current_position(game);
    let moves = legal_moves(&position);
    if moves.len() == 0 {
        None
    } else {
        Some(moves[0])
    }
}

/// Law: the first-legal strategy is deterministic — two positions that the
/// rules engine enumerates identically yield the identical choice.
pub proof fn lemma_first_legal_deterministic(b1: chess::Board, b2: chess::Board)
    requires
        legal_moves_of(b1) == legal_moves_of(b2),
    ensures
        first_legal_of(b1) == first_legal_of(b2),
{
}

/// Relies on rand::Rng::gen_range over rand::thread_rng: an index below
/// `n`. Nothing beyond the range is assumed of the result.
#[verifier::external_body]
fn pick_index(n: usize) -> (r: usize)
    requires
        n >= 1,
    ensures
        r < n,
{
    rand::Rng::gen_range(&mut rand::thread_rng(), 0..n)
}

/// Pick a uniformly random legal move of the current position.
pub fn random_move(game: &chess::Game) -> (r: Option<Move>)
    requires
        engine_game_of(*game),
    ensures
        r is Some <==> legal_moves_of(game_position_of(*game)).len() > 0,
        r matches Some(m) ==> legal_moves_of(game_position_of(*game)).contains(m) && m.wf(),
{
    let position = current_position(game);
    let moves = legal_moves(&position);
    if moves.len() == 0 {
        None
    } else {
        let i = pick_index(moves.len());
        proof {
            assert(legal_moves_of(game_position_of(*game)).contains(moves@[i as int])) by {
                assert(legal_moves_of(game_position_of(*game))[i as int] == moves@[i as int]);
            }
        }
        Some(moves[i])
    }
}

/// The value the hope strategy assigns a position: the mover's own material
/// once the lookahead is spent or no move remains, and otherwise the best
/// value among all successors — the opponent's replies are hoped to
/// cooperate, not to resist.
pub open spec fn hope_value(b: chess::Board, me: Color, depth: nat) -> int
    decreases depth, legal_moves_of(b).len() + 1,
{
    if depth == 0 || legal_moves_of(b).len() == 0 {
        material_of(b, me)
    } else {
        hope_best(b, me, depth, legal_moves_of(b).len() as int)
    }
}

/// The best hoped-for value among the first `n` legal moves of `b`.
pub open spec fn hope_best(b: chess::Board, me: Color, depth: nat, n: int) -> int
    recommends
        depth > 0,
        1 <= n <= legal_moves_of(b).len(),
    decreases depth, n,
{
    if depth == 0 {
        // out of the recommended range; any fixed value keeps the function total
        material_of(b, me)
    } else if n <= 1 {
        hope_value(board_after(b, legal_moves_of(b)[0]), me, (depth - 1) as nat)
    } else {
        let prev = hope_best(b, me, depth, n - 1);
        let cur = hope_value(board_after(b, legal_moves_of(b)[n - 1]), me, (depth - 1) as nat);
        if cur > prev {
            cur
        } else {
            prev
        }
    }
}

/// The hoped-for value of a position, computed by recursion over the legal
/// moves.
fn hope_score(board: &chess::Board, me: Color, depth: u8) -> (r: Score)
    requires
        engine_pos_of(*board),
    ensures
        r == hope_value(*board, me, depth as nat),
    decreases depth,
{
    let moves = legal_moves(board);
    if depth == 0 || moves.len() == 0 {
        return material(board, me);
    }
    proof {
        assert(legal_moves_of(*board).contains(moves@[0])) by {
            assert(legal_moves_of(*board)[0] == moves@[0]);
        }
    }
    let child = make_move(board, moves[0]);
    let mut best = hope_score(&child, me, depth - 1);
    let mut i: usize = 1;
    while i < moves.len()
        invariant
            engine_pos_of(*board),
            1 <= i <= moves@.len(),
            depth >= 1,
            moves@ == legal_moves_of(*board),
            moves@.len() > 0,
            forall|k: int| 0 <= k < moves@.len() ==> (#[trigger] moves@[k]).wf(),
            best == hope_best(*board, me, depth as nat, i as int),
        decreases moves@.len() - i,
    {
        proof {
            assert(legal_moves_of(*board).contains(moves@[i as int])) by {
                assert(legal_moves_of(*board)[i as int] == moves@[i as int]);
            }
        }
        let child = make_move(board, moves[i]);
        let s = hope_score(&child, me, depth - 1);
        if s > best {
            best = s;
        }
        i = i + 1;
    }
    best
}

/// Greedy lookahead ("hope chess"): pick a move whose line, assuming every
/// later move goes the mover's way, maximizes the mover's own material. Not
/// adversarial: the opponent's replies are not assumed to resist.
pub fn hope_chess(game: &chess::Game) -> (r: Option<Move>)
    requires
        engine_game_of(*game),
    ensures
        r is Some <==> legal_moves_of(game_position_of(*game)).len() > 0,
        r matches Some(m) ==> legal_moves_of(game_position_of(*game)).contains(m) && m.wf()
            && hope_value(
            board_after(game_position_of(*game), m),
            mover_of(game_position_of(*game)),
            (HOPE_DEPTH - 1) as nat,
        ) == hope_best(
            game_position_of(*game),
            mover_of(game_position_of(*game)),
            HOPE_DEPTH as nat,
            legal_moves_of(game_position_of(*game)).len() as int,
        ),
{
    let position = current_position(game);
    let me = side_to_move(&position);
    let moves = legal_moves(&position);
    if moves.len() == 0 {
        return None;
    }
    proof {
        assert(legal_moves_of(game_position_of(*game)).contains(moves@[0])) by {
            assert(legal_moves_of(game_position_of(*game))[0] == moves@[0]);
        }
    }
    let mut best_move = moves[0];
    let child = make_move(&position, moves[0]);
    let mut best = hope_score(&child, me, HOPE_DEPTH - 1);
    let mut i: usize = 1;
    while i < moves.len()
        invariant
            engine_pos_of(position),
            1 <= i <= moves@.len(),
            moves@ == legal_moves_of(game_position_of(*game)),
            position == game_position_of(*game),
            me == mover_of(game_position_of(*game)),
            moves@.len() > 0,
            forall|k: int| 0 <= k < moves@.len() ==> (#[trigger] moves@[k]).wf(),
            legal_moves_of(game_position_of(*game)).contains(best_move),
            best_move.wf(),
            best == hope_value(
                board_after(game_position_of(*game), best_move),
                me,
                (HOPE_DEPTH - 1) as nat,
            ),
            best == hope_best(game_position_of(*game), me, HOPE_DEPTH as nat, i as int),
        decreases moves@.len() - i,
    {
        proof {
            assert(legal_moves_of(game_position_of(*game)).contains(moves@[i as int])) by {
                assert(legal_moves_of(game_position_of(*game))[i as int] == moves@[i as int]);
            }
        }
        let child = make_move(&position, moves[i]);
        let s = hope_score(&child, me, HOPE_DEPTH - 1);
        if s > best {
            best = s;
            best_move = moves[i];
        }
        i = i + 1;
    }
    Some(best_move)
}

/// Ask a strategy for a move on the record's current position. Every
/// returned move is legal there; first-legal's choice is pinned exactly. A
/// zero-depth alpha-beta request is a caller error and is guarded
/// explicitly: it selects no move.
pub fn choose_move(strategy: Strategy, game: &chess::Game) -> (r: Option<Move>)
    requires
        engine_game_of(*game),
    ensures
        strategy == Strategy::FirstLegal ==> r == first_legal_of(game_position_of(*game)),
        strategy == Strategy::Random || strategy == Strategy::Hope ==> (r is Some <==> legal_moves_of(game_position_of(*game)).len() > 0),
        strategy matches Strategy::AlphaBeta(d) ==> (r is Some <==> (d >= 1 && legal_moves_of(game_position_of(*game)).len() > 0)),
        r matches Some(m) ==> m.wf() && legal_moves_of(game_position_of(*game)).contains(m),
{
    match strategy {
        Strategy::FirstLegal => {
            let r = first_legal_move(game);
            proof {
                let legal = legal_moves_of(game_position_of(*game));
                if legal.len() > 0 {
                    assert(legal.contains(legal[0]));
                }
            }
            r
        },
        Strategy::Random => random_move(game),
        Strategy::Hope => hope_chess(game),
        Strategy::AlphaBeta(d) => {
            if d == 0 {
                None
            } else {
                let position = current_position(game);
                alpha_beta(&position, d)
            }
        },
    }
}

} // verus!

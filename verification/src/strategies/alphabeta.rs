//! Fixed-depth negamax search with alpha-beta pruning and a transposition
//! cache.
//!
//! One table is built per top-level decision. Legal moves are visited in a
//! randomized order — a cheap, non-authoritative stand-in for real move
//! ordering. A cache hit at exactly the remaining depth tightens the search
//! window with the stored bound and may cut the sub-tree off entirely. The
//! search is non-iterative and offers no protection against result
//! instability from depth-mismatched cache hits; its contract promises a
//! legal move whenever one exists, and bounded scores throughout.

use vstd::prelude::*;

verus! {

use crate::evaluation::evaluate;
use crate::rules::{
    board_hash, engine_pos_of, hash_of, legal_moves, legal_moves_of, make_move, mover_of,
    side_to_move,
};
use crate::evaluation::evaluate_of;
use crate::transposition::{
    eval_score, slot_index, spec_retrieve, spec_store, Evaluation, TableEntry, TranspositionTable,
};
use crate::types::{Move, Score};

/// Every score the search handles stays within this bound: evaluations are
/// bounded by material plus mobility, and the window starts at eighty
/// thousand.
pub const SCORE_BOUND: Score = 200_000;

/// Every score recorded in the table is within the search's score bound.
pub open spec fn scores_bounded(slots: Seq<Option<TableEntry>>) -> bool {
    forall|i: int|
        0 <= i < slots.len() ==> ((#[trigger] slots[i]) matches Some(e) ==> -SCORE_BOUND
            <= eval_score(e.eval) <= SCORE_BOUND)
}

/// A store of a bounded score keeps every recorded score bounded.
proof fn lemma_store_keeps_scores_bounded(
    slots: Seq<Option<TableEntry>>,
    cap: nat,
    hash: u64,
    depth: u8,
    eval: Evaluation,
)
    requires
        cap > 0,
        slots.len() == cap,
        scores_bounded(slots),
        -SCORE_BOUND <= eval_score(eval) <= SCORE_BOUND,
    ensures
        scores_bounded(spec_store(slots, cap, hash, depth, eval)),
{
    let after = spec_store(slots, cap, hash, depth, eval);
    assert forall|i: int|
        0 <= i < after.len() implies ((#[trigger] after[i]) matches Some(e) ==> -SCORE_BOUND
        <= eval_score(e.eval) <= SCORE_BOUND) by {
        if i != slot_index(cap, hash) {
            assert(after[i] == slots[i]);
        }
    }
}

/// The table holds an exact score for this fingerprint at this depth.
spec fn exact_hit(slots: Seq<Option<TableEntry>>, cap: nat, hash: u64, depth: u8) -> bool {
    match spec_retrieve(slots, cap, hash) {
        Some(e) => e.depth == depth && e.eval is Exact,
        None => false,
    }
}

/// A retrieved entry carries a bounded score.
proof fn lemma_retrieved_score_bounded(slots: Seq<Option<TableEntry>>, cap: nat, hash: u64)
    requires
        cap > 0,
        slots.len() == cap,
        scores_bounded(slots),
    ensures
        spec_retrieve(slots, cap, hash) matches Some(e) ==> -SCORE_BOUND <= eval_score(e.eval)
            <= SCORE_BOUND,
{
    assert(0 <= slot_index(cap, hash) < cap);
}

/// Relies on rand::seq::SliceRandom::shuffle over rand::thread_rng: the
/// moves are permuted in place. Which order comes out is not assumed, only
/// that the same moves remain.
#[verifier::external_body]
fn shuffle_moves(moves: &mut Vec<Move>)
    ensures
        final (moves)@.to_multiset() == old(moves)@.to_multiset(),
{
    rand::seq::SliceRandom::shuffle(moves.as_mut_slice(), &mut rand::thread_rng());
}

/// The legal moves of the position in a randomized order: the same
/// multiset of moves the engine enumerates, only the order is random.
fn current_moves(board: &chess::Board) -> (r: Vec<Move>)
    requires
        engine_pos_of(*board),
    ensures
        r@.to_multiset() == legal_moves_of(*board).to_multiset(),
        r@.len() == legal_moves_of(*board).len(),
        forall|k: int|
            0 <= k < r@.len() ==> (#[trigger] r@[k]).wf() && legal_moves_of(*board).contains(
                r@[k],
            ),
{
    let mut moves = legal_moves(board);
    let ghost enumerated = moves@;
    shuffle_moves(&mut moves);
    proof {
        broadcast use vstd::seq_lib::group_to_multiset_ensures;

        assert(moves@.to_multiset().len() == enumerated.to_multiset().len());
        assert forall|k: int|
            0 <= k < moves@.len() implies (#[trigger] moves@[k]).wf() && legal_moves_of(
            *board,
        ).contains(moves@[k]) by {
            assert(moves@.contains(moves@[k]));
            assert(moves@.to_multiset().count(moves@[k]) > 0);
            assert(enumerated.contains(moves@[k]));
            let j = choose|j: int| 0 <= j < enumerated.len() && enumerated[j] == moves@[k];
            assert(enumerated[j].wf());
        }
    }
    moves
}

/// The recursive negamax scorer over a window `alpha..beta`.
///
/// A cache hit at exactly the remaining depth returns the stored exact
/// score, or tightens the window with the stored bound and returns the
/// stored score when the tightened window is empty. A leaf is evaluated
/// from the mover's own perspective and recorded exactly; otherwise each
/// legal move is searched with the negated, swapped window, cutting off at
/// beta. The result and every score left in the table stay bounded.
fn alpha_beta_helper(
    board: chess::Board,
    alpha: Score,
    beta: Score,
    depth_left: u8,
    transposition_table: &mut TranspositionTable,
) -> (r: Score)
    requires
        engine_pos_of(board),
        old(transposition_table).wf(),
        scores_bounded(old(transposition_table).slots()),
        -SCORE_BOUND <= alpha <= SCORE_BOUND,
        -SCORE_BOUND <= beta <= SCORE_BOUND,
    ensures
        final (transposition_table).wf(),
        final (transposition_table).capacity() == old(transposition_table).capacity(),
        scores_bounded(final (transposition_table).slots()),
        -SCORE_BOUND <= r <= SCORE_BOUND,
        depth_left == 0 && spec_retrieve(
            old(transposition_table).slots(),
            old(transposition_table).capacity(),
            hash_of(board),
        ) is None ==> r == evaluate_of(board, mover_of(board), mover_of(board)) && final (transposition_table).slots() == spec_store(
            old(transposition_table).slots(),
            old(transposition_table).capacity(),
            hash_of(board),
            0,
            Evaluation::Exact(evaluate_of(board, mover_of(board), mover_of(board)) as Score),
        ),
        spec_retrieve(
            old(transposition_table).slots(),
            old(transposition_table).capacity(),
            hash_of(board),
        ) matches Some(e) ==> (e.depth == depth_left ==> (e.eval matches Evaluation::Exact(s)
            ==> r == s && *final (transposition_table) == *old(transposition_table))),
    decreases depth_left,
{
    let mut alpha = alpha;
    let mut beta = beta;
    let hash = board_hash(&board);

    // Reuse results if they have been computed before
    if let Some(entry) = transposition_table.retrieve(hash) {
        proof {
            lemma_retrieved_score_bounded(
                transposition_table.slots(),
                transposition_table.capacity(),
                hash,
            );
        }
        if entry.depth == depth_left {
            let score = match entry.eval {
                Evaluation::Exact(score) => {
                    return score;
                },
                Evaluation::Beta(score) => {
                    if score < alpha {
                        alpha = score;
                    }
                    score
                },
                Evaluation::Alpha(score) => {
                    if score < beta {
                        beta = score;
                    }
                    score
                },
            };

            if alpha >= beta {
                return score;
            }
        }
    }
    if depth_left == 0 {
        let color = side_to_move(&board);
        let score = evaluate(&board, color, color);
        proof {
            lemma_store_keeps_scores_bounded(
                transposition_table.slots(),
                transposition_table.capacity(),
                hash,
                depth_left,
                Evaluation::Exact(score),
            );
        }
        transposition_table.store(hash, depth_left, Evaluation::Exact(score));
        return score;
    }
    let moves = current_moves(&board);
    let mut idx: usize = 0;
    while idx < moves.len()
        invariant
            engine_pos_of(board),
            hash == hash_of(board),
            !exact_hit(
                old(transposition_table).slots(),
                old(transposition_table).capacity(),
                hash_of(board),
                depth_left,
            ),
            transposition_table.wf(),
            transposition_table.capacity() == old(transposition_table).capacity(),
            scores_bounded(transposition_table.slots()),
            -SCORE_BOUND <= alpha <= SCORE_BOUND,
            -SCORE_BOUND <= beta <= SCORE_BOUND,
            depth_left >= 1,
            0 <= idx <= moves@.len(),
            forall|k: int|
                0 <= k < moves@.len() ==> (#[trigger] moves@[k]).wf() && legal_moves_of(
                    board,
                ).contains(moves@[k]),
        decreases moves@.len() - idx,
    {
        let m = moves[idx];
        let child = make_move(&board, m);
        let deeper = alpha_beta_helper(child, -beta, -alpha, depth_left - 1, transposition_table);
        let score = -deeper;

        if score >= beta {
            proof {
                lemma_store_keeps_scores_bounded(
                    transposition_table.slots(),
                    transposition_table.capacity(),
                    hash,
                    depth_left,
                    Evaluation::Beta(beta),
                );
            }
            transposition_table.store(hash, depth_left, Evaluation::Beta(beta));
            return beta;
        }
        if score > alpha {
            alpha = score;
        }
        idx = idx + 1;
    }
    proof {
        lemma_store_keeps_scores_bounded(
            transposition_table.slots(),
            transposition_table.capacity(),
            hash,
            depth_left,
            Evaluation::Alpha(alpha),
        );
    }
    transposition_table.store(hash, depth_left, Evaluation::Alpha(alpha));
    alpha
}

/// The principal strategy: fixed-depth negamax alpha-beta with a fresh
/// transposition table per decision. Returns a legal move of the position
/// whenever it has one, and nothing exactly when it has none. The depth
/// must be at least one ply.
///
/// The contract deliberately does not hold the chosen move to the
/// unmemoized fixed-depth negamax reference, because the implementation is
/// not that reference: a cache hit at the remaining depth tightens the
/// window with the stored bound in the inverted sense described in the
/// module comment; distinct positions with equal fingerprints read each
/// other's entries; and scores beyond the fixed eighty-thousand window are
/// clipped at cutoffs. What is pinned instead: a leaf with no cached entry
/// scores exactly `evaluate_of` and records it (see `alpha_beta_helper`),
/// and an exact cached hit is returned unchanged.
pub fn alpha_beta(board: &chess::Board, depth: u8) -> (r: Option<Move>)
    requires
        engine_pos_of(*board),
        depth >= 1,
    ensures
        r is Some <==> legal_moves_of(*board).len() > 0,
        r matches Some(m) ==> legal_moves_of(*board).contains(m) && m.wf(),
{
    let mut transposition_table = TranspositionTable::new();

    let mut best_score: Score = -40_000;
    let mut best_move: Option<Move> = None;

    let mut alpha: Score = -80_000;
    let beta: Score = 80_000;

    let moves = current_moves(board);
    let mut idx: usize = 0;
    while idx < moves.len()
        invariant
            engine_pos_of(*board),
            transposition_table.wf(),
            scores_bounded(transposition_table.slots()),
            -SCORE_BOUND <= alpha <= SCORE_BOUND,
            -SCORE_BOUND <= best_score <= SCORE_BOUND,
            depth >= 1,
            beta == 80_000,
            0 <= idx <= moves@.len(),
            moves@.len() == legal_moves_of(*board).len(),
            forall|k: int|
                0 <= k < moves@.len() ==> (#[trigger] moves@[k]).wf() && legal_moves_of(
                    *board,
                ).contains(moves@[k]),
            best_move is None ==> idx == 0,
            idx > 0 ==> best_move is Some,
            best_move matches Some(m) ==> legal_moves_of(*board).contains(m) && m.wf(),
        decreases moves@.len() - idx,
    {
        let m = moves[idx];
        let child = make_move(board, m);
        let deeper = alpha_beta_helper(child, -beta, -alpha, depth - 1, &mut transposition_table);
        let score = -deeper;

        if best_move.is_none() || score > best_score {
            best_score = score;
            best_move = Some(m);
        }

        if score > alpha {
            alpha = score;
        }
        idx = idx + 1;
    }

    best_move
}

} // verus!

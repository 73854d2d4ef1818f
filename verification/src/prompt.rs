//! Interpreting a human's typed input: a few resignation phrases, or a move
//! in standard algebraic notation. Reading the input line is the
//! embedding's business; this module only decides what a line means.

use vstd::prelude::*;

verus! {

use crate::rules::{engine_pos_of, legal_moves_of, parse_san, san_move_of};
use crate::types::Move;

/// The input phrases that signal resignation.
pub open spec fn is_resignation_spec(s: Seq<char>) -> bool {
    s == "resign"@ || s == "quit"@ || s == "flip board"@
}

/// is_resignation will parse the input string for a few patterns of
/// resigning, and will return true if the input signals a resignation.
pub fn is_resignation(input: &str) -> (r: bool)
    ensures
        r == is_resignation_spec(input@),
{
    let s = input.to_owned();
    s == "resign".to_owned() || s == "quit".to_owned() || s == "flip board".to_owned()
}

/// Turn one line of human input into a move on the given position: a
/// resignation phrase selects nothing; anything else selects exactly what
/// the rules engine's notation parser accepts — a legal move, or nothing
/// when the line is not the standard algebraic notation of one.
pub fn interpret_input(board: &chess::Board, input: &str) -> (r: Option<Move>)
    requires
        engine_pos_of(*board),
    ensures
        is_resignation_spec(input@) ==> r is None,
        !is_resignation_spec(input@) ==> r == san_move_of(*board, input@),
        r matches Some(m) ==> !is_resignation_spec(input@) && m.wf() && legal_moves_of(
            *board,
        ).contains(m),
{
    if is_resignation(input) {
        None
    } else {
        parse_san(board, input)
    }
}

} // verus!

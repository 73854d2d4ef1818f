//! A named agent: a passive human, or a computer bound to a move-selection
//! strategy. Dispatch is by pattern matching on the variant.

use vstd::prelude::*;

verus! {

/// A move-selection capability a computer player can be bound to. The
/// alpha-beta variant carries its search depth in plies.
#[derive(Clone, Copy, PartialEq, Eq, Structural, Debug)]
pub enum Strategy {
    FirstLegal,
    Random,
    Hope,
    AlphaBeta(u8),
}

/// A player seat: unset, a named human, or a named computer with its
/// strategy.
#[derive(Clone, Debug)]
pub enum Player {
    Unset,
    Human(String),
    Computer(String, Strategy),
}

/// The display name of a player.
pub open spec fn name_of(p: Player) -> Seq<char> {
    match p {
        Player::Unset => "(none)"@,
        Player::Human(name) => name@,
        Player::Computer(name, _) => name@,
    }
}

impl Player {
    /// Display name for either variant.
    pub fn name(&self) -> (r: String)
        ensures
            r@ == name_of(*self),
    {
        match self {
            Player::Unset => "(none)".to_owned(),
            Player::Human(name) => name.clone(),
            Player::Computer(name, _) => name.clone(),
        }
    }

    /// The bound strategy for a computer, nothing for a human or an unset
    /// seat. "No strategy" means "do not act automatically", never an
    /// error.
    pub fn move_function(&self) -> (r: Option<Strategy>)
        ensures
            r == (match *self {
                Player::Computer(_, s) => Some(s),
                _ => None,
            }),
    {
        match self {
            Player::Computer(_, s) => Some(*s),
            _ => None,
        }
    }

    /// Whether this seat is a human player.
    pub fn is_human(&self) -> (r: bool)
        ensures
            r == (*self matches Player::Human(_)),
    {
        match self {
            Player::Human(_) => true,
            _ => false,
        }
    }
}

} // verus!

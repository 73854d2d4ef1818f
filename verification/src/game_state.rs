//! The match record: player names, a started flag, and the game itself.

use vstd::prelude::*;

verus! {

use crate::rules::{
    engine_game_of, engine_pos_of, fresh_game_of, game_can_draw_of, game_position_of,
    game_result_of, new_game,
};

/// The authoritative record of one match. Once the game has a result it is
/// never cleared except by replacing the whole record.
pub struct GameState {
    pub white_name: String,
    pub black_name: String,
    pub started: bool,
    pub game: chess::Game,
}

impl GameState {
    /// A fresh, unstarted record between the two named players: the
    /// standard start position and an empty history.
    pub fn new(white_name: String, black_name: String) -> (r: GameState)
        ensures
            r.white_name == white_name,
            r.black_name == black_name,
            !r.started,
            fresh_game_of(r.game),
            engine_game_of(r.game),
            game_result_of(r.game) is None,
            !game_can_draw_of(r.game),
    {
        let game = new_game();
        GameState { white_name, black_name, started: false, game }
    }

    /// The position reached by the record's move history.
    pub fn current_position(&self) -> (r: chess::Board)
        ensures
            r == game_position_of(self.game),
            engine_game_of(self.game) ==> engine_pos_of(r),
    {
        crate::rules::current_position(&self.game)
    }
}

} // verus!

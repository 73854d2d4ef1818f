//! A small chess-playing core: a fixed-depth negamax/alpha-beta search with a
//! transposition cache, a material-plus-mobility evaluation, a set of simpler
//! strategies, and the match state that lets computer players and a human
//! share one game record. Move generation and the rules of chess come from
//! the `chess` crate, consumed through the trusted interface in `rules`.

pub mod types;
pub mod rules;
pub mod transposition;
pub mod evaluation;
pub mod strategies;
pub mod player;
pub mod game_state;
pub mod app_state;
pub mod prompt;

//! The shared match core: the authoritative record, the two player seats,
//! the presentation selection, and the worker turn protocol.
//!
//! The state has a single owner and every mutation goes through a method
//! here, so cross-field consistency is preserved. An embedding that shares
//! the state across threads puts it behind its own synchronization, spawns
//! one worker per computer seat when the match starts, and joins them after
//! a reset has swapped in the fresh record — a worker observes termination
//! through the new state, never a stale reference.

use vstd::prelude::*;

verus! {

use crate::game_state::GameState;
use crate::player::{name_of, Player, Strategy};
use crate::rules::{
    board_after, clone_game, engine_game_of, engine_pos_of, fresh_game_of, game_can_draw_of,
    game_declare_draw, game_make_move, game_position_of, game_resign, game_result,
    game_result_of, game_side_to_move, in_check_of, legal_moves_of, mover_of,
};
use crate::types::{Color, GameOutcome, Move, Piece};

/// Presentation-only state: the currently highlighted square, as
/// (rank, file) indices.
pub struct UiState {
    pub selected_square: Option<(usize, usize)>,
}

impl Default for UiState {
    /// No square selected.
    fn default() -> (r: UiState)
        ensures
            r.selected_square is None,
    {
        UiState { selected_square: None }
    }
}

/// How one record relates to another when a move is submitted: a
/// well-formed, timely, legal move advances the position — ending the match
/// exactly when the new position has no legal moves, as checkmate against
/// the new mover or stalemate — and anything else leaves the record as it
/// was.
pub open spec fn move_applied(pre: chess::Game, post: chess::Game, m: Move) -> bool {
    if m.wf() && game_result_of(pre) is None && legal_moves_of(game_position_of(pre)).contains(
        m,
    ) {
        game_position_of(post) == board_after(game_position_of(pre), m) && (game_result_of(post)
            is Some <==> legal_moves_of(game_position_of(post)).len() == 0) && (legal_moves_of(
            game_position_of(post),
        ).len() == 0 ==> game_result_of(post) == (if in_check_of(game_position_of(post)) {
            if mover_of(game_position_of(post)) == Color::White {
                Some(GameOutcome::BlackCheckmates)
            } else {
                Some(GameOutcome::WhiteCheckmates)
            }
        } else {
            Some(GameOutcome::Stalemate)
        }))
    } else {
        post == pre
    }
}

/// Both click selections name squares on the board: a from and a to, each
/// with rank and file indices below eight.
pub open spec fn clicked_pair_ok(
    from_sel: Option<(usize, usize)>,
    to_sel: Option<(usize, usize)>,
) -> bool {
    from_sel matches Some(f) && to_sel matches Some(t) && f.0 < 8 && f.1 < 8 && t.0 < 8 && t.1
        < 8
}

/// The move a click pair names: from and to as (rank, file) indices below
/// eight, with the optional promotion piece.
pub open spec fn clicked_move(
    from_sq: (usize, usize),
    to_sq: (usize, usize),
    promotion: Option<Piece>,
) -> Move {
    Move {
        from: (from_sq.0 * 8 + from_sq.1) as u8,
        to: (to_sq.0 * 8 + to_sq.1) as u8,
        promotion,
    }
}

/// The match state: record, seats, and selection.
pub struct AppState {
    game_state: GameState,
    ui_state: UiState,
    white: Player,
    black: Player,
}

/// What the status line reads for a given started flag and result.
pub open spec fn status_text_of(started: bool, result: Option<GameOutcome>) -> Seq<char> {
    if !started {
        "Not started"@
    } else {
        match result {
            Some(GameOutcome::WhiteCheckmates) => "White wins (checkmate)"@,
            Some(GameOutcome::BlackResigns) => "White wins (black resigned)"@,
            Some(GameOutcome::BlackCheckmates) => "Black wins (checkmate)"@,
            Some(GameOutcome::WhiteResigns) => "Black wins (white resigned)"@,
            Some(GameOutcome::Stalemate) => "Draw by stalemate"@,
            Some(GameOutcome::DrawDeclared) => "Draw declared"@,
            Some(GameOutcome::DrawAccepted) => "Draw by agreement"@,
            None => "In progress"@,
        }
    }
}

impl AppState {
    /// The record, as a value.
    pub closed spec fn spec_record(&self) -> GameState {
        self.game_state
    }

    /// The game inside the record.
    pub open spec fn spec_game(&self) -> chess::Game {
        self.spec_record().game
    }

    /// Whether the match has started.
    pub open spec fn spec_started(&self) -> bool {
        self.spec_record().started
    }

    /// The record's terminal result, if any.
    pub open spec fn spec_result(&self) -> Option<GameOutcome> {
        game_result_of(self.spec_game())
    }

    /// The record's current position.
    pub open spec fn spec_position(&self) -> chess::Board {
        game_position_of(self.spec_game())
    }

    /// The white seat.
    pub closed spec fn spec_white(&self) -> Player {
        self.white
    }

    /// The black seat.
    pub closed spec fn spec_black(&self) -> Player {
        self.black
    }

    /// The highlighted square.
    pub closed spec fn spec_selected(&self) -> Option<(usize, usize)> {
        self.ui_state.selected_square
    }

    /// The record's game is one the rules engine can be asked about: its
    /// positions stay within the move generator's bounds. Constructors
    /// establish this and every method keeps it.
    pub open spec fn wf(&self) -> bool {
        engine_game_of(self.spec_game())
    }

    /// Whether the seat whose turn it is belongs to a human.
    pub open spec fn spec_human_to_move(&self) -> bool {
        match mover_of(game_position_of(self.spec_game())) {
            Color::White => self.spec_white() matches Player::Human(_),
            Color::Black => self.spec_black() matches Player::Human(_),
        }
    }

    /// Everything but the highlighted square is as it was.
    pub open spec fn same_but_selection(&self, other: &AppState) -> bool {
        self.spec_record() == other.spec_record() && self.spec_white() == other.spec_white()
            && self.spec_black() == other.spec_black()
    }

    /// Both seats and the started flag are as they were.
    pub open spec fn same_frame(&self, other: &AppState) -> bool {
        self.spec_white() == other.spec_white() && self.spec_black() == other.spec_black()
            && self.spec_started() == other.spec_started()
            && self.spec_record().white_name == other.spec_record().white_name
            && self.spec_record().black_name == other.spec_record().black_name
    }

    /// A fresh, unstarted match between the default computer players,
    /// "Hope" as white and "First legal" as black.
    pub fn new() -> (r: AppState)
        ensures
            r.wf(),
            r.spec_white() matches Player::Computer(n, s) && n@ == "Hope"@ && s
                == Strategy::Hope,
            r.spec_black() matches Player::Computer(n, s) && n@ == "First legal"@ && s
                == Strategy::FirstLegal,
            r.spec_record().white_name@ == "Hope"@,
            r.spec_record().black_name@ == "First legal"@,
            !r.spec_started(),
            fresh_game_of(r.spec_game()),
            r.spec_result() is None,
            !game_can_draw_of(r.spec_game()),
            r.spec_selected() is None,
    {
        let white = Player::Computer("Hope".to_owned(), Strategy::Hope);
        let black = Player::Computer("First legal".to_owned(), Strategy::FirstLegal);
        let white_name = white.name();
        let black_name = black.name();
        AppState {
            game_state: GameState::new(white_name, black_name),
            ui_state: UiState::default(),
            white,
            black,
        }
    }

    /// A snapshot of the game record.
    pub fn game(&self) -> (r: chess::Game)
        ensures
            r == self.spec_game(),
    {
        clone_game(&self.game_state.game)
    }

    /// Whether the match has started.
    pub fn is_started(&self) -> (r: bool)
        ensures
            r == self.spec_started(),
    {
        self.game_state.started
    }

    /// Whether the match has a terminal result.
    pub fn is_finished(&self) -> (r: bool)
        requires
            self.wf(),
        ensures
            r == (self.spec_result() is Some),
    {
        game_result(&self.game_state.game).is_some()
    }

    /// Mark the match started. The embedding spawns one worker per computer
    /// seat around this call.
    pub fn start_game(&mut self)
        ensures
            final (self).spec_started(),
            final (self).spec_game() == old(self).spec_game(),
            final (self).spec_white() == old(self).spec_white(),
            final (self).spec_black() == old(self).spec_black(),
            final (self).spec_selected() == old(self).spec_selected(),
            final (self).spec_record().white_name == old(self).spec_record().white_name,
            final (self).spec_record().black_name == old(self).spec_record().black_name,
    {
        self.game_state.started = true;
    }

    /// The status line for the current state.
    pub fn status_message(&self) -> (r: &'static str)
        requires
            self.wf(),
        ensures
            r@ == status_text_of(self.spec_started(), self.spec_result()),
    {
        if !self.game_state.started {
            "Not started"
        } else {
            match game_result(&self.game_state.game) {
                Some(GameOutcome::WhiteCheckmates) => "White wins (checkmate)",
                Some(GameOutcome::BlackResigns) => "White wins (black resigned)",
                Some(GameOutcome::BlackCheckmates) => "Black wins (checkmate)",
                Some(GameOutcome::WhiteResigns) => "Black wins (white resigned)",
                Some(GameOutcome::Stalemate) => "Draw by stalemate",
                Some(GameOutcome::DrawDeclared) => "Draw declared",
                Some(GameOutcome::DrawAccepted) => "Draw by agreement",
                None => "In progress",
            }
        }
    }

    /// Seat a player as white.
    pub fn set_white_player(&mut self, player: Player)
        ensures
            final (self).spec_white() == player,
            final (self).spec_black() == old(self).spec_black(),
            final (self).spec_record() == old(self).spec_record(),
            final (self).spec_selected() == old(self).spec_selected(),
    {
        self.white = player;
    }

    /// Seat a player as black.
    pub fn set_black_player(&mut self, player: Player)
        ensures
            final (self).spec_black() == player,
            final (self).spec_white() == old(self).spec_white(),
            final (self).spec_record() == old(self).spec_record(),
            final (self).spec_selected() == old(self).spec_selected(),
    {
        self.black = player;
    }

    /// The seated white player.
    pub fn white_player(&self) -> (r: &Player)
        ensures
            *r == self.spec_white(),
    {
        &self.white
    }

    /// The seated black player.
    pub fn black_player(&self) -> (r: &Player)
        ensures
            *r == self.spec_black(),
    {
        &self.black
    }

    /// The display names of both seats, white first.
    pub fn player_names(&self) -> (r: (String, String))
        ensures
            r.0@ == name_of(self.spec_white()),
            r.1@ == name_of(self.spec_black()),
    {
        let white = self.white.name();
        let black = self.black.name();
        (white, black)
    }

    /// Declare a draw for `color`: succeeds exactly on that color's turn
    /// and when the record allows the claim; otherwise fails with `false`
    /// and changes nothing.
    pub fn declare_draw(&mut self, color: Color) -> (r: bool)
        requires
            old(self).wf(),
        ensures
            final (self).wf(),
            r == (mover_of(game_position_of(old(self).spec_game())) == color && game_can_draw_of(
                old(self).spec_game(),
            )),
            !r ==> final (self).spec_game() == old(self).spec_game(),
            r ==> game_result_of(final (self).spec_game()) == Some(GameOutcome::DrawDeclared),
            r ==> game_position_of(final (self).spec_game()) == game_position_of(old(self).spec_game()),
            final (self).same_frame(old(self)),
            final (self).spec_selected() == old(self).spec_selected(),
    {
        if game_side_to_move(&self.game_state.game) == color {
            game_declare_draw(&mut self.game_state.game)
        } else {
            false
        }
    }

    /// Whose turn it is.
    pub fn side_to_move(&self) -> (r: Color)
        ensures
            r == mover_of(game_position_of(self.spec_game())),
    {
        game_side_to_move(&self.game_state.game)
    }

    /// Record a resignation for `color`. After a result is already set this
    /// changes nothing.
    pub fn resign(&mut self, color: Color)
        requires
            old(self).wf(),
        ensures
            final (self).wf(),
            game_result_of(old(self).spec_game()) is Some ==> final (self).spec_game() == old(self).spec_game(),
            game_result_of(old(self).spec_game()) is None ==> game_result_of(
                final (self).spec_game(),
            ) == (if color == Color::White {
                Some(GameOutcome::WhiteResigns)
            } else {
                Some(GameOutcome::BlackResigns)
            }) && game_position_of(final (self).spec_game()) == game_position_of(
                old(self).spec_game(),
            ),
            final (self).same_frame(old(self)),
            final (self).spec_selected() == old(self).spec_selected(),
    {
        let _ = game_resign(&mut self.game_state.game, color);
    }

    /// Record a move: exactly `move_applied`. A malformed, illegal, or
    /// late submission is silently ignored — the record does not change and
    /// no error surfaces.
    pub fn make_move(&mut self, m: Move)
        requires
            old(self).wf(),
        ensures
            final (self).wf(),
            final (self).same_frame(old(self)),
            final (self).spec_selected() == old(self).spec_selected(),
            move_applied(old(self).spec_game(), final (self).spec_game(), m),
    {
        if m.from < 64 && m.to < 64 {
            let _ = game_make_move(&mut self.game_state.game, m);
        }
    }

    /// The current position of the match.
    pub fn current_position(&self) -> (r: chess::Board)
        ensures
            r == game_position_of(self.spec_game()),
            self.wf() ==> engine_pos_of(r),
    {
        crate::rules::current_position(&self.game_state.game)
    }

    /// Whether the seat whose turn it is belongs to a human.
    pub fn human_to_move(&self) -> (r: bool)
        ensures
            r == self.spec_human_to_move(),
    {
        match game_side_to_move(&self.game_state.game) {
            Color::White => self.white.is_human(),
            Color::Black => self.black.is_human(),
        }
    }

    /// Swap in a fresh record and presentation state, keeping the seats.
    /// The embedding joins its worker threads only after this returns, so
    /// every worker observes termination through the new state.
    pub fn reset_game(&mut self)
        ensures
            final (self).wf(),
            !final (self).spec_started(),
            fresh_game_of(final (self).spec_game()),
            game_result_of(final (self).spec_game()) is None,
            !game_can_draw_of(final (self).spec_game()),
            final (self).spec_selected() is None,
            final (self).spec_white() == old(self).spec_white(),
            final (self).spec_black() == old(self).spec_black(),
            final (self).spec_record().white_name@ == name_of(old(self).spec_white()),
            final (self).spec_record().black_name@ == name_of(old(self).spec_black()),
    {
        let white_name = self.white.name();
        let black_name = self.black.name();
        self.game_state = GameState::new(white_name, black_name);
        self.ui_state = UiState::default();
    }

    /// Change which square is highlighted — purely presentational, and only
    /// while a match is running.
    pub fn ui_select_square(&mut self, selection: Option<(usize, usize)>)
        requires
            old(self).wf(),
        ensures
            final (self).same_but_selection(old(self)),
            old(self).spec_started() && old(self).spec_result() is None ==> final (self).spec_selected() == selection,
            !(old(self).spec_started() && old(self).spec_result() is None) ==> final (self).spec_selected() == old(self).spec_selected(),
    {
        if self.is_started() && !self.is_finished() {
            self.ui_state.selected_square = selection;
        }
    }

    /// Try to play the move from the highlighted square to `to_selection`
    /// on a human's turn, then clear the highlight. Invalid, illegal, or
    /// out-of-turn submissions are silently ignored: on a match that is not
    /// running nothing changes at all; on a running match the record moves
    /// only on a human's turn, only by the move the two clicked squares
    /// name, and the highlight is cleared unless that move just ended the
    /// match.
    pub fn ui_attempt_move(&mut self, to_selection: Option<(usize, usize)>, promote_to: Option<
        Piece,
    >)
        requires
            old(self).wf(),
        ensures
            final (self).wf(),
            final (self).same_frame(old(self)),
            !(old(self).spec_started() && old(self).spec_result() is None) ==> *final (self)
                == *old(self),
            old(self).spec_started() && old(self).spec_result() is None && old(self).spec_human_to_move() ==> (old(self).spec_selected() matches Some(from_sq) ==> (
            to_selection matches Some(to_sq) ==> (from_sq.0 < 8 && from_sq.1 < 8 && to_sq.0 < 8
                && to_sq.1 < 8 ==> move_applied(
                old(self).spec_game(),
                final (self).spec_game(),
                clicked_move(from_sq, to_sq, promote_to),
            )))),
            old(self).spec_started() && old(self).spec_result() is None && !(old(self).spec_human_to_move() && clicked_pair_ok(old(self).spec_selected(), to_selection))
                ==> final (self).spec_game() == old(self).spec_game(),
            old(self).spec_started() && old(self).spec_result() is None ==> (if final (self).spec_result() is None {
                final (self).spec_selected() is None
            } else {
                final (self).spec_selected() == old(self).spec_selected()
            }),
    {
        if !self.is_started() || self.is_finished() {
            return ;
        }
        if self.human_to_move() {
            let from_sel = self.ui_selected_square();
            if let (Some((r1, f1)), Some((r2, f2))) = (from_sel, to_selection) {
                if r1 < 8 && f1 < 8 && r2 < 8 && f2 < 8 {
                    let from = (r1 * 8 + f1) as u8;
                    let to = (r2 * 8 + f2) as u8;
                    self.make_move(Move { from, to, promotion: promote_to });
                }
            }
        }
        self.ui_select_square(None);
    }

    /// The highlighted square, if any.
    pub fn ui_selected_square(&self) -> (r: Option<(usize, usize)>)
        ensures
            r == self.spec_selected(),
    {
        self.ui_state.selected_square
    }
}

/// What a computer player's worker does after one observation of the match.
#[derive(Clone, Copy, PartialEq, Eq, Debug)]
pub enum WorkerCommand {
    /// The match is over or not running: leave the loop.
    Exit,
    /// Not this worker's turn: poll again later.
    Wait,
    /// A draw may be claimed: declare it and stop acting this turn.
    ClaimDraw,
    /// Commit this move through the match core.
    Commit(Move),
    /// The strategy found no move: resign for this color.
    Resign,
}

/// The worker turn protocol, as a pure function of what a worker observed:
/// exit when the match is over or not started, wait when it is not this
/// color's turn, claim an available draw first, and otherwise commit the
/// strategy's move — or resign when the strategy has none.
pub open spec fn worker_command_of(
    started: bool,
    result: Option<GameOutcome>,
    to_move: Color,
    color: Color,
    can_draw: bool,
    chosen: Option<Move>,
) -> WorkerCommand {
    if !started || result is Some {
        WorkerCommand::Exit
    } else if to_move != color {
        WorkerCommand::Wait
    } else if can_draw {
        WorkerCommand::ClaimDraw
    } else {
        match chosen {
            Some(m) => WorkerCommand::Commit(m),
            None => WorkerCommand::Resign,
        }
    }
}

/// One decision of the worker turn protocol: exactly `worker_command_of`
/// over what the worker observed.
pub fn next_worker_command(
    started: bool,
    result: Option<GameOutcome>,
    to_move: Color,
    color: Color,
    can_draw: bool,
    chosen: Option<Move>,
) -> (r: WorkerCommand)
    ensures
        r == worker_command_of(started, result, to_move, color, can_draw, chosen),
{
    if !started || result.is_some() {
        WorkerCommand::Exit
    } else if to_move != color {
        WorkerCommand::Wait
    } else if can_draw {
        WorkerCommand::ClaimDraw
    } else {
        match chosen {
            Some(m) => WorkerCommand::Commit(m),
            None => WorkerCommand::Resign,
        }
    }
}

/// Law: a worker that observes the match after a reset is told to exit —
/// the fresh record is unstarted, so no observation of it can make a worker
/// commit a move into the record created after the reset. The embedding
/// joins each worker only after the swap, so a worker's next observation is
/// of the new state.
pub proof fn lemma_worker_exits_after_reset(
    state: AppState,
    to_move: Color,
    color: Color,
    can_draw: bool,
    chosen: Option<Move>,
)
    requires
        !state.spec_started(),
    ensures
        worker_command_of(
            state.spec_started(),
            state.spec_result(),
            to_move,
            color,
            can_draw,
            chosen,
        ) == WorkerCommand::Exit,
{
}

impl Default for AppState {
    /// A fresh, unstarted match, exactly as `new` builds it.
    fn default() -> (r: AppState)
        ensures
            r.wf(),
            !r.spec_started(),
            fresh_game_of(r.spec_game()),
            r.spec_result() is None,
            r.spec_selected() is None,
    {
        AppState::new()
    }
}

} // verus!

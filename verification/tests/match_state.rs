use patzer::app_state::{next_worker_command, AppState, WorkerCommand};
use patzer::game_state::GameState;
use patzer::player::{Player, Strategy};
use patzer::prompt::{interpret_input, is_resignation};
use patzer::types::{Color, GameOutcome, Move};

#[test]
fn it_validates_resignations() {
    let resignations = vec!["resign", "quit", "flip board"];

    let not_resignations = vec!["e4"];

    for s in resignations {
        assert!(is_resignation(s), "should be a resignation. input: {}", s);
    }

    for s in not_resignations {
        assert_eq!(
            is_resignation(s),
            false,
            "should not be a resignation. input: {}",
            s
        );
    }
}

#[test]
fn resignation_input_selects_no_move() {
    let board = chess::Board::default();
    assert!(interpret_input(&board, "resign").is_none());
    assert!(interpret_input(&board, "quit").is_none());
    assert!(interpret_input(&board, "nonsense").is_none());
}

#[test]
fn san_input_selects_the_legal_move() {
    let board = chess::Board::default();
    let chosen = interpret_input(&board, "e4").expect("e4 is legal at the start");
    // e2 (rank 1, file 4) to e4 (rank 3, file 4)
    assert_eq!(chosen, Move { from: 12, to: 28, promotion: None });
}

#[test]
fn player_names_and_capabilities() {
    let unset = Player::Unset;
    let human = Player::Human("Ada".to_string());
    let computer = Player::Computer("Engine".to_string(), Strategy::Random);

    assert_eq!(unset.name(), "(none)");
    assert_eq!(human.name(), "Ada");
    assert_eq!(computer.name(), "Engine");

    assert!(unset.move_function().is_none());
    assert!(human.move_function().is_none());
    assert_eq!(computer.move_function(), Some(Strategy::Random));

    assert!(human.is_human());
    assert!(!computer.is_human());
    assert!(!unset.is_human());
}

#[test]
fn fresh_record_starts_at_the_initial_position() {
    let record = GameState::new("White".to_string(), "Black".to_string());
    assert_eq!(record.white_name, "White");
    assert_eq!(record.black_name, "Black");
    assert!(!record.started);
    assert_eq!(record.current_position(), chess::Board::default());
}

#[test]
fn status_message_follows_the_match() {
    let mut state = AppState::new();
    assert_eq!(state.status_message(), "Not started");

    state.start_game();
    assert_eq!(state.status_message(), "In progress");

    state.resign(Color::White);
    assert_eq!(state.status_message(), "Black wins (white resigned)");
    assert!(state.is_finished());

    let mut other = AppState::new();
    other.start_game();
    other.resign(Color::Black);
    assert_eq!(other.status_message(), "White wins (black resigned)");
}

#[test]
fn declare_draw_fails_out_of_turn() {
    let mut state = AppState::new();
    state.start_game();
    // white to move: black may not declare
    assert!(!state.declare_draw(Color::Black));
    // and even in turn the record must allow the claim
    assert!(!state.declare_draw(Color::White));
    assert!(!state.is_finished());
}

#[test]
fn legal_move_advances_the_match() {
    let mut state = AppState::new();
    state.start_game();
    assert_eq!(state.side_to_move(), Color::White);

    // e2-e4
    state.make_move(Move { from: 12, to: 28, promotion: None });
    assert_eq!(state.side_to_move(), Color::Black);
}

#[test]
fn illegal_or_malformed_moves_are_ignored() {
    let mut state = AppState::new();
    state.start_game();
    let before = state.current_position();

    // e2-e5 is not legal
    state.make_move(Move { from: 12, to: 36, promotion: None });
    // squares off the board
    state.make_move(Move { from: 200, to: 12, promotion: None });
    assert_eq!(state.current_position(), before);
    assert_eq!(state.side_to_move(), Color::White);
}

#[test]
fn selection_tracks_only_running_matches() {
    let mut state = AppState::new();
    // not started: selection requests are ignored
    state.ui_select_square(Some((1, 4)));
    assert!(state.ui_selected_square().is_none());

    state.start_game();
    state.ui_select_square(Some((1, 4)));
    assert_eq!(state.ui_selected_square(), Some((1, 4)));
}

#[test]
fn human_click_move_is_committed() {
    let mut state = AppState::new();
    state.set_white_player(Player::Human("Human".to_string()));
    state.start_game();
    assert!(state.human_to_move());

    let before = state.current_position();
    state.ui_select_square(Some((1, 4)));
    state.ui_attempt_move(Some((3, 4)), None);

    assert_ne!(state.current_position(), before);
    assert_eq!(state.side_to_move(), Color::Black);
    assert!(state.ui_selected_square().is_none());
}

#[test]
fn computer_turn_ignores_click_moves() {
    let mut state = AppState::new();
    state.start_game();
    assert!(!state.human_to_move());

    let before = state.current_position();
    state.ui_select_square(Some((1, 4)));
    state.ui_attempt_move(Some((3, 4)), None);
    assert_eq!(state.current_position(), before);
}

#[test]
fn reset_swaps_in_a_fresh_record() {
    let mut state = AppState::new();
    state.start_game();
    state.make_move(Move { from: 12, to: 28, promotion: None });
    state.resign(Color::White);
    assert!(state.is_finished());

    state.reset_game();
    assert!(!state.is_started());
    assert!(!state.is_finished());
    assert_eq!(state.current_position(), chess::Board::default());

    let (white, black) = state.player_names();
    assert_eq!(white, "Hope");
    assert_eq!(black, "First legal");
}

#[test]
fn seats_can_be_changed() {
    let mut state = AppState::new();
    state.set_white_player(Player::Human("Ada".to_string()));
    state.set_black_player(Player::Computer("Search".to_string(), Strategy::AlphaBeta(3)));
    let (white, black) = state.player_names();
    assert_eq!(white, "Ada");
    assert_eq!(black, "Search");
}

#[test]
fn worker_exits_when_match_is_over_or_unstarted() {
    let some_move = Move { from: 12, to: 28, promotion: None };
    assert_eq!(
        next_worker_command(false, None, Color::White, Color::White, false, Some(some_move)),
        WorkerCommand::Exit
    );
    assert_eq!(
        next_worker_command(
            true,
            Some(GameOutcome::Stalemate),
            Color::White,
            Color::White,
            false,
            Some(some_move)
        ),
        WorkerCommand::Exit
    );
}

#[test]
fn worker_waits_out_of_turn_and_acts_in_turn() {
    let some_move = Move { from: 12, to: 28, promotion: None };
    assert_eq!(
        next_worker_command(true, None, Color::Black, Color::White, false, Some(some_move)),
        WorkerCommand::Wait
    );
    assert_eq!(
        next_worker_command(true, None, Color::White, Color::White, true, Some(some_move)),
        WorkerCommand::ClaimDraw
    );
    assert_eq!(
        next_worker_command(true, None, Color::White, Color::White, false, Some(some_move)),
        WorkerCommand::Commit(some_move)
    );
    assert_eq!(
        next_worker_command(true, None, Color::White, Color::White, false, None),
        WorkerCommand::Resign
    );
}

#[test]
fn repetition_allows_the_draw_claim() {
    let mut state = AppState::new();
    state.start_game();

    // knights out and back, twice: threefold repetition
    let shuttle = [
        Move { from: 1, to: 18, promotion: None },  // Nb1-c3
        Move { from: 57, to: 42, promotion: None }, // Nb8-c6
        Move { from: 18, to: 1, promotion: None },  // Nc3-b1
        Move { from: 42, to: 57, promotion: None }, // Nc6-b8
    ];
    for m in shuttle.iter().chain(shuttle.iter()) {
        state.make_move(*m);
    }

    assert_eq!(state.side_to_move(), Color::White);
    assert!(state.declare_draw(Color::White));
    assert!(state.is_finished());
    assert_eq!(state.status_message(), "Draw declared");
}

#[test]
fn checkmate_finishes_the_match() {
    let mut state = AppState::new();
    state.start_game();

    // the fastest mate: white opens the king's diagonal, black's queen ends it
    state.make_move(Move { from: 13, to: 21, promotion: None }); // f2-f3
    state.make_move(Move { from: 52, to: 36, promotion: None }); // e7-e5
    state.make_move(Move { from: 14, to: 30, promotion: None }); // g2-g4
    state.make_move(Move { from: 59, to: 31, promotion: None }); // Qd8-h4#

    assert!(state.is_finished());
    assert_eq!(state.status_message(), "Black wins (checkmate)");
}

use phrasey::app_state::{AnyState, AppState, StateTransition};
use phrasey::config::Config;
use phrasey::database::Database;
use phrasey::event::{Event, EventDispatcher, Key};
use phrasey::game_state::{GamePhase, GameState};
use phrasey::machine::App;
use phrasey::main_menu_state::MainMenuState;
use phrasey::settings_state::{SettingsPhase, SettingsState};
use phrasey::types::LogLevel;

fn machine_config(phrases_per_round: usize) -> Config {
    Config {
        db_conn_string: "file:///path/to/db.csv".to_string(),
        log_level: LogLevel::Off,
        log_dir_uri: None,
        input_box_width: 30,
        phrases_per_round,
    }
}

fn two_phrase_db() -> Database {
    Database {
        records: vec![
            ("cat".to_string(), "chat".to_string()),
            ("dog".to_string(), "chien".to_string()),
        ],
    }
}

fn type_text(state: &mut GameState, config: &mut Config, db: &Database, text: &str) {
    for c in text.chars() {
        let t = state.handle_event(Event::Character(c), config, db);
        assert!(matches!(t, StateTransition::Stay));
    }
}

#[test]
fn key_presses_translate_to_the_event_vocabulary() {
    let dispatcher = EventDispatcher::new();
    assert_eq!(dispatcher.translate(Key::Enter, false), Some(Event::Enter));
    assert_eq!(dispatcher.translate(Key::Esc, false), Some(Event::Quit));
    assert_eq!(dispatcher.translate(Key::Backspace, false), Some(Event::RemoveCharacter));
    assert_eq!(dispatcher.translate(Key::Char('x'), false), Some(Event::Character('x')));
    assert_eq!(dispatcher.translate(Key::Other, false), None);
    // releases are discarded outright
    assert_eq!(dispatcher.translate(Key::Enter, true), None);
    assert_eq!(dispatcher.translate(Key::Char('x'), true), None);
}

#[test]
fn main_menu_enter_starts_a_game() {
    let mut config = machine_config(2);
    let db = two_phrase_db();
    let mut menu = MainMenuState::new(&config);
    let t = menu.handle_event(Event::Enter, &mut config, &db);
    match t {
        StateTransition::Transition(AnyState::Game(gs)) => {
            assert_eq!(gs.game.unrecognized_phrases.len(), 2);
            assert_eq!(gs.game_phase, GamePhase::Input);
        },
        _ => panic!("Enter at the main menu must start a game"),
    }
}

#[test]
fn main_menu_buffers_text_and_discards_it_on_enter() {
    let mut config = machine_config(2);
    let db = two_phrase_db();
    let mut menu = MainMenuState::new(&config);

    assert!(matches!(menu.handle_event(Event::Character('h'), &mut config, &db), StateTransition::Stay));
    assert!(matches!(menu.handle_event(Event::Character('i'), &mut config, &db), StateTransition::Stay));
    assert_eq!(menu.user_input.as_deref(), Some("hi"));

    // erasing to nothing leaves the buffer unset, not empty
    assert!(matches!(menu.handle_event(Event::RemoveCharacter, &mut config, &db), StateTransition::Stay));
    assert_eq!(menu.user_input.as_deref(), Some("h"));
    assert!(matches!(menu.handle_event(Event::RemoveCharacter, &mut config, &db), StateTransition::Stay));
    assert!(menu.user_input.is_none());

    assert!(matches!(menu.handle_event(Event::Character('x'), &mut config, &db), StateTransition::Stay));
    assert!(matches!(menu.handle_event(Event::Enter, &mut config, &db), StateTransition::Stay));
    assert!(menu.user_input.is_none());
}

#[test]
fn main_menu_s_opens_settings_and_q_quits() {
    let mut config = machine_config(2);
    let db = two_phrase_db();

    let mut menu = MainMenuState::new(&config);
    match menu.handle_event(Event::Character('s'), &mut config, &db) {
        StateTransition::Transition(AnyState::Settings(ss)) => {
            assert_eq!(ss.settings_phase, SettingsPhase::ChoosingOption);
            assert_eq!(ss.config_clone.phrases_per_round, 2);
        },
        _ => panic!("`s` at the main menu must open the settings"),
    }

    let mut menu = MainMenuState::new(&config);
    match menu.handle_event(Event::Character('Q'), &mut config, &db) {
        StateTransition::Transition(AnyState::Quit(_)) => {},
        _ => panic!("`Q` at the main menu must quit"),
    }

    // once text is buffered, `s` is just another character
    let mut menu = MainMenuState::new(&config);
    assert!(matches!(menu.handle_event(Event::Character('a'), &mut config, &db), StateTransition::Stay));
    assert!(matches!(menu.handle_event(Event::Character('s'), &mut config, &db), StateTransition::Stay));
    assert_eq!(menu.user_input.as_deref(), Some("as"));
}

#[test]
fn game_walks_input_feedback_and_round_end() {
    let mut config = machine_config(1);
    let db = two_phrase_db();
    let mut state = GameState::new(&config, &db);
    assert_eq!(state.game_phase, GamePhase::Input);
    assert_eq!(state.game.unrecognized_phrases.len(), 1);

    let answer = state.game.get_current_translation().unwrap().to_string();
    type_text(&mut state, &mut config, &db, &answer);

    // submitting judges the answer
    assert!(matches!(state.handle_event(Event::Enter, &mut config, &db), StateTransition::Stay));
    assert_eq!(state.game_phase, GamePhase::Feedback(true));
    assert!(state.user_input.is_none());

    // confirming the verdict advances; the only phrase completes the round
    assert!(matches!(state.handle_event(Event::Enter, &mut config, &db), StateTransition::Stay));
    assert_eq!(state.game_phase, GamePhase::RoundEnd);
    assert_eq!(state.game.unrecognized_phrases.len(), 0);

    // Enter at the round-end screen starts the next round
    assert!(matches!(state.handle_event(Event::Enter, &mut config, &db), StateTransition::Stay));
    assert_eq!(state.game_phase, GamePhase::Input);
    assert_eq!(state.game.unrecognized_phrases.len(), 1);
}

#[test]
fn wrong_answers_show_feedback_and_stay_in_the_round() {
    let mut config = machine_config(2);
    let db = two_phrase_db();
    let mut state = GameState::new(&config, &db);

    type_text(&mut state, &mut config, &db, "wrong answer");
    assert!(matches!(state.handle_event(Event::Enter, &mut config, &db), StateTransition::Stay));
    assert_eq!(state.game_phase, GamePhase::Feedback(false));

    // typing means nothing while the verdict is on screen
    assert!(matches!(state.handle_event(Event::Character('x'), &mut config, &db), StateTransition::Stay));
    assert_eq!(state.game_phase, GamePhase::Feedback(false));

    assert!(matches!(state.handle_event(Event::Enter, &mut config, &db), StateTransition::Stay));
    assert_eq!(state.game_phase, GamePhase::Input);
    assert_eq!(state.game.unrecognized_phrases.len(), 2);
}

#[test]
fn empty_submission_counts_as_wrong() {
    let mut config = machine_config(1);
    let db = two_phrase_db();
    let mut state = GameState::new(&config, &db);
    assert!(matches!(state.handle_event(Event::Enter, &mut config, &db), StateTransition::Stay));
    assert_eq!(state.game_phase, GamePhase::Feedback(false));
}

#[test]
fn quitting_mid_round_still_ends_the_round() {
    let mut config = machine_config(2);
    let db = two_phrase_db();
    let mut state = GameState::new(&config, &db);
    assert_eq!(state.game_phase, GamePhase::Input);
    assert_eq!(state.game.unrecognized_phrases.len(), 2);

    let t = state.handle_event(Event::Quit, &mut config, &db);
    match t {
        StateTransition::Transition(AnyState::Quit(_)) => {},
        _ => panic!("quitting mid-round must hand over to the quit state"),
    }
    // the drill's bookkeeping was wound down before the hand-over
    assert_eq!(state.game.unrecognized_phrases.len(), 0);
    assert_eq!(state.game.recognized_phrases.len(), 0);
    assert!(state.game.current_phrase_idx.is_none());
}

#[test]
fn leaving_the_game_backwards_ends_the_round_too() {
    let mut config = machine_config(2);
    let db = two_phrase_db();
    let mut state = GameState::new(&config, &db);
    match state.handle_event(Event::Back, &mut config, &db) {
        StateTransition::Transition(AnyState::MainMenu(_)) => {},
        _ => panic!("Back from the game must return to the main menu"),
    }
    assert_eq!(state.game.unrecognized_phrases.len(), 0);
    assert_eq!(state.game.recognized_phrases.len(), 0);
}

#[test]
fn round_end_screen_returns_to_menu_on_b() {
    let mut config = machine_config(1);
    let db = two_phrase_db();
    let mut state = GameState::new(&config, &db);
    let answer = state.game.get_current_translation().unwrap().to_string();
    type_text(&mut state, &mut config, &db, &answer);
    assert!(matches!(state.handle_event(Event::Enter, &mut config, &db), StateTransition::Stay));
    assert!(matches!(state.handle_event(Event::Enter, &mut config, &db), StateTransition::Stay));
    assert_eq!(state.game_phase, GamePhase::RoundEnd);

    assert!(matches!(state.handle_event(Event::Character('x'), &mut config, &db), StateTransition::Stay));
    match state.handle_event(Event::Character('B'), &mut config, &db) {
        StateTransition::Transition(AnyState::MainMenu(_)) => {},
        _ => panic!("`B` at the round end must return to the main menu"),
    }
}

#[test]
fn settings_edit_commits_on_save_only() {
    let mut config = machine_config(2);
    let db = two_phrase_db();
    let mut settings = SettingsState::new(&config);

    assert!(matches!(settings.handle_event(Event::Character('p'), &mut config, &db), StateTransition::Stay));
    assert_eq!(settings.settings_phase, SettingsPhase::ChangingOption('p'));

    for c in "15".chars() {
        assert!(matches!(settings.handle_event(Event::Character(c), &mut config, &db), StateTransition::Stay));
    }
    assert!(matches!(settings.handle_event(Event::Enter, &mut config, &db), StateTransition::Stay));
    assert_eq!(settings.settings_phase, SettingsPhase::ChoosingOption);
    assert_eq!(settings.config_clone.phrases_per_round, 15);
    // the shared configuration is untouched until the working copy is saved
    assert_eq!(config.phrases_per_round, 2);

    assert!(matches!(settings.handle_event(Event::Character('q'), &mut config, &db), StateTransition::Stay));
    assert_eq!(config.phrases_per_round, 15);
}

#[test]
fn settings_discard_text_that_is_no_round_size() {
    let mut config = machine_config(2);
    let db = two_phrase_db();
    let mut settings = SettingsState::new(&config);

    assert!(matches!(settings.handle_event(Event::Character('P'), &mut config, &db), StateTransition::Stay));
    for c in "12x".chars() {
        assert!(matches!(settings.handle_event(Event::Character(c), &mut config, &db), StateTransition::Stay));
    }
    // erase the stray character, then spoil the number again
    assert!(matches!(settings.handle_event(Event::RemoveCharacter, &mut config, &db), StateTransition::Stay));
    assert_eq!(settings.user_input.as_deref(), Some("12"));
    assert!(matches!(settings.handle_event(Event::Character('!'), &mut config, &db), StateTransition::Stay));
    assert!(matches!(settings.handle_event(Event::Enter, &mut config, &db), StateTransition::Stay));

    // the edit was discarded: back to choosing, nothing committed
    assert_eq!(settings.settings_phase, SettingsPhase::ChoosingOption);
    assert_eq!(settings.config_clone.phrases_per_round, 2);
    assert!(settings.user_input.is_none());
}

#[test]
fn settings_back_and_quit_are_routed_in_both_phases() {
    let mut config = machine_config(2);
    let db = two_phrase_db();
    let mut settings = SettingsState::new(&config);
    match settings.handle_event(Event::Back, &mut config, &db) {
        StateTransition::Transition(AnyState::MainMenu(_)) => {},
        _ => panic!("Back while choosing must return to the main menu"),
    }

    // Back while changing discards the pending edit with the state
    let mut settings = SettingsState::new(&config);
    assert!(matches!(settings.handle_event(Event::Character('p'), &mut config, &db), StateTransition::Stay));
    assert!(matches!(settings.handle_event(Event::Character('9'), &mut config, &db), StateTransition::Stay));
    assert!(matches!(settings.handle_event(Event::Back, &mut config, &db), StateTransition::Transition(AnyState::MainMenu(_))));
    assert_eq!(config.phrases_per_round, 2);

    // the quit event leaves from either phase
    let mut settings = SettingsState::new(&config);
    assert!(matches!(settings.handle_event(Event::Quit, &mut config, &db), StateTransition::Transition(AnyState::Quit(_))));
    let mut settings = SettingsState::new(&config);
    assert!(matches!(settings.handle_event(Event::Character('p'), &mut config, &db), StateTransition::Stay));
    assert!(matches!(settings.handle_event(Event::Quit, &mut config, &db), StateTransition::Transition(AnyState::Quit(_))));
}

#[test]
fn the_driver_runs_menu_game_and_quit() {
    let config = machine_config(1);
    let db = two_phrase_db();
    let mut app = App::new(config, db);
    assert!(matches!(app.state, AnyState::MainMenu(_)));
    assert!(!app.render_lines().is_empty());

    // Enter: into the game
    assert!(!app.step(Event::Enter));
    assert!(matches!(app.state, AnyState::Game(_)));

    // answer the one phrase correctly, via the screens
    let answer = match &app.state {
        AnyState::Game(gs) => gs.game.get_current_translation().unwrap().to_string(),
        _ => unreachable!(),
    };
    for c in answer.chars() {
        assert!(!app.step(Event::Character(c)));
    }
    assert!(!app.step(Event::Enter));
    assert!(!app.step(Event::Enter));
    match &app.state {
        AnyState::Game(gs) => assert_eq!(gs.game_phase, GamePhase::RoundEnd),
        _ => panic!("the driver must still be in the game"),
    }

    // quit from the round-end screen; the next event ends the loop
    assert!(!app.step(Event::Quit));
    assert!(matches!(app.state, AnyState::Quit(_)));
    assert!(app.step(Event::Enter));
}

use phrasey::config::Config;
use phrasey::database::{Database, Phrase};
use phrasey::engine::{Engine, EngineError};
use phrasey::game::Game;
use phrasey::types::LogLevel;

fn drill_config(phrases_per_round: usize) -> Config {
    Config {
        db_conn_string: "file:///path/to/db.csv".to_string(),
        log_level: LogLevel::Off,
        log_dir_uri: None,
        input_box_width: 30,
        phrases_per_round,
    }
}

fn pair(original: &str, translation: &str) -> Phrase {
    (original.to_string(), translation.to_string())
}

fn three_phrase_game() -> Game {
    let mut game = Game::new(drill_config(3), Database { records: vec![] });
    game.load_round(vec![pair("cat", "chat"), pair("dog", "chien"), pair("sun", "soleil")]);
    game
}

#[test]
fn round_of_three_empties_in_three_correct_steps() {
    let mut game = three_phrase_game();

    assert_eq!(game.get_current_original().unwrap(), "cat");
    assert!(game.check_phrase(&"chat".to_string()).unwrap());
    assert!(game.advance_phrase(true).is_ok());

    assert_eq!(game.get_current_original().unwrap(), "dog");
    assert!(game.check_phrase(&"chien".to_string()).unwrap());
    assert!(game.advance_phrase(true).is_ok());

    assert_eq!(game.get_current_original().unwrap(), "sun");
    // correctness is case-insensitive and whitespace-trimmed
    assert!(game.check_phrase(&"SOLEIL ".to_string()).unwrap());
    assert!(matches!(game.advance_phrase(true), Err(EngineError::RoundComplete)));

    assert!(game.current_phrase_idx.is_none());
    assert_eq!(game.unrecognized_phrases.len(), 0);
    assert_eq!(game.recognized_phrases.len(), 3);
}

#[test]
fn pool_sizes_stay_disjoint_and_total_until_round_ends() {
    let mut game = three_phrase_game();
    let total = game.unrecognized_phrases.len() + game.recognized_phrases.len();
    assert_eq!(total, 3);

    assert!(game.advance_phrase(false).is_ok());
    assert_eq!(game.unrecognized_phrases.len() + game.recognized_phrases.len(), 3);

    assert!(game.advance_phrase(true).is_ok());
    assert_eq!(game.unrecognized_phrases.len() + game.recognized_phrases.len(), 3);

    game.end_round();
    assert_eq!(game.unrecognized_phrases.len(), 0);
    assert_eq!(game.recognized_phrases.len(), 0);
}

#[test]
fn check_phrase_is_idempotent_before_advancing() {
    let mut game = three_phrase_game();
    let first = game.check_phrase(&"chat".to_string()).unwrap();
    let second = game.check_phrase(&"chat".to_string()).unwrap();
    let third = game.check_phrase(&"chat".to_string()).unwrap();
    assert!(first && second && third);
    assert_eq!(game.get_current_original().unwrap(), "cat");
    assert_eq!(game.unrecognized_phrases.len(), 3);
    assert_eq!(game.recognized_phrases.len(), 0);

    let wrong_once = game.check_phrase(&"hund".to_string()).unwrap();
    let wrong_twice = game.check_phrase(&"hund".to_string()).unwrap();
    assert!(!wrong_once && !wrong_twice);
}

#[test]
fn missed_phrases_come_round_again_in_order() {
    let mut game = Game::new(drill_config(2), Database { records: vec![] });
    game.load_round(vec![pair("cat", "chat"), pair("dog", "chien")]);

    assert_eq!(game.get_current_original().unwrap(), "cat");
    assert!(game.advance_phrase(true).is_ok());

    assert_eq!(game.get_current_original().unwrap(), "dog");
    assert!(game.advance_phrase(false).is_ok());

    // the missed phrase wraps round and is asked again
    assert_eq!(game.get_current_original().unwrap(), "dog");
    assert!(matches!(game.advance_phrase(true), Err(EngineError::RoundComplete)));
}

#[test]
fn attempts_count_the_misses_before_recognition() {
    let mut game = Game::new(drill_config(1), Database { records: vec![] });
    game.load_round(vec![pair("sun", "soleil")]);

    assert!(game.advance_phrase(false).is_ok());
    assert!(game.advance_phrase(false).is_ok());
    assert!(matches!(game.advance_phrase(true), Err(EngineError::RoundComplete)));

    assert_eq!(game.recognized_phrases.len(), 1);
    assert_eq!(game.recognized_phrases[0].0.0, "sun");
    assert_eq!(game.recognized_phrases[0].1, 2);
}

#[test]
fn advancing_past_the_last_phrase_unsets_the_pointer() {
    let mut game = Game::new(drill_config(1), Database { records: vec![] });
    game.load_round(vec![pair("sun", "soleil")]);

    assert!(matches!(game.advance_phrase(true), Err(EngineError::RoundComplete)));
    assert!(game.current_phrase_idx.is_none());
    assert!(matches!(game.get_current_original(), Err(EngineError::NoActivePhrase)));
    assert!(matches!(game.get_current_translation(), Err(EngineError::NoActivePhrase)));
    assert!(matches!(game.check_phrase(&"soleil".to_string()), Err(EngineError::NoActivePhrase)));
}

#[test]
fn load_round_resets_attempts_and_recognised_pool() {
    let mut game = three_phrase_game();
    assert!(game.advance_phrase(false).is_ok());
    assert!(game.advance_phrase(true).is_ok());

    game.load_round(vec![pair("moon", "lune")]);
    assert_eq!(game.unrecognized_phrases.len(), 1);
    assert_eq!(game.recognized_phrases.len(), 0);
    assert_eq!(game.unrecognized_phrases[0].1, 0);
    assert_eq!(game.current_phrase_idx, Some(0));

    game.load_round(vec![]);
    assert!(game.current_phrase_idx.is_none());
    assert_eq!(game.unrecognized_phrases.len(), 0);
}

#[test]
fn engine_walks_a_round_like_the_drill() {
    let records = vec![pair("cat", "chat"), pair("dog", "chien")];
    let mut engine = Engine::new(drill_config(2), Database { records });
    engine.start_round();
    assert_eq!(engine.unrecognized_phrases.len(), 2);
    assert_eq!(engine.recognized_phrases.len(), 0);
    assert_eq!(engine.current_phrase_idx, Some(0));

    let first = match engine.get_phrase().unwrap() {
        Some(p) => p.1.clone(),
        None => panic!("a fresh round must have a current phrase"),
    };
    assert!(engine.check_phrase(&first).unwrap());
    assert!(engine.advance_phrase(true).is_ok());
    assert_eq!(engine.unrecognized_phrases.len(), 1);
    // the pointer stays on the phrase that slid into the freed place
    assert_eq!(engine.current_phrase_idx, Some(0));

    // emptying the pool signals completion and unsets the pointer
    assert!(matches!(engine.advance_phrase(true), Err(EngineError::RoundComplete)));
    assert!(engine.current_phrase_idx.is_none());
    assert!(engine.get_phrase().unwrap().is_none());
    assert!(matches!(engine.check_phrase(&"x".to_string()), Err(EngineError::NoActivePhrase)));

    engine.end_round();
    assert_eq!(engine.recognized_phrases.len(), 0);
}

#[test]
fn engine_counts_attempts_in_place() {
    let mut engine = Engine::new(drill_config(1), Database { records: vec![] });
    engine.load_round(vec![pair("sun", "soleil")]);
    assert!(engine.advance_phrase(false).is_ok());
    assert_eq!(engine.unrecognized_phrases[0].1, 1);
    assert!(engine.advance_phrase(false).is_ok());
    assert_eq!(engine.unrecognized_phrases[0].1, 2);
    assert!(matches!(engine.advance_phrase(true), Err(EngineError::RoundComplete)));
    assert_eq!(engine.recognized_phrases[0].1, 2);
}

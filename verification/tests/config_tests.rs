use phrasey::config::{load, parse_log_level, Config, ConfigError};
use phrasey::types::LogLevel;

fn sample_config() -> Config {
    Config {
        db_conn_string: "file:///path/to/db.csv".to_string(),
        log_level: LogLevel::Off,
        log_dir_uri: None,
        input_box_width: 30,
        phrases_per_round: 3,
    }
}

#[test]
fn test_load_with_non_existing_filepath() {
    let result = load("/nonexistent/path/to/config.toml");

    assert!(result.is_err());
    let error_msg = match result {
        Err(e) => e.message(),
        Ok(_) => panic!("loading a missing file must fail"),
    };
    assert!(error_msg.contains("Failed to build configuration"));
}

#[test]
fn parse_accepts_a_validated_config() {
    let mut config = sample_config();
    assert!(config.parse().is_ok());
}

#[test]
fn parse_rejects_a_zero_round_size() {
    let mut config = sample_config();
    config.phrases_per_round = 0;
    let result = config.parse();
    assert!(matches!(result, Err(ConfigError::InvalidRoundSize)));
    let msg = match result {
        Err(e) => e.message(),
        Ok(_) => panic!("a zero round size must be rejected"),
    };
    assert_eq!(msg, "Phrases per round must be greater than zero.");
}

#[test]
fn parse_rejects_a_narrow_input_box() {
    let mut config = sample_config();
    config.input_box_width = 29;
    let result = config.parse();
    assert!(matches!(result, Err(ConfigError::InvalidBoxWidth)));
    let msg = match result {
        Err(e) => e.message(),
        Ok(_) => panic!("a narrow input box must be rejected"),
    };
    assert_eq!(msg, "Input box width must be greater than or equal to 30.");
}

#[test]
fn round_size_is_checked_before_box_width() {
    let mut config = sample_config();
    config.phrases_per_round = 0;
    config.input_box_width = 1;
    assert!(matches!(config.parse(), Err(ConfigError::InvalidRoundSize)));
}

#[test]
fn log_levels_parse_by_their_lowercase_names() {
    assert_eq!(parse_log_level("off"), Some(LogLevel::Off));
    assert_eq!(parse_log_level("error"), Some(LogLevel::Error));
    assert_eq!(parse_log_level("warn"), Some(LogLevel::Warn));
    assert_eq!(parse_log_level("info"), Some(LogLevel::Info));
    assert_eq!(parse_log_level("debug"), Some(LogLevel::Debug));
    assert_eq!(parse_log_level("trace"), Some(LogLevel::Trace));
    assert_eq!(parse_log_level("Info"), None);
    assert_eq!(parse_log_level("verbose"), None);
    assert_eq!(parse_log_level(""), None);
}

#[test]
fn sanitize_string_accepts_every_value() {
    let config = sample_config();
    assert!(config.sanitize_string("file:///anything").is_ok());
    assert!(config.sanitize_string("").is_ok());
}

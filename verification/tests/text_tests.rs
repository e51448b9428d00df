use phrasey::database::{parse_conn_string, Database, DatabaseError};
use phrasey::text::{
    buffer_pop_char, buffer_push_char, normalize_text, parse_usize, repeat_char, str_eq,
    to_dec_string,
};

#[test]
fn normalisation_trims_and_lowercases() {
    assert_eq!(normalize_text("  SOLEIL "), "soleil");
    assert_eq!(normalize_text("Chat"), "chat");
    assert_eq!(normalize_text("chien"), "chien");
    assert_eq!(normalize_text("   "), "");
    assert_eq!(normalize_text(""), "");
}

#[test]
fn string_equality_goes_by_characters() {
    assert!(str_eq("abc", "abc"));
    assert!(!str_eq("abc", "abd"));
    assert!(!str_eq("abc", "ab"));
    assert!(str_eq("", ""));
    assert!(!str_eq("", "a"));
}

#[test]
fn repeated_characters_form_a_line() {
    assert_eq!(repeat_char('-', 4), "----");
    assert_eq!(repeat_char('x', 0), "");
    assert_eq!(repeat_char('─', 3), "───");
}

#[test]
fn decimal_strings_print_exactly() {
    assert_eq!(to_dec_string(0), "0");
    assert_eq!(to_dec_string(7), "7");
    assert_eq!(to_dec_string(42), "42");
    assert_eq!(to_dec_string(12345), "12345");
}

#[test]
fn usize_parsing_follows_std() {
    assert_eq!(parse_usize("0"), Some(0));
    assert_eq!(parse_usize("5"), Some(5));
    assert_eq!(parse_usize("+12"), Some(12));
    assert_eq!(parse_usize("007"), Some(7));
    assert_eq!(parse_usize(""), None);
    assert_eq!(parse_usize("+"), None);
    assert_eq!(parse_usize("-1"), None);
    assert_eq!(parse_usize("1 2"), None);
    assert_eq!(parse_usize(" 3"), None);
    assert_eq!(parse_usize("3a"), None);
    assert_eq!(parse_usize("99999999999999999999999999"), None);
    assert_eq!(parse_usize("18446744073709551615"), Some(usize::MAX));
}

#[test]
fn buffers_erase_back_to_unset() {
    let mut buffer: Option<String> = None;
    buffer_push_char(&mut buffer, 'h');
    buffer_push_char(&mut buffer, 'i');
    assert_eq!(buffer.as_deref(), Some("hi"));
    buffer_pop_char(&mut buffer);
    assert_eq!(buffer.as_deref(), Some("h"));
    buffer_pop_char(&mut buffer);
    assert!(buffer.is_none());
    buffer_pop_char(&mut buffer);
    assert!(buffer.is_none());
}

#[test]
fn connection_strings_name_a_file() {
    assert_eq!(parse_conn_string("file:///data/db.csv").unwrap(), "/data/db.csv");
    assert_eq!(parse_conn_string("file://db.csv").unwrap(), "db.csv");
    let err = match parse_conn_string("http://example") {
        Err(e) => e,
        Ok(_) => panic!("a non-file scheme must be rejected"),
    };
    assert!(matches!(err, DatabaseError::BadConnString));
    assert_eq!(err.message(), "Failed to parse database connection string");
    assert!(parse_conn_string("file:/").is_err());
    assert!(parse_conn_string("").is_err());
}

#[test]
fn csv_rows_of_two_fields_become_phrases() {
    let data = b"original,translation\ncat,chat\ndog,chien,extra\nsun,soleil\n".to_vec();
    let db = Database::new(&data).unwrap();
    assert_eq!(db.records.len(), 2);
    assert_eq!(db.records[0], ("cat".to_string(), "chat".to_string()));
    assert_eq!(db.records[1], ("sun".to_string(), "soleil".to_string()));
}

#[test]
fn sampling_respects_the_limit_and_the_corpus() {
    let records = vec![
        ("cat".to_string(), "chat".to_string()),
        ("dog".to_string(), "chien".to_string()),
        ("sun".to_string(), "soleil".to_string()),
    ];
    let db = Database { records: records.clone() };

    let none = db.get_phrases(0);
    assert!(none.is_empty());

    let some = db.get_phrases(2);
    assert_eq!(some.len(), 2);
    for phrase in &some {
        assert!(records.contains(phrase));
    }
    assert_ne!(some[0], some[1]);

    let all = db.get_phrases(10);
    assert_eq!(all.len(), 3);
    for phrase in &all {
        assert!(records.contains(phrase));
    }
}

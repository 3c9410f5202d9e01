use alveus::listener::Listener;
use alveus::logging::{level_named, Builder, LogLevel};
use alveus::text::{bytes_equal, decimal_string, find_bytes, parse_usize, strip_nul};

#[test]
fn level_names_in_any_case() {
    assert!(matches!(LogLevel::from_str("DEBUG"), Ok(LogLevel::Debug)));
    assert!(matches!(LogLevel::from_str("Verbose"), Ok(LogLevel::Verbose)));
    assert!(matches!(LogLevel::from_str("info"), Ok(LogLevel::Info)));
    assert!(matches!(LogLevel::from_str("wArN"), Ok(LogLevel::Warn)));
    assert!(matches!(LogLevel::from_str("error"), Ok(LogLevel::Error)));
    assert!(matches!(LogLevel::from_str("FATAL"), Ok(LogLevel::Fatal)));
    match LogLevel::from_str("loud") {
        Err(m) => assert_eq!(m, "Invalid log level: loud"),
        Ok(_) => panic!("accepted an unknown level"),
    }
}

#[test]
fn level_titles_and_order() {
    assert_eq!(LogLevel::Debug.to_string(), "Debug");
    assert_eq!(LogLevel::Fatal.to_string(), "Fatal");
    assert_eq!(LogLevel::Verbose.name(), "verbose");
    assert!(matches!(LogLevel::from_str(LogLevel::Warn.name()), Ok(LogLevel::Warn)));
    assert!(LogLevel::Debug < LogLevel::Info);
    assert!(LogLevel::Fatal > LogLevel::Error);
    assert!(LogLevel::Fatal == LogLevel::Fatal);
    assert!(LogLevel::Warn <= LogLevel::Warn);
}

#[test]
fn builder_settings() {
    let mut b = Builder::new();
    b.level(LogLevel::Debug);
    b.write_to_file(true);
    b.file_path("log.txt");
    b.write_to_console(false);
    let logger = b.build();
    assert!(matches!(logger.level, LogLevel::Debug));
    assert!(!logger.write_to_console);
    assert!(logger.write_to_file);
    assert_eq!(logger.file_path, "log.txt");
    assert!(logger.enabled(LogLevel::Debug));
    let default = Builder::new().build();
    assert!(!default.enabled(LogLevel::Verbose));
    assert!(default.enabled(LogLevel::Info));
    assert!(default.enabled(LogLevel::Fatal));
}

#[test]
fn listener_endpoint() {
    assert_eq!(Listener::new().endpoint(), "127.0.0.1:8080");
}

#[test]
fn decimal_text() {
    assert_eq!(decimal_string(0), "0");
    assert_eq!(decimal_string(7), "7");
    assert_eq!(decimal_string(1090), "1090");
    assert_eq!(decimal_string(u128::MAX), u128::MAX.to_string());
}

#[test]
fn unsigned_numbers() {
    assert_eq!(parse_usize(b"0"), Some(0));
    assert_eq!(parse_usize(b"+12"), Some(12));
    assert_eq!(parse_usize(b"007"), Some(7));
    assert_eq!(parse_usize(b""), None);
    assert_eq!(parse_usize(b"+"), None);
    assert_eq!(parse_usize(b"1 "), None);
    assert_eq!(parse_usize(usize::MAX.to_string().as_bytes()), Some(usize::MAX));
    let over = format!("{}0", usize::MAX);
    assert_eq!(parse_usize(over.as_bytes()), None);
}

#[test]
fn byte_search_and_cleaning() {
    assert_eq!(find_bytes(b"abcabc", b"ca", 0), Some(2));
    assert_eq!(find_bytes(b"abcabc", b"ab", 1), Some(3));
    assert_eq!(find_bytes(b"abc", b"x", 0), None);
    assert_eq!(find_bytes(b"ab", b"", 1), Some(1));
    assert_eq!(strip_nul(b"a\0b\0\0"), b"ab".to_vec());
    assert!(bytes_equal(b"GET", b"GET"));
    assert!(!bytes_equal(b"GET", b"GE"));
}

#[test]
fn lower_case_level_names() {
    assert!(matches!(level_named("warn"), Some(LogLevel::Warn)));
    assert!(matches!(level_named("fatal"), Some(LogLevel::Fatal)));
    assert!(level_named("WARN").is_none());
    assert!(level_named("").is_none());
}

#[test]
fn log_lines() {
    let logger = Builder::new().build();
    assert_eq!(
        logger.line(LogLevel::Info, 0, "Listening"),
        "1970-01-01 00:00:00 \x1B[32;1;1m[INFO]\x1B[0m\tListening"
    );
    assert_eq!(
        logger.line(LogLevel::Fatal, 1431648000, "x"),
        "2015-05-15 00:00:00 \x1B[31;1;5;7m[FATAL]\x1B[0m\tx"
    );
}

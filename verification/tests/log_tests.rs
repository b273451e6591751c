use mars_rcore::log::{
    format_log, log_enabled, log_level, rank, str_eq, LogLevel, LogTimestamp, LEVEL_DEBUG, LEVEL_ERROR, LEVEL_INFO,
    LEVEL_TRACE, LEVEL_WARN,
};

#[test]
fn rank_maps_level_names() {
    assert_eq!(rank("error"), LEVEL_ERROR);
    assert_eq!(rank("warn"), LEVEL_WARN);
    assert_eq!(rank("info"), LEVEL_INFO);
    assert_eq!(rank("debug"), LEVEL_DEBUG);
    assert_eq!(rank("trace"), LEVEL_TRACE);
}

#[test]
fn rank_falls_back_to_debug() {
    assert_eq!(rank(""), LEVEL_DEBUG);
    assert_eq!(rank("ERROR"), LEVEL_DEBUG);
    assert_eq!(rank("errors"), LEVEL_DEBUG);
    assert_eq!(rank("warning"), LEVEL_DEBUG);
}

#[test]
fn str_eq_compares_bytes() {
    assert!(str_eq("abc", "abc"));
    assert!(str_eq("", ""));
    assert!(!str_eq("abc", "abd"));
    assert!(!str_eq("abc", "ab"));
}

#[test]
fn configured_threshold_is_debug() {
    assert_eq!(log_level(), LEVEL_DEBUG);
    assert!(log_enabled(LogLevel::Error));
    assert!(log_enabled(LogLevel::Warn));
    assert!(log_enabled(LogLevel::Info));
    assert!(log_enabled(LogLevel::Debug));
    assert!(!log_enabled(LogLevel::Trace));
}

#[test]
fn severities_are_ordered() {
    let levels = [LogLevel::Trace, LogLevel::Debug, LogLevel::Info, LogLevel::Warn, LogLevel::Error];
    for w in levels.windows(2) {
        assert!(w[0].severity() < w[1].severity());
    }
}

#[test]
fn timestamp_rounds_to_milliseconds() {
    assert_eq!(LogTimestamp(0).render(), b"0.000".to_vec());
    assert_eq!(LogTimestamp(499).render(), b"0.000".to_vec());
    assert_eq!(LogTimestamp(500).render(), b"0.001".to_vec());
    assert_eq!(LogTimestamp(1_234_567).render(), b"1.235".to_vec());
    assert_eq!(LogTimestamp(999_999_500).render(), b"1000.000".to_vec());
    assert_eq!(LogTimestamp(12_034_000).millis(), (12, 34));
    assert_eq!(LogTimestamp(usize::MAX).millis(), ((usize::MAX / 1000 + 1) / 1000, (usize::MAX / 1000 + 1) % 1000));
}

#[test]
fn log_line_layout() {
    let line = format_log(LogLevel::Info, 2_500_000, b"hello");
    assert_eq!(line, b"\x1b[1;32m[ 2.500] |  INFO | hello\x1b[0m\n".to_vec());
    let line = format_log(LogLevel::Error, 0, b"");
    assert_eq!(line, b"\x1b[1;31m[ 0.000] | ERROR | \x1b[0m\n".to_vec());
    let line = format_log(LogLevel::Warn, 1, b"w");
    assert_eq!(line, b"\x1b[1;33m[ 0.000] |  WARN | w\x1b[0m\n".to_vec());
    let line = format_log(LogLevel::Debug, 61_000_000, b"d");
    assert_eq!(line, b"\x1b[1;36m[ 61.000] | DEBUG | d\x1b[0m\n".to_vec());
    let line = format_log(LogLevel::Trace, 1_000, b"t");
    assert_eq!(line, b"\x1b[1;90m[ 0.001] | TRACE | t\x1b[0m\n".to_vec());
}

use pamusb::logging::{filter_from_str, Level, LevelFilter, Logger};

#[test]
fn filter_names_ignore_case() {
    assert_eq!(filter_from_str("off"), Some(LevelFilter::Off));
    assert_eq!(filter_from_str("ERROR"), Some(LevelFilter::Error));
    assert_eq!(filter_from_str("wArN"), Some(LevelFilter::Warn));
    assert_eq!(filter_from_str("Info"), Some(LevelFilter::Info));
    assert_eq!(filter_from_str("debug"), Some(LevelFilter::Debug));
    assert_eq!(filter_from_str("trace"), Some(LevelFilter::Trace));
    assert_eq!(filter_from_str("verbose"), None);
    assert_eq!(filter_from_str(""), None);
}

#[test]
fn enabled_levels() {
    assert!(Logger::enabled(Level::Error, LevelFilter::Error));
    assert!(!Logger::enabled(Level::Warn, LevelFilter::Error));
    assert!(!Logger::enabled(Level::Error, LevelFilter::Off));
    assert!(Logger::enabled(Level::Trace, LevelFilter::Trace));
}

#[test]
fn log_lines() {
    assert_eq!(
        Logger::format_line(LevelFilter::Info, Level::Error, "pam", "boom"),
        Some("ERROR: boom".to_string())
    );
    assert_eq!(
        Logger::format_line(LevelFilter::Debug, Level::Info, "pam", "hello"),
        Some("(pam) INFO: hello".to_string())
    );
    assert_eq!(Logger::format_line(LevelFilter::Info, Level::Debug, "pam", "x"), None);
}

use hookcore::logger::{init, string_to_log_level, LogLevel, LogLevelFilter, Logger};

#[test]
fn setting_strings_select_their_levels() {
    assert_eq!(string_to_log_level(&"TRACE".to_string()), LogLevelFilter::Trace);
    assert_eq!(string_to_log_level(&"DEBUG".to_string()), LogLevelFilter::Debug);
    assert_eq!(string_to_log_level(&"INFO".to_string()), LogLevelFilter::Info);
    assert_eq!(string_to_log_level(&"WARN".to_string()), LogLevelFilter::Warn);
    assert_eq!(string_to_log_level(&"ERROR".to_string()), LogLevelFilter::Error);
}

#[test]
fn unknown_setting_selects_the_default() {
    assert_eq!(string_to_log_level(&"".to_string()), LogLevelFilter::Debug);
    assert_eq!(string_to_log_level(&"trace".to_string()), LogLevelFilter::Debug);
    assert_eq!(string_to_log_level(&"VERBOSE".to_string()), LogLevelFilter::Debug);
}

#[test]
fn init_without_setting_uses_the_default() {
    let l = init(None);
    assert_eq!(l.filter, LogLevelFilter::Debug);
    assert!(l.records.is_empty());
}

#[test]
fn init_with_setting_parses_it() {
    let l = init(Some("WARN".to_string()));
    assert_eq!(l.filter, LogLevelFilter::Warn);
}

#[test]
fn filter_keeps_only_severe_enough_events() {
    let mut l = Logger::new(LogLevelFilter::Warn);
    l.log(LogLevel::Error, "t".to_string(), "kept".to_string());
    l.log(LogLevel::Warn, "t".to_string(), "kept too".to_string());
    l.log(LogLevel::Info, "t".to_string(), "dropped".to_string());
    l.log(LogLevel::Debug, "t".to_string(), "dropped".to_string());
    l.log(LogLevel::Trace, "t".to_string(), "dropped".to_string());
    assert_eq!(l.records.len(), 2);
    assert_eq!(l.records[0].message, "kept");
    assert_eq!(l.records[1].message, "kept too");
}

#[test]
fn off_filter_keeps_nothing() {
    let mut l = Logger::new(LogLevelFilter::Off);
    l.log(LogLevel::Error, "t".to_string(), "m".to_string());
    assert!(l.records.is_empty());
}

#[test]
fn events_keep_their_order_and_fields() {
    let mut l = Logger::new(LogLevelFilter::Trace);
    l.log(LogLevel::Debug, "engine".to_string(), "first".to_string());
    l.log(LogLevel::Info, "server".to_string(), "second".to_string());
    assert_eq!(l.records[0].target, "engine");
    assert_eq!(l.records[1].target, "server");
    assert!(l.enabled(LogLevel::Trace));
}

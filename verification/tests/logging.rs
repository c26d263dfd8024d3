use cloudflare_ddns::logging::{warn_or_error, Level, LogLevel};

#[test]
fn from_string_knows_the_five_names() {
    assert_eq!(LogLevel::from_string("trace".to_string()), Some(LogLevel::Trace));
    assert_eq!(LogLevel::from_string("debug".to_string()), Some(LogLevel::Debug));
    assert_eq!(LogLevel::from_string("info".to_string()), Some(LogLevel::Info));
    assert_eq!(LogLevel::from_string("warn".to_string()), Some(LogLevel::Warn));
    assert_eq!(LogLevel::from_string("error".to_string()), Some(LogLevel::Error));
}

#[test]
fn from_string_ignores_case() {
    assert_eq!(LogLevel::from_string("INFO".to_string()), Some(LogLevel::Info));
    assert_eq!(LogLevel::from_string("Trace".to_string()), Some(LogLevel::Trace));
    assert_eq!(LogLevel::from_string("dEbUg".to_string()), Some(LogLevel::Debug));
    assert_eq!(LogLevel::from_string("WARN".to_string()), Some(LogLevel::Warn));
    assert_eq!(LogLevel::from_string("Error".to_string()), Some(LogLevel::Error));
}

#[test]
fn from_string_rejects_other_texts() {
    assert_eq!(LogLevel::from_string("".to_string()), None);
    assert_eq!(LogLevel::from_string("default".to_string()), None);
    assert_eq!(LogLevel::from_string("warning".to_string()), None);
    assert_eq!(LogLevel::from_string(" info".to_string()), None);
    assert_eq!(LogLevel::from_string("info\n".to_string()), None);
    assert_eq!(LogLevel::from_string("inf".to_string()), None);
    assert_eq!(LogLevel::from_string("\u{130}nfo".to_string()), None);
}

#[test]
fn named_takes_lower_case_only() {
    assert_eq!(LogLevel::named(&"info".to_string()), Some(LogLevel::Info));
    assert_eq!(LogLevel::named(&"error".to_string()), Some(LogLevel::Error));
    assert_eq!(LogLevel::named(&"INFO".to_string()), None);
    assert_eq!(LogLevel::named(&"Info".to_string()), None);
    assert_eq!(LogLevel::named(&"".to_string()), None);
}

#[test]
fn log_level_names_the_threshold() {
    assert_eq!(LogLevel::Default.log_level(), "INFO");
    assert_eq!(LogLevel::Trace.log_level(), "TRACE");
    assert_eq!(LogLevel::Debug.log_level(), "DEBUG");
    assert_eq!(LogLevel::Info.log_level(), "INFO");
    assert_eq!(LogLevel::Warn.log_level(), "WARN");
    assert_eq!(LogLevel::Error.log_level(), "ERROR");
}

#[test]
fn default_threshold_is_info() {
    assert_eq!(LogLevel::Default.level(), Level::Info);
    assert_eq!(LogLevel::Trace.level(), Level::Trace);
    assert_eq!(LogLevel::Debug.level(), Level::Debug);
    assert_eq!(LogLevel::Info.level(), Level::Info);
    assert_eq!(LogLevel::Warn.level(), Level::Warn);
    assert_eq!(LogLevel::Error.level(), Level::Error);
}

#[test]
fn final_failure_is_an_error_and_any_other_a_warning() {
    assert_eq!(warn_or_error(true), Level::Error);
    assert_eq!(warn_or_error(false), Level::Warn);
}

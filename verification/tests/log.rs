use webhook::log::{error_handler, ErrorLog, ERROR_KEY};

#[test]
fn new_log_is_empty() {
    let log = ErrorLog::new();
    assert_eq!(log.len(), 0);
    assert!(log.get(ERROR_KEY).is_none());
    assert!(log.get("").is_none());
}

#[test]
fn record_files_the_message_under_its_key() {
    let mut log = ErrorLog::new();
    log.record("a", "first");
    assert_eq!(log.len(), 1);
    assert_eq!(log.get("a").map(|m| m.as_str()), Some("first"));
    assert!(log.get("b").is_none());
}

#[test]
fn record_overwrites_the_same_key() {
    let mut log = ErrorLog::new();
    log.record("a", "first");
    log.record("a", "second");
    assert_eq!(log.len(), 1);
    assert_eq!(log.get("a").map(|m| m.as_str()), Some("second"));
}

#[test]
fn record_keeps_other_keys() {
    let mut log = ErrorLog::new();
    log.record("a", "first");
    log.record("b", "second");
    assert_eq!(log.len(), 2);
    assert_eq!(log.get("a").map(|m| m.as_str()), Some("first"));
    assert_eq!(log.get("b").map(|m| m.as_str()), Some("second"));
}

#[test]
fn error_key_is_fixed() {
    assert_eq!(ERROR_KEY, "errorHandler");
}

#[test]
fn error_handler_logs_and_gives_the_line() {
    let mut log = ErrorLog::new();
    let line = error_handler(&mut log, "not found");
    assert_eq!(line, "errorHandler: not found");
    assert_eq!(log.len(), 1);
    assert_eq!(log.get("errorHandler").map(|m| m.as_str()), Some("not found"));
}

#[test]
fn error_handler_keeps_only_the_latest_message() {
    let mut log = ErrorLog::new();
    error_handler(&mut log, "first");
    let line = error_handler(&mut log, "");
    assert_eq!(line, "errorHandler: ");
    assert_eq!(log.len(), 1);
    assert_eq!(log.get(ERROR_KEY).map(|m| m.as_str()), Some(""));
}

use announcer::is_open;

#[test]
fn open_state_is_open() {
    assert!(is_open(r#"{"state":"open"}"#));
}

#[test]
fn other_state_is_closed() {
    assert!(!is_open(r#"{"state":"closed"}"#));
    assert!(!is_open(r#"{"state":"Open"}"#));
    assert!(!is_open(r#"{"state":""}"#));
}

#[test]
fn missing_state_is_closed() {
    assert!(!is_open(r#"{"status":"open"}"#));
    assert!(!is_open(r#"{}"#));
}

#[test]
fn non_string_state_is_closed() {
    assert!(!is_open(r#"{"state":5}"#));
    assert!(!is_open(r#"{"state":true}"#));
    assert!(!is_open(r#"{"state":["open"]}"#));
}

#[test]
fn malformed_status_is_closed() {
    assert!(!is_open("not json at all"));
    assert!(!is_open(""));
}

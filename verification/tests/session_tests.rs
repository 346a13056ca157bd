use gpt_screenshot::session::Session;

fn session_with_prompt(p: &str) -> Session {
    let mut s = Session::new();
    s.set_prompt(p.to_string());
    s
}

#[test]
fn fresh_session_has_nothing() {
    let s = Session::new();
    assert_eq!(s.get_latest_prompt(), Err("error"));
    assert_eq!(s.get_latest_response(), Err("error"));
    assert!(!s.has_api_key());
}

#[test]
fn prompt_read_after_rotate() {
    let mut s = session_with_prompt("first");
    s.rotate_history("second".to_string());
    assert_eq!(s.get_latest_prompt(), Ok("second".to_string()));
}

#[test]
fn response_read_after_record() {
    let mut s = session_with_prompt("");
    s.record_response("the answer".to_string());
    assert_eq!(s.get_latest_response(), Ok("the answer".to_string()));
}

#[test]
fn rotate_returns_the_history_before_it() {
    let mut s = session_with_prompt("old prompt");
    s.record_response("old answer".to_string());
    let h = s.rotate_history("new prompt".to_string());
    assert_eq!(h.last_prompt, "old prompt");
    assert_eq!(h.last_response, "old answer");
    assert_eq!(s.previous_prompt.as_deref(), Some("old prompt"));
    assert_eq!(s.previous_response.as_deref(), Some("old answer"));
    // the latest response stays until the new answer is recorded
    assert_eq!(s.response.as_deref(), Some("old answer"));
}

#[test]
fn rotate_without_a_response_gives_an_empty_one() {
    let mut s = session_with_prompt("p");
    let h = s.rotate_history("q".to_string());
    assert_eq!(h.last_response, "");
    assert_eq!(s.previous_response, None);
}

#[test]
fn rotate_keeps_previous_prompt_when_latest_is_empty() {
    let mut s = session_with_prompt("kept");
    s.rotate_history("".to_string());
    assert_eq!(s.previous_prompt.as_deref(), Some("kept"));
    s.rotate_history("after".to_string());
    // the empty prompt did not replace the previous one
    assert_eq!(s.previous_prompt.as_deref(), Some("kept"));
    assert_eq!(s.prompt.as_deref(), Some("after"));
}

#[test]
fn two_exchanges_shift_history() {
    let mut s = session_with_prompt("");
    s.rotate_history("p1".to_string());
    s.record_response("a1".to_string());
    s.rotate_history("p2".to_string());
    s.record_response("a2".to_string());
    assert_eq!(s.prompt.as_deref(), Some("p2"));
    assert_eq!(s.response.as_deref(), Some("a2"));
    assert_eq!(s.previous_prompt.as_deref(), Some("p1"));
    assert_eq!(s.previous_response.as_deref(), Some("a1"));
}

#[test]
fn exchanges_leave_the_api_key() {
    let mut s = session_with_prompt("x");
    s.set_api_key("SECRET-REDACTED".to_string());
    s.rotate_history("y".to_string());
    s.record_response("z".to_string());
    assert!(s.has_api_key());
    assert_eq!(s.api_key.as_deref(), Some("SECRET-REDACTED"));
}

use gpt_screenshot::frontend::{frontend_event, send_prompt_to_frontend, send_response_to_frontend, FrontendEvent, Payload};
use gpt_screenshot::session::Session;

#[test]
fn event_construction() {
    let e = frontend_event("name", "data".to_string());
    assert_eq!(e, FrontendEvent { name: "name".to_string(), payload: Payload { data: "data".to_string() } });
}

#[test]
fn response_reply_when_there_is_one() {
    let mut s = Session::new();
    s.record_response("answer".to_string());
    let r = send_response_to_frontend(&s);
    assert_eq!(r.result, Ok("answer".to_string()));
    assert_eq!(r.event, Some(frontend_event("show_response_in_frontend", "answer".to_string())));
}

#[test]
fn response_reply_when_there_is_none() {
    let s = Session::new();
    let r = send_response_to_frontend(&s);
    assert_eq!(r.result, Err("Couldn't get last response"));
    assert_eq!(r.event, None);
}

#[test]
fn prompt_reply_when_there_is_one() {
    let mut s = Session::new();
    s.set_prompt("question".to_string());
    let r = send_prompt_to_frontend(&s);
    assert_eq!(r.result, Ok("question".to_string()));
    assert_eq!(r.event, Some(frontend_event("show_prompt_in_frontend", "question".to_string())));
}

#[test]
fn prompt_reply_when_there_is_none() {
    let s = Session::new();
    let r = send_prompt_to_frontend(&s);
    assert_eq!(r.result, Err("Couldn't get last prompt"));
    assert_eq!(r.event, None);
}

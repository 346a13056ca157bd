use gpt_screenshot::commands::{check_api_key, conclude_call, plan_call, startup_call_event, CallRoute};
use gpt_screenshot::frontend::frontend_event;
use gpt_screenshot::session::Session;

#[test]
fn call_without_api_key_is_refused() {
    let s = Session::new();
    assert_eq!(check_api_key(&s), Err("Error: Can't call ChatGPT: No api-key".to_string()));
}

#[test]
fn call_with_api_key_goes_on() {
    let mut s = Session::new();
    s.set_api_key("k".to_string());
    assert_eq!(check_api_key(&s), Ok(()));
}

#[test]
fn plan_with_a_waiting_screenshot() {
    let p = plan_call("screenshot_20231125_212445.png", "what is this?");
    assert_eq!(p.route, CallRoute::Vision("screenshot_20231125_212445.png".to_string()));
    assert_eq!(p.log_line, "screenshot_20231125_212445.png: Prompt: what is this?");
}

#[test]
fn plan_without_a_screenshot() {
    let p = plan_call("", "hello");
    assert_eq!(p.route, CallRoute::Text);
    assert_eq!(p.log_line, "Prompt: hello");
}

#[test]
fn conclude_a_successful_vision_call() {
    let mut s = Session::new();
    s.record_response("a cat".to_string());
    let o = conclude_call(&CallRoute::Vision("f.png".to_string()), Ok(()), &s);
    assert_eq!(o.log_line, Some("Response: a cat".to_string()));
    assert!(o.clear_screenshot);
    assert_eq!(o.event, Some(frontend_event("show_response_in_frontend", "a cat".to_string())));
    assert_eq!(o.result, Ok("success".to_string()));
}

#[test]
fn conclude_a_successful_text_call() {
    let mut s = Session::new();
    s.record_response("hi".to_string());
    let o = conclude_call(&CallRoute::Text, Ok(()), &s);
    assert_eq!(o.log_line, Some("Response: hi".to_string()));
    assert!(!o.clear_screenshot);
    assert_eq!(o.result, Ok("success".to_string()));
}

#[test]
fn conclude_a_failed_call() {
    let s = Session::new();
    let o = conclude_call(&CallRoute::Vision("f.png".to_string()), Err("stream failed".to_string()), &s);
    assert_eq!(o.log_line, None);
    assert!(!o.clear_screenshot);
    assert_eq!(o.event, None);
    assert_eq!(o.result, Err("stream failed".to_string()));
}

#[test]
fn startup_call_events() {
    assert_eq!(
        startup_call_event("p".to_string(), &Ok("success".to_string())),
        Some(frontend_event("createPromptAndResponse", "p".to_string()))
    );
    assert_eq!(startup_call_event("p".to_string(), &Err("e".to_string())), None);
}

#[test]
fn key_value_does_not_change_the_outcome() {
    let mut a = Session::new();
    let mut b = Session::new();
    a.set_api_key("key-one".to_string());
    b.set_api_key("key-two".to_string());
    for s in [&mut a, &mut b] {
        s.set_prompt("p".to_string());
        s.record_response("r".to_string());
    }
    assert_eq!(check_api_key(&a), check_api_key(&b));
    let oa = conclude_call(&CallRoute::Text, Ok(()), &a);
    let ob = conclude_call(&CallRoute::Text, Ok(()), &b);
    assert_eq!(oa, ob);
    assert!(!format!("{:?}", oa).contains("key-one"));
}

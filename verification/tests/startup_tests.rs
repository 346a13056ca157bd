use gpt_screenshot::session::Session;
use gpt_screenshot::startup::{prompt_from_flag_values, prompt_from_free_args, start_session};

fn strings(v: &[&str]) -> Vec<String> {
    v.iter().map(|s| s.to_string()).collect()
}

#[test]
fn flag_values_each_get_a_space() {
    assert_eq!(prompt_from_flag_values(&strings(&["what", "is", "rust"])), "what is rust ");
    assert_eq!(prompt_from_flag_values(&strings(&["one"])), "one ");
    assert_eq!(prompt_from_flag_values(&strings(&[])), "");
}

#[test]
fn free_args_skip_the_program_path() {
    assert_eq!(prompt_from_free_args(&strings(&["/usr/bin/app", "what", "is", "rust"])), "what is rust");
    assert_eq!(prompt_from_free_args(&strings(&["/usr/bin/app", "one"])), "one");
    assert_eq!(prompt_from_free_args(&strings(&["/usr/bin/app"])), "");
}

#[test]
fn flag_prompt_is_free_prompt_and_a_space() {
    let words = strings(&["tell", "me", "a joke"]);
    let mut args = strings(&["app"]);
    args.extend(words.clone());
    assert_eq!(prompt_from_flag_values(&words), prompt_from_free_args(&args) + " ");
}

#[test]
fn startup_with_prompt_and_key_sends_now() {
    let mut s = Session::new();
    let send = start_session(&mut s, "hi ".to_string(), "SECRET-REDACTED".to_string());
    assert!(send);
    assert_eq!(s.prompt.as_deref(), Some("hi "));
    assert_eq!(s.api_key.as_deref(), Some("SECRET-REDACTED"));
}

#[test]
fn startup_without_key_does_not_send() {
    let mut s = Session::new();
    let send = start_session(&mut s, "hi".to_string(), String::new());
    assert!(!send);
    assert_eq!(s.prompt.as_deref(), Some("hi"));
    assert!(!s.has_api_key());
}

#[test]
fn startup_without_prompt_does_not_send() {
    let mut s = Session::new();
    let send = start_session(&mut s, String::new(), "k".to_string());
    assert!(!send);
    assert_eq!(s.prompt.as_deref(), Some(""));
    assert_eq!(s.api_key.as_deref(), Some("k"));
}

use gpt_screenshot::frontend::frontend_event;
use gpt_screenshot::session::Session;
use gpt_screenshot::store::{get_key_from_store, save_to_store, screenshot_saved_event, stored_value_for, StoredValue};

#[test]
fn stored_text_reads_back() {
    let v = stored_value_for("shot.png".to_string());
    assert_eq!(v, StoredValue::Text("shot.png".to_string()));
    assert_eq!(get_key_from_store(v), "shot.png");
}

#[test]
fn missing_setting_reads_as_empty() {
    assert_eq!(get_key_from_store(StoredValue::Missing), "");
}

#[test]
fn saving_the_api_key_sets_it() {
    let mut s = Session::new();
    let r = save_to_store("api-key", "SECRET-REDACTED".to_string(), true, &mut s);
    assert_eq!(r, Ok("success".to_string()));
    assert_eq!(s.api_key.as_deref(), Some("SECRET-REDACTED"));
}

#[test]
fn failed_api_key_save_is_an_error() {
    let mut s = Session::new();
    let r = save_to_store("api-key", "SECRET-REDACTED".to_string(), false, &mut s);
    assert_eq!(r, Err("Något error"));
    assert!(!s.has_api_key());
}

#[test]
fn other_settings_always_report_success() {
    let mut s = Session::new();
    assert_eq!(save_to_store("latest-screenshot", "a.png".to_string(), true, &mut s), Ok("success".to_string()));
    assert_eq!(save_to_store("latest-screenshot", "a.png".to_string(), false, &mut s), Ok("success".to_string()));
    assert_eq!(save_to_store("api-key2", "x".to_string(), false, &mut s), Ok("success".to_string()));
    assert!(!s.has_api_key());
}

#[test]
fn screenshot_event_after_save() {
    let ok: Result<String, &'static str> = Ok("success".to_string());
    let err: Result<String, &'static str> = Err("Något error");
    assert_eq!(
        screenshot_saved_event("s.png".to_string(), true, &ok),
        Some(frontend_event("show-latest-screenshot", "s.png".to_string()))
    );
    assert_eq!(screenshot_saved_event("s.png".to_string(), false, &ok), None);
    assert_eq!(screenshot_saved_event("s.png".to_string(), true, &err), None);
}

#[test]
fn screenshot_event_follows_the_image_write() {
    let mut s = Session::new();
    for store_written in [true, false] {
        let reply = save_to_store("latest-screenshot", "s.png".to_string(), store_written, &mut s);
        assert!(screenshot_saved_event("s.png".to_string(), true, &reply).is_some());
        assert!(screenshot_saved_event("s.png".to_string(), false, &reply).is_none());
    }
}

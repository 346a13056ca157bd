use gpt_screenshot::exchange::Exchange;
use gpt_screenshot::frontend::{FrontendEvent, Payload};
use gpt_screenshot::session::Session;

fn ev(name: &str, data: &str) -> FrontendEvent {
    FrontendEvent { name: name.to_string(), payload: Payload { data: data.to_string() } }
}

#[test]
fn exchange_start_hides_spinner() {
    let (x, e) = Exchange::start();
    assert_eq!(x.transcript(), "");
    assert_eq!(e, ev("hide_spinner_in_frontend", ""));
}

#[test]
fn chunk_texts_are_streamed_in_order() {
    let (mut x, _) = Exchange::start();
    let events = x.absorb(&vec![Some("Hel".to_string()), None, Some("lo".to_string())]);
    assert_eq!(
        events,
        vec![ev("stream_response_in_frontend", "Hel"), ev("stream_response_in_frontend", "lo")]
    );
    assert_eq!(x.transcript(), "Hello");
}

#[test]
fn transcript_is_all_streamed_text() {
    let (mut x, _) = Exchange::start();
    let mut streamed = String::new();
    for chunk in [
        vec![Some("The ".to_string())],
        vec![],
        vec![None],
        vec![Some("answer".to_string()), Some(" is".to_string())],
        vec![Some(" 42.".to_string())],
    ] {
        for e in x.absorb(&chunk) {
            streamed.push_str(&e.payload.data);
        }
    }
    assert_eq!(x.transcript(), "The answer is 42.");
    assert_eq!(x.transcript(), &streamed);
}

#[test]
fn empty_texts_are_still_streamed() {
    let (mut x, _) = Exchange::start();
    let events = x.absorb(&vec![Some(String::new())]);
    assert_eq!(events, vec![ev("stream_response_in_frontend", "")]);
    assert_eq!(x.transcript(), "");
}

#[test]
fn finish_records_the_answer() {
    let mut s = Session::new();
    s.set_prompt("q".to_string());
    s.record_response("older".to_string());
    let (mut x, _) = Exchange::start();
    x.absorb(&vec![Some("new answer".to_string())]);
    let e = x.finish(&mut s);
    assert_eq!(e, ev("format_response_in_frontend", ""));
    assert_eq!(s.get_latest_response(), Ok("new answer".to_string()));
}

#[test]
fn latest_response_is_all_streamed_text_over_many_chunks() {
    let mut s = Session::new();
    s.set_prompt("q".to_string());
    let (mut x, _) = Exchange::start();
    let mut streamed = String::new();
    for k in 0..10 {
        let chunk = vec![Some(format!("<{}>", k)), None, Some(format!("{}", k * k))];
        for e in x.absorb(&chunk) {
            streamed.push_str(&e.payload.data);
        }
    }
    x.finish(&mut s);
    assert_eq!(s.get_latest_response(), Ok(streamed.clone()));
    assert!(streamed.starts_with("<0>0<1>1<2>4"));
}

#[test]
fn error_items_are_passed_over() {
    let (mut x, _) = Exchange::start();
    let first = x.absorb_item(&Ok(vec![Some("a".to_string())]));
    assert_eq!(first, vec![ev("stream_response_in_frontend", "a")]);
    let failed = x.absorb_item(&Err("connection reset".to_string()));
    assert!(failed.is_empty());
    assert_eq!(x.transcript(), "a");
    x.absorb_item(&Ok(vec![Some("b".to_string())]));
    assert_eq!(x.transcript(), "ab");
}

use vstd::prelude::*;
use crate::session::Session;

verus! {

/// The data carried by an event sent to the window.
#[derive(Debug, PartialEq, Eq)]
pub struct Payload {
    pub data: String,
}

/// An event for the window: its name and its payload.
#[derive(Debug, PartialEq, Eq)]
pub struct FrontendEvent {
    pub name: String,
    pub payload: Payload,
}

/// An event as its name and its data.
pub open spec fn event_view(e: FrontendEvent) -> (Seq<char>, Seq<char>) {
    (e.name@, e.payload.data@)
}

/// The names of the events of this program.
pub open spec fn hide_spinner_event() -> Seq<char> {
    "hide_spinner_in_frontend"@
}

pub open spec fn stream_response_event() -> Seq<char> {
    "stream_response_in_frontend"@
}

pub open spec fn format_response_event() -> Seq<char> {
    "format_response_in_frontend"@
}

pub open spec fn show_response_event() -> Seq<char> {
    "show_response_in_frontend"@
}

pub open spec fn show_prompt_event() -> Seq<char> {
    "show_prompt_in_frontend"@
}

pub open spec fn show_screenshot_event() -> Seq<char> {
    "show-latest-screenshot"@
}

pub open spec fn prompt_and_response_event() -> Seq<char> {
    "createPromptAndResponse"@
}

/// The event `name` with `data` as its payload.
pub fn frontend_event(name: &str, data: String) -> (e: FrontendEvent)
    ensures
        event_view(e) == (name@, data@),
{
    FrontendEvent { name: name.to_owned(), payload: Payload { data } }
}

/// What a query of the window gets back: the result of the command, and the
/// event to send along with it, if any.
#[derive(Debug, PartialEq, Eq)]
pub struct FrontendReply {
    pub result: Result<String, &'static str>,
    pub event: Option<FrontendEvent>,
}

/// The reply to the window's request for the latest response: the response,
/// which is also shown through `show_response_in_frontend`; or, when there is
/// none, the error `"Couldn't get last response"` and no event.
pub fn send_response_to_frontend(session: &Session) -> (reply: FrontendReply)
    ensures
        reply.result is Ok <==> session@.response is Some,
        reply.result matches Ok(v) ==> v@ == session@.response->0,
        reply.result matches Err(e) ==> e@ == "Couldn't get last response"@,
        reply.event is Some <==> session@.response is Some,
        reply.event matches Some(ev) ==> event_view(ev) == (show_response_event(), session@.response->0),
{
    match session.get_latest_response() {
        Ok(val) => {
            let ev = frontend_event("show_response_in_frontend", val.clone());
            FrontendReply { result: Ok(val), event: Some(ev) }
        },
        Err(_) => FrontendReply { result: Err("Couldn't get last response"), event: None },
    }
}

/// The reply to the window's request for the latest prompt: the prompt, which is
/// also shown through `show_prompt_in_frontend`; or, when there is none, the
/// error `"Couldn't get last prompt"` and no event.
pub fn send_prompt_to_frontend(session: &Session) -> (reply: FrontendReply)
    ensures
        reply.result is Ok <==> session@.prompt is Some,
        reply.result matches Ok(v) ==> v@ == session@.prompt->0,
        reply.result matches Err(e) ==> e@ == "Couldn't get last prompt"@,
        reply.event is Some <==> session@.prompt is Some,
        reply.event matches Some(ev) ==> event_view(ev) == (show_prompt_event(), session@.prompt->0),
{
    match session.get_latest_prompt() {
        Ok(val) => {
            let ev = frontend_event("show_prompt_in_frontend", val.clone());
            FrontendReply { result: Ok(val), event: Some(ev) }
        },
        Err(_) => FrontendReply { result: Err("Couldn't get last prompt"), event: None },
    }
}

} // verus!

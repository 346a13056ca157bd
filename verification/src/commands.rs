use vstd::prelude::*;
use crate::frontend::{FrontendEvent, frontend_event, event_view, show_response_event, prompt_and_response_event};
use crate::session::{Session, SessionView, rotated, recorded, text_or_empty};
use crate::chat::{ChatRequest, ContentView, Role, chat_request, messages_view, text_model, MAX_ANSWER_TOKENS};

verus! {

/// How a prompt is sent: with the screenshot saved under the given file name,
/// or as text alone.
#[derive(Debug, PartialEq, Eq)]
pub enum CallRoute {
    Vision(String),
    Text,
}

/// The plan of a call: its route and the line it writes to the log first.
#[derive(Debug, PartialEq, Eq)]
pub struct CallPlan {
    pub route: CallRoute,
    pub log_line: String,
}

/// What a call does once the exchange with the model is over.
#[derive(Debug, PartialEq, Eq)]
pub struct CallOutcome {
    /// The line written to the log, if any.
    pub log_line: Option<String>,
    /// Whether the stored name of the latest screenshot is reset to empty.
    pub clear_screenshot: bool,
    /// The event for the window, if any.
    pub event: Option<FrontendEvent>,
    /// What the command returns.
    pub result: Result<String, String>,
}

/// The error of a call made without an API key.
pub open spec fn no_api_key_message() -> Seq<char> {
    "Error: Can't call ChatGPT: No api-key"@
}

/// A call needs an API key: `Err` with the message the window shows when there
/// is none.
pub fn check_api_key(session: &Session) -> (r: Result<(), String>)
    ensures
        r is Ok <==> session@.api_key is Some,
        r matches Err(e) ==> e@ == no_api_key_message(),
{
    if session.has_api_key() {
        Ok(())
    } else {
        Err("Error: Can't call ChatGPT: No api-key".to_owned())
    }
}

/// The log line of a prompt sent with a screenshot.
pub open spec fn vision_log_line(screenshot: Seq<char>, prompt: Seq<char>) -> Seq<char> {
    screenshot + ": Prompt: "@ + prompt
}

/// The log line of a prompt sent as text.
pub open spec fn text_log_line(prompt: Seq<char>) -> Seq<char> {
    "Prompt: "@ + prompt
}

/// Chooses the route of a prompt: when a screenshot is waiting (its stored
/// name is not empty) the prompt goes with it, else the prompt goes alone.
pub fn plan_call(latest_screenshot: &str, prompt: &str) -> (plan: CallPlan)
    ensures
        latest_screenshot@.len() > 0 ==> (plan.route matches CallRoute::Vision(f) && f@ == latest_screenshot@),
        latest_screenshot@.len() > 0 ==> plan.log_line@ == vision_log_line(latest_screenshot@, prompt@),
        latest_screenshot@.len() == 0 ==> plan.route is Text,
        latest_screenshot@.len() == 0 ==> plan.log_line@ == text_log_line(prompt@),
{
    if !latest_screenshot.is_empty() {
        let line = latest_screenshot.to_owned().concat(": Prompt: ").concat(prompt);
        CallPlan { route: CallRoute::Vision(latest_screenshot.to_owned()), log_line: line }
    } else {
        CallPlan { route: CallRoute::Text, log_line: "Prompt: ".to_owned().concat(prompt) }
    }
}

/// The log line of an answer.
pub open spec fn response_log_line(response: Seq<char>) -> Seq<char> {
    "Response: "@ + response
}

/// A call's outcome, as text.
pub struct OutcomeView {
    pub log_line: Option<Seq<char>>,
    pub clear_screenshot: bool,
    pub event: Option<(Seq<char>, Seq<char>)>,
    pub result: Result<Seq<char>, Seq<char>>,
}

pub open spec fn outcome_view(o: CallOutcome) -> OutcomeView {
    OutcomeView {
        log_line: o.log_line.deep_view(),
        clear_screenshot: o.clear_screenshot,
        event: match o.event {
            Some(e) => Some(event_view(e)),
            None => None,
        },
        result: match o.result {
            Ok(s) => Ok(s@),
            Err(e) => Err(e@),
        },
    }
}

/// How an exchange ended, as text.
pub open spec fn exchange_view(e: Result<(), String>) -> Result<(), Seq<char>> {
    match e {
        Ok(()) => Ok(()),
        Err(m) => Err(m@),
    }
}

/// What follows an exchange.  When it went through: the latest response is
/// logged and shown, a screenshot that went with the prompt is no longer
/// waiting, and the command returns `"success"`.  When it failed: nothing is
/// logged or shown and the command returns the error's text.
pub open spec fn outcome_of(vision: bool, exchange: Result<(), Seq<char>>, response: Option<Seq<char>>) -> OutcomeView {
    match exchange {
        Ok(()) => OutcomeView {
            log_line: Some(response_log_line(text_or_empty(response))),
            clear_screenshot: vision,
            event: Some((show_response_event(), text_or_empty(response))),
            result: Ok("success"@),
        },
        Err(e) => OutcomeView { log_line: None, clear_screenshot: false, event: None, result: Err(e) },
    }
}

/// What follows an exchange (see `outcome_of`).  A successful exchange has
/// recorded a response.
pub fn conclude_call(route: &CallRoute, exchange: Result<(), String>, session: &Session) -> (out: CallOutcome)
    requires
        exchange is Ok ==> session@.response is Some,
    ensures
        outcome_view(out) == outcome_of(route is Vision, exchange_view(exchange), session@.response),
{
    match exchange {
        Ok(()) => {
            let response = match session.get_latest_response() {
                Ok(r) => r,
                Err(_) => String::new(),
            };
            let line = "Response: ".to_owned().concat(response.as_str());
            let clear = match route {
                CallRoute::Vision(_) => true,
                CallRoute::Text => false,
            };
            let ev = frontend_event("show_response_in_frontend", response);
            CallOutcome { log_line: Some(line), clear_screenshot: clear, event: Some(ev), result: Ok("success".to_owned()) }
        },
        Err(e) => CallOutcome { log_line: None, clear_screenshot: false, event: None, result: Err(e) },
    }
}

/// The event that follows a prompt given at start-up: when its call succeeded,
/// the window is told to show the prompt and its answer; else nothing.
pub fn startup_call_event(prompt: String, call: &Result<String, String>) -> (ev: Option<FrontendEvent>)
    ensures
        ev is Some <==> call is Ok,
        ev matches Some(e) ==> event_view(e) == (prompt_and_response_event(), prompt@),
{
    match call {
        Ok(_) => Some(frontend_event("createPromptAndResponse", prompt)),
        Err(_) => None,
    }
}

/// The opening of a text exchange: the prompt is taken into the session, and the
/// request carries the prompt and answer that came before it.
pub fn begin_chat(session: &mut Session, prompt: String) -> (req: ChatRequest)
    requires
        old(session)@.prompt is Some,
    ensures
        final(session)@ == rotated(old(session)@, prompt@),
        req.model@ == text_model(),
        req.max_tokens == MAX_ANSWER_TOKENS,
        messages_view(req.messages@) == seq![
            (Role::User, ContentView::Text(old(session)@.prompt->0)),
            (Role::Assistant, ContentView::Text(text_or_empty(old(session)@.response))),
            (Role::User, ContentView::Text(prompt@)),
        ],
{
    let history = session.rotate_history(prompt.clone());
    chat_request(history.last_prompt, history.last_response, prompt)
}

/// A session with its API key left out.
pub open spec fn without_key(s: SessionView) -> SessionView {
    SessionView { api_key: None, ..s }
}

/// The value of the API key never reaches what a call checks, logs, shows or
/// returns, nor the rest of the session: two sessions that differ only in the
/// value of a present key pass the key check alike, send the same history, get
/// the same outcome for the same exchange, and stay alike through the taking of
/// a prompt and the recording of an answer.
pub proof fn lemma_key_value_does_not_reach_output(
    s1: SessionView,
    s2: SessionView,
    vision: bool,
    exchange: Result<(), Seq<char>>,
    prompt: Seq<char>,
    answer: Seq<char>,
)
    requires
        without_key(s1) == without_key(s2),
        s1.api_key is Some,
        s2.api_key is Some,
    ensures
        (s1.api_key is Some) == (s2.api_key is Some),
        s1.prompt == s2.prompt,
        s1.response == s2.response,
        outcome_of(vision, exchange, s1.response) == outcome_of(vision, exchange, s2.response),
        without_key(rotated(s1, prompt)) == without_key(rotated(s2, prompt)),
        without_key(recorded(s1, answer)) == without_key(recorded(s2, answer)),
{
    assert(s1.prompt == without_key(s1).prompt);
    assert(s1.response == without_key(s1).response);
}

/// What a call concludes, for every route, exchange and latest response: a
/// successful exchange logs `Response: ` and the latest response, shows the
/// latest response in the window and returns `"success"`; a failed one logs
/// nothing, shows nothing, keeps the waiting screenshot and returns its error.
pub proof fn lemma_call_outcome(vision: bool, exchange: Result<(), Seq<char>>, response: Option<Seq<char>>)
    ensures
        exchange is Ok ==> {
            let o = outcome_of(vision, exchange, response);
            &&& o.event == Some((show_response_event(), text_or_empty(response)))
            &&& o.log_line == Some("Response: "@ + text_or_empty(response))
            &&& o.result == Ok::<Seq<char>, Seq<char>>("success"@)
            &&& o.clear_screenshot == vision
        },
        exchange matches Err(e) ==> {
            let o = outcome_of(vision, exchange, response);
            &&& o.event is None
            &&& o.log_line is None
            &&& o.result == Err::<Seq<char>, Seq<char>>(e)
            &&& !o.clear_screenshot
        },
{
}

/// The route only decides whether the waiting screenshot is cleared: a text
/// prompt and a screenshot prompt log, show and return the same for the same
/// exchange and response.
pub proof fn lemma_call_outcome_route_free(exchange: Result<(), Seq<char>>, response: Option<Seq<char>>)
    ensures
        outcome_of(true, exchange, response).log_line == outcome_of(false, exchange, response).log_line,
        outcome_of(true, exchange, response).event == outcome_of(false, exchange, response).event,
        outcome_of(true, exchange, response).result == outcome_of(false, exchange, response).result,
        outcome_of(true, exchange, response).clear_screenshot == exchange is Ok,
        !outcome_of(false, exchange, response).clear_screenshot,
{
}

/// A call fails exactly when its exchange failed, and then with the
/// exchange's error; it shows a response exactly when it succeeds.
pub proof fn lemma_call_fails_with_exchange(vision: bool, exchange: Result<(), Seq<char>>, response: Option<Seq<char>>)
    ensures
        outcome_of(vision, exchange, response).result is Err <==> exchange is Err,
        outcome_of(vision, exchange, response).event is Some <==> exchange is Ok,
        outcome_of(vision, exchange, response).log_line is Some <==> exchange is Ok,
        exchange matches Err(e) ==> outcome_of(vision, exchange, response).result->Err_0 == e,
{
}

/// The log line of a prompt ends with the prompt; with a screenshot it starts
/// with the screenshot's file name.
pub proof fn lemma_plan_log_lines(screenshot: Seq<char>, prompt: Seq<char>)
    ensures
        vision_log_line(screenshot, prompt).subrange(0, screenshot.len() as int) == screenshot,
        vision_log_line(screenshot, prompt).subrange(
            vision_log_line(screenshot, prompt).len() - prompt.len(),
            vision_log_line(screenshot, prompt).len() as int,
        ) == prompt,
        text_log_line(prompt) == "Prompt: "@ + prompt,
        response_log_line(prompt) == "Response: "@ + prompt,
{
    let l = vision_log_line(screenshot, prompt);
    assert(l.subrange(0, screenshot.len() as int) =~= screenshot);
    assert(l.subrange(l.len() - prompt.len(), l.len() as int) =~= prompt);
}

} // verus!

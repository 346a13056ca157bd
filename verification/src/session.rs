use vstd::prelude::*;

verus! {

/// The conversation state that the program keeps between commands: the latest
/// prompt and response, the ones before them, and the API key.  Each field is
/// `None` while it has never been set.
pub struct Session {
    pub prompt: Option<String>,
    pub previous_prompt: Option<String>,
    pub response: Option<String>,
    pub previous_response: Option<String>,
    pub api_key: Option<String>,
}

/// What a `Session` holds, as text.
pub struct SessionView {
    pub prompt: Option<Seq<char>>,
    pub previous_prompt: Option<Seq<char>>,
    pub response: Option<Seq<char>>,
    pub previous_response: Option<Seq<char>>,
    pub api_key: Option<Seq<char>>,
}

impl View for Session {
    type V = SessionView;

    open spec fn view(&self) -> SessionView {
        SessionView {
            prompt: self.prompt.deep_view(),
            previous_prompt: self.previous_prompt.deep_view(),
            response: self.response.deep_view(),
            previous_response: self.previous_response.deep_view(),
            api_key: self.api_key.deep_view(),
        }
    }
}

/// The history that a new exchange sends along: the prompt and the response of
/// the exchange before it.
pub struct History {
    pub last_prompt: String,
    pub last_response: String,
}

/// The session after a new prompt is taken: a non-empty latest prompt becomes the
/// previous prompt, an existing latest response becomes the previous response,
/// and the new prompt becomes the latest.  The latest response stays until the
/// answer is recorded.
pub open spec fn rotated(s: SessionView, prompt: Seq<char>) -> SessionView {
    SessionView {
        prompt: Some(prompt),
        previous_prompt: if s.prompt->0.len() > 0 { s.prompt } else { s.previous_prompt },
        previous_response: if s.response is Some { s.response } else { s.previous_response },
        ..s
    }
}

/// The session after an answer is recorded as the latest response.
pub open spec fn recorded(s: SessionView, response: Seq<char>) -> SessionView {
    SessionView { response: Some(response), ..s }
}

/// The text of an optional field, empty when it is unset.
pub open spec fn text_or_empty(t: Option<Seq<char>>) -> Seq<char> {
    match t {
        Some(t) => t,
        None => Seq::empty(),
    }
}

fn stored_text(field: &Option<String>) -> (r: Result<String, &'static str>)
    ensures
        r is Ok <==> field is Some,
        r matches Ok(v) ==> v@ == field->0@,
        r matches Err(e) ==> e@ == "error"@,
{
    match field {
        Some(v) => Ok(v.clone()),
        None => Err("error"),
    }
}

impl Session {
    /// A session in which nothing has been set.
    pub fn new() -> (s: Session)
        ensures
            s@.prompt is None,
            s@.previous_prompt is None,
            s@.response is None,
            s@.previous_response is None,
            s@.api_key is None,
    {
        Session { prompt: None, previous_prompt: None, response: None, previous_response: None, api_key: None }
    }

    /// The latest response, or `Err("error")` when none was recorded.
    pub fn get_latest_response(&self) -> (r: Result<String, &'static str>)
        ensures
            r is Ok <==> self@.response is Some,
            r matches Ok(v) ==> v@ == self@.response->0,
            r matches Err(e) ==> e@ == "error"@,
    {
        stored_text(&self.response)
    }

    /// The latest prompt, or `Err("error")` when none was set.
    pub fn get_latest_prompt(&self) -> (r: Result<String, &'static str>)
        ensures
            r is Ok <==> self@.prompt is Some,
            r matches Ok(v) ==> v@ == self@.prompt->0,
            r matches Err(e) ==> e@ == "error"@,
    {
        stored_text(&self.prompt)
    }

    /// Whether an API key is set.
    pub fn has_api_key(&self) -> (b: bool)
        ensures
            b == self@.api_key is Some,
    {
        self.api_key.is_some()
    }

    /// Sets the latest prompt, leaving the rest as it is.
    pub fn set_prompt(&mut self, prompt: String)
        ensures
            final(self)@ == (SessionView { prompt: Some(prompt@), ..old(self)@ }),
    {
        self.prompt = Some(prompt);
    }

    /// Sets the API key, leaving the rest as it is.
    pub fn set_api_key(&mut self, key: String)
        ensures
            final(self)@ == (SessionView { api_key: Some(key@), ..old(self)@ }),
    {
        self.api_key = Some(key);
    }

    /// Takes a new prompt (the opening of every exchange with the model) and
    /// returns the prompt and response that came before it; the response is
    /// empty when none was recorded.
    pub fn rotate_history(&mut self, prompt: String) -> (h: History)
        requires
            old(self)@.prompt is Some,
        ensures
            final(self)@ == rotated(old(self)@, prompt@),
            h.last_prompt@ == old(self)@.prompt->0,
            h.last_response@ == text_or_empty(old(self)@.response),
    {
        let last_prompt = match &self.prompt {
            Some(p) => p.clone(),
            None => String::new(),
        };
        if !last_prompt.as_str().is_empty() {
            self.previous_prompt = Some(last_prompt.clone());
        }
        self.prompt = Some(prompt);
        let last_response = match &self.response {
            Some(r) => {
                self.previous_response = Some(r.clone());
                r.clone()
            },
            None => String::new(),
        };
        History { last_prompt, last_response }
    }

    /// Records the answer of an exchange as the latest response.
    pub fn record_response(&mut self, response: String)
        ensures
            final(self)@ == recorded(old(self)@, response@),
    {
        self.response = Some(response);
    }
}

/// Read after write: once a prompt is taken, it is the latest prompt.
pub proof fn lemma_prompt_read_after_rotate(s: SessionView, prompt: Seq<char>)
    ensures
        rotated(s, prompt).prompt == Some(prompt),
{
}

/// Read after write: once an answer is recorded, it is the latest response.
pub proof fn lemma_response_read_after_record(s: SessionView, response: Seq<char>)
    ensures
        recorded(s, response).response == Some(response),
{
}

/// One whole exchange shifts the history by one: the new prompt and answer become
/// the latest, the prompt before them (when it was not empty) and the answer
/// before them (when there was one) become the previous ones, and the API key
/// is untouched.
pub proof fn lemma_exchange_shifts_history(s: SessionView, prompt: Seq<char>, answer: Seq<char>)
    requires
        s.prompt is Some,
    ensures
        ({
            let t = recorded(rotated(s, prompt), answer);
            &&& t.prompt == Some(prompt)
            &&& t.response == Some(answer)
            &&& s.prompt->0.len() > 0 ==> t.previous_prompt == s.prompt
            &&& s.prompt->0.len() == 0 ==> t.previous_prompt == s.previous_prompt
            &&& s.response is Some ==> t.previous_response == s.response
            &&& s.response is None ==> t.previous_response == s.previous_response
            &&& t.api_key == s.api_key
        }),
{
}

/// Two exchanges in a row: after the second, the previous prompt and response are
/// those of the first (provided the first prompt was not empty).
pub proof fn lemma_two_exchanges(s: SessionView, p1: Seq<char>, a1: Seq<char>, p2: Seq<char>, a2: Seq<char>)
    requires
        s.prompt is Some,
        p1.len() > 0,
    ensures
        ({
            let t = recorded(rotated(recorded(rotated(s, p1), a1), p2), a2);
            &&& t.prompt == Some(p2)
            &&& t.response == Some(a2)
            &&& t.previous_prompt == Some(p1)
            &&& t.previous_response == Some(a1)
        }),
{
}

/// An unset field reads as the empty text, a set one as its text exactly.
pub proof fn lemma_text_or_empty(t: Seq<char>)
    ensures
        text_or_empty(Some(t)) == t,
        text_or_empty(None) == Seq::<char>::empty(),
{
}

} // verus!

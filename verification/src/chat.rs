use vstd::prelude::*;

verus! {

/// Who speaks in a chat message.
#[derive(Clone, Copy, Debug, PartialEq, Eq)]
pub enum Role {
    User,
    Assistant,
}

/// The content of a chat message: plain text, or a single image given by URL.
#[derive(Debug, PartialEq, Eq)]
pub enum MessageContent {
    Text(String),
    ImageUrl(String),
}

/// The content of a message, as text.
pub enum ContentView {
    Text(Seq<char>),
    ImageUrl(Seq<char>),
}

#[derive(Debug, PartialEq, Eq)]
pub struct ChatMessage {
    pub role: Role,
    pub content: MessageContent,
}

/// A request for a streamed chat completion.
#[derive(Debug, PartialEq, Eq)]
pub struct ChatRequest {
    pub model: String,
    pub max_tokens: u16,
    pub messages: Vec<ChatMessage>,
}

pub open spec fn content_view(c: MessageContent) -> ContentView {
    match c {
        MessageContent::Text(t) => ContentView::Text(t@),
        MessageContent::ImageUrl(u) => ContentView::ImageUrl(u@),
    }
}

/// A message as its role and the text of its content.
pub open spec fn message_view(m: ChatMessage) -> (Role, ContentView) {
    (m.role, content_view(m.content))
}

/// The messages of a request, as roles and texts.
pub open spec fn messages_view(ms: Seq<ChatMessage>) -> Seq<(Role, ContentView)> {
    ms.map_values(|m: ChatMessage| message_view(m))
}

/// The model that answers text prompts.
pub open spec fn text_model() -> Seq<char> {
    "gpt-4-1106-preview"@
}

/// The model that answers prompts about a screenshot.
pub open spec fn vision_model() -> Seq<char> {
    "gpt-4-vision-preview"@
}

/// The most tokens an answer may take.
pub const MAX_ANSWER_TOKENS: u16 = 512;

fn text_message(role: Role, text: String) -> (m: ChatMessage)
    ensures
        message_view(m) == (role, ContentView::Text(text@)),
{
    ChatMessage { role, content: MessageContent::Text(text) }
}

/// The request for a text prompt: the previous prompt and answer, then the new
/// prompt, so that the model sees the last exchange.
pub fn chat_request(last_prompt: String, last_response: String, prompt: String) -> (r: ChatRequest)
    ensures
        r.model@ == text_model(),
        r.max_tokens == MAX_ANSWER_TOKENS,
        messages_view(r.messages@) == seq![
            (Role::User, ContentView::Text(last_prompt@)),
            (Role::Assistant, ContentView::Text(last_response@)),
            (Role::User, ContentView::Text(prompt@)),
        ],
{
    let mut messages: Vec<ChatMessage> = Vec::new();
    messages.push(text_message(Role::User, last_prompt));
    messages.push(text_message(Role::Assistant, last_response));
    messages.push(text_message(Role::User, prompt));
    let r = ChatRequest { model: "gpt-4-1106-preview".to_owned(), max_tokens: MAX_ANSWER_TOKENS, messages };
    assert(messages_view(r.messages@) =~= seq![
        (Role::User, ContentView::Text(last_prompt@)),
        (Role::Assistant, ContentView::Text(last_response@)),
        (Role::User, ContentView::Text(prompt@)),
    ]);
    r
}

/// The request for a prompt about a screenshot: the prompt, then the image as a
/// message of its own.
pub fn vision_request(prompt: String, image_url: String) -> (r: ChatRequest)
    ensures
        r.model@ == vision_model(),
        r.max_tokens == MAX_ANSWER_TOKENS,
        messages_view(r.messages@) == seq![
            (Role::User, ContentView::Text(prompt@)),
            (Role::User, ContentView::ImageUrl(image_url@)),
        ],
{
    let mut messages: Vec<ChatMessage> = Vec::new();
    messages.push(text_message(Role::User, prompt));
    messages.push(ChatMessage { role: Role::User, content: MessageContent::ImageUrl(image_url) });
    let r = ChatRequest { model: "gpt-4-vision-preview".to_owned(), max_tokens: MAX_ANSWER_TOKENS, messages };
    assert(messages_view(r.messages@) =~= seq![
        (Role::User, ContentView::Text(prompt@)),
        (Role::User, ContentView::ImageUrl(image_url@)),
    ]);
    r
}

} // verus!

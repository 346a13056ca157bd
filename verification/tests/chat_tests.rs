use gpt_screenshot::chat::{chat_request, vision_request, ChatMessage, MessageContent, Role, MAX_ANSWER_TOKENS};
use gpt_screenshot::commands::begin_chat;
use gpt_screenshot::session::Session;

fn text(role: Role, t: &str) -> ChatMessage {
    ChatMessage { role, content: MessageContent::Text(t.to_string()) }
}

#[test]
fn chat_request_carries_the_last_exchange() {
    let r = chat_request("hi".to_string(), "hello!".to_string(), "how are you?".to_string());
    assert_eq!(r.model, "gpt-4-1106-preview");
    assert_eq!(r.max_tokens, 512);
    assert_eq!(
        r.messages,
        vec![text(Role::User, "hi"), text(Role::Assistant, "hello!"), text(Role::User, "how are you?")]
    );
}

#[test]
fn vision_request_has_prompt_then_image() {
    let r = vision_request("what is this?".to_string(), "data:image/png;base64,AAAA".to_string());
    assert_eq!(r.model, "gpt-4-vision-preview");
    assert_eq!(r.max_tokens, MAX_ANSWER_TOKENS);
    assert_eq!(
        r.messages,
        vec![
            text(Role::User, "what is this?"),
            ChatMessage {
                role: Role::User,
                content: MessageContent::ImageUrl("data:image/png;base64,AAAA".to_string())
            },
        ]
    );
}

#[test]
fn begin_chat_sends_history_and_rotates() {
    let mut s = Session::new();
    s.set_prompt("earlier".to_string());
    s.record_response("earlier answer".to_string());
    let r = begin_chat(&mut s, "now".to_string());
    assert_eq!(
        r.messages,
        vec![text(Role::User, "earlier"), text(Role::Assistant, "earlier answer"), text(Role::User, "now")]
    );
    assert_eq!(s.prompt.as_deref(), Some("now"));
    assert_eq!(s.previous_prompt.as_deref(), Some("earlier"));
}

#[test]
fn begin_chat_on_first_prompt_sends_empty_history() {
    let mut s = Session::new();
    s.set_prompt("".to_string());
    let r = begin_chat(&mut s, "first".to_string());
    assert_eq!(r.messages, vec![text(Role::User, ""), text(Role::Assistant, ""), text(Role::User, "first")]);
    assert_eq!(s.previous_prompt, None);
}

use vstd::prelude::*;
use crate::frontend::{FrontendEvent, frontend_event, event_view, show_screenshot_event};
use crate::session::{Session, SessionView};

verus! {

/// What the settings store holds under a key: nothing (or no store), a JSON
/// string, or some other JSON value.
#[derive(Debug, PartialEq, Eq)]
pub enum StoredValue {
    Missing,
    Text(String),
    Other,
}

/// A stored value, as text.
pub enum StoredView {
    Missing,
    Text(Seq<char>),
    Other,
}

pub open spec fn stored_view(v: StoredValue) -> StoredView {
    match v {
        StoredValue::Missing => StoredView::Missing,
        StoredValue::Text(t) => StoredView::Text(t@),
        StoredValue::Other => StoredView::Other,
    }
}

/// What the store holds after a text setting is written: the text as a JSON string.
pub open spec fn stored_for(value: Seq<char>) -> StoredView {
    StoredView::Text(value)
}

/// The text read back from a stored value that is not `Other`.
pub open spec fn read_back(v: StoredView) -> Seq<char> {
    match v {
        StoredView::Text(t) => t,
        _ => Seq::empty(),
    }
}

/// Whether a setting write reports success: always, but for a failed write of
/// the API key.
pub open spec fn save_succeeds(key: Seq<char>, written: bool) -> bool {
    !(key == api_key_key() && !written)
}

/// The key under which the API key is stored.
pub open spec fn api_key_key() -> Seq<char> {
    "api-key"@
}

/// The key under which the file name of the latest screenshot is stored.
pub open spec fn latest_screenshot_key() -> Seq<char> {
    "latest-screenshot"@
}

/// The value stored for a text setting: the text as a JSON string.
pub fn stored_value_for(key_value: String) -> (v: StoredValue)
    ensures
        stored_view(v) == stored_for(key_value@),
{
    StoredValue::Text(key_value)
}

/// The text of a setting as read back: the stored string, or the empty text when
/// nothing is stored.  A stored value that is not a string is not a setting of
/// this program (reading it fails), so it is left out.
pub fn get_key_from_store(entry: StoredValue) -> (text: String)
    requires
        !(entry is Other),
    ensures
        text@ == read_back(stored_view(entry)),
{
    match entry {
        StoredValue::Text(t) => t,
        _ => String::new(),
    }
}

/// What a setting write returns.  For the API key, the key takes effect for
/// the session only when the store took it, and a failed write is the error
/// `"Något error"`.  Every other setting reports `"success"` whatever the store
/// did, and leaves the session as it is.
pub fn save_to_store(key: &str, key_value: String, written: bool, session: &mut Session) -> (r: Result<String, &'static str>)
    ensures
        key@ == api_key_key() && written ==> final(session)@ == (SessionView { api_key: Some(key_value@), ..old(session)@ }),
        !(key@ == api_key_key() && written) ==> final(session)@ == old(session)@,
        r is Ok <==> save_succeeds(key@, written),
        r matches Err(e) ==> e@ == "Något error"@,
        r matches Ok(s) ==> s@ == "success"@,
{
    let is_api_key = key.to_owned() == "api-key".to_owned();
    if is_api_key {
        if written {
            session.set_api_key(key_value);
            Ok("success".to_owned())
        } else {
            Err("Något error")
        }
    } else {
        Ok("success".to_owned())
    }
}

/// The event after a screenshot is taken: when the image file was written and
/// its name was stored, the window is told the file name; else nothing.
pub fn screenshot_saved_event(filename: String, image_saved: bool, store_reply: &Result<String, &'static str>) -> (ev: Option<FrontendEvent>)
    ensures
        ev is Some <==> (image_saved && store_reply is Ok),
        ev matches Some(e) ==> event_view(e) == (show_screenshot_event(), filename@),
{
    if image_saved && store_reply.is_ok() {
        Some(frontend_event("show-latest-screenshot", filename))
    } else {
        None
    }
}

/// A setting written and then read back gives the text written.
pub proof fn lemma_store_round_trip(value: Seq<char>)
    ensures
        read_back(stored_for(value)) == value,
{
}

/// Storing the name of the latest screenshot always reports success, so the
/// window hears of a screenshot exactly when its image file was written.
pub proof fn lemma_screenshot_name_save_succeeds(written: bool)
    ensures
        save_succeeds(latest_screenshot_key(), written),
{
    reveal_strlit("latest-screenshot");
    reveal_strlit("api-key");
    assert(latest_screenshot_key()[0] != api_key_key()[0]);
}

/// A write of the API key that the store refused is reported as failed; every
/// other write, and an accepted API-key write, is reported as a success.
pub proof fn lemma_save_reports(key: Seq<char>, written: bool)
    ensures
        !save_succeeds(api_key_key(), false),
        save_succeeds(key, true),
        key != api_key_key() ==> save_succeeds(key, written),
{
}

/// A stored text reads back as itself, and a missing setting as the empty text.
pub proof fn lemma_read_back(t: Seq<char>)
    ensures
        read_back(StoredView::Text(t)) == t,
        read_back(StoredView::Missing) == Seq::<char>::empty(),
        stored_for(t) == StoredView::Text(t),
{
}

} // verus!

//! Verified core of a desktop assistant that sends a prompt, and optionally a
//! screenshot of a selected screen area, to a chat model and streams the answer
//! back to its window.
//!
//! The library holds the decisions and the data transformations: the capture
//! rectangle of a drag selection, the screenshot file name, the PNG data URL of
//! an image, the chat requests, the prompt/response history, the streaming
//! transcript, the settings-store rules and the start-up prompt.  Screen capture,
//! disk, network, the window system and the process environment stay with the
//! program that drives it.

pub mod geometry;
pub mod timestamp;
pub mod base64_text;
pub mod encoding;
pub mod session;
pub mod chat;
pub mod frontend;
pub mod exchange;
pub mod commands;
pub mod store;
pub mod startup;

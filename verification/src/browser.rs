//! Browser sessions: targets, actions, artifacts, evidence and state.

use vstd::prelude::*;

use crate::outside::{ExJsonValue, Timestamp};

verus! {

/// What a browser session opens.
#[derive(Debug, Clone)]
pub enum BrowserTarget {
    Url(String),
    Environment(String),
    Blank,
}

/// An action in a browser session.
#[derive(Debug, Clone)]
pub enum BrowserAction {
    Navigate { url: String },
    Click { selector: String },
    Type { selector: String, text: String },
    WaitFor { selector: String, timeout_ms: u64 },
    EvalJs { script: String },
    Scroll { x: i32, y: i32 },
    Screenshot,
    ReadText { selector: Option<String> },
    ReadConsole,
}

/// A console message of the page.
#[derive(Debug, Clone)]
pub struct ConsoleMessage {
    pub level: String,
    pub text: String,
    pub at: Timestamp,
}

/// What a browser action produces.
#[derive(Debug, Clone)]
pub enum BrowserArtifact {
    Screenshot { uri: String, captured_at: Timestamp },
    Text { content: String },
    Console { messages: Vec<ConsoleMessage> },
    JsResult { value: serde_json::Value },
    Ack,
}

/// State of a browser session.
#[derive(Debug, Clone)]
pub struct BrowserState {
    pub id: u128,
    pub current_url: String,
    pub title: String,
    pub active: bool,
    pub opened_at: Timestamp,
}

/// Evidence captured in a browser session.
#[derive(Debug, Clone)]
pub struct BrowserEvidence {
    pub kind: String,
    pub uri: String,
    pub label: String,
    pub captured_at: Timestamp,
}

} // verus!

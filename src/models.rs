use vstd::prelude::*;

verus! {

/// A chat turn sent by the client; without a session id a new session starts.
#[derive(Debug, PartialEq, Eq)]
pub struct ChatRequest {
    pub session_id: Option<String>,
    pub message: String,
}

/// A request for the journal of a session.
#[derive(Debug, PartialEq, Eq)]
pub struct JournalRequest {
    pub session_id: Option<String>,
}

/// The answer to a chat turn: the session it was recorded in and the reply.
#[derive(Debug, PartialEq, Eq)]
pub struct ChatResponse {
    pub session_id: String,
    pub response: String,
}

/// The answer to a journal request: markdown text, or a fixed notice.
#[derive(Debug, PartialEq, Eq)]
pub struct JournalResponse {
    pub journal: String,
}

} // verus!

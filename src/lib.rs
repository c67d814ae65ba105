//! Session-based chat relay with journal generation.
//!
//! The library holds the session store, the journal formatter, the rules that
//! turn a completion API's reply into displayable text, and the decisions of
//! the two request flows (chat turn, journal generation). Network I/O, locking
//! and HTTP routing live in the binary around it.

mod completion;
mod handlers;
mod journal;
mod models;
mod session;

pub use completion::{
    chat_request, chat_text, completion_result, journal_prompt_of, journal_request, reply_outcome,
    result_view, summary_text, ApiReply,
    CompletionRequest, CompletionResult, API_ERROR_PREFIX, CHAT_MAX_TOKENS, CHAT_PERSONA,
    JOURNAL_MAX_TOKENS, JOURNAL_PERSONA, MODEL, TEMPERATURE_PERCENT, UNPARSABLE_REPLY,
    UNREACHABLE_PREFIX,
};
pub use handlers::{
    begin_chat, begin_journal, finish_chat, finish_journal, journal_start,
    lemma_request_without_id_not_found, names_session,
    requested_id, step_view, JournalStep,
};
pub use journal::{
    bulleted, contains_failure_marker, first_bullet, generate_markdown, has_failure_marker, is_blank,
    is_blank_text, journal_choice, markdown_of, select_journal, EMPTY_JOURNAL, JOURNAL_FOOTER,
    JOURNAL_HEADING, SESSION_NOT_FOUND,
};
pub use models::{ChatRequest, ChatResponse, JournalRequest, JournalResponse};
pub use session::{
    lemma_appended_turns, lemma_created_session_is_empty, transcript_of, with_turn, SessionStore,
};

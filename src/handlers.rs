use vstd::prelude::*;
use crate::completion::{result_view, summary_text, chat_text, CompletionResult};
use crate::journal::{
    generate_markdown, is_blank, is_blank_text, journal_choice, markdown_of, select_journal, EMPTY_JOURNAL, JOURNAL_FOOTER,
    SESSION_NOT_FOUND,
};
use crate::models::{ChatResponse, JournalResponse};
use crate::session::{with_turn, SessionStore};

verus! {

/// Where a journal request stands once the store has been read.
#[derive(Debug, PartialEq, Eq)]
pub enum JournalStep {
    /// The request is answered without the model.
    Reply(String),
    /// The model is to summarise `transcript`, in a journal dated `date`.
    Summarize { transcript: String, date: String },
}

/// The session id a request names; an absent one is the empty id.
pub open spec fn requested_id(session_id: Option<String>) -> Seq<char> {
    match session_id {
        Some(id) => id@,
        None => Seq::empty(),
    }
}

/// Whether the step goes to the model, and the text it carries: the reply,
/// or the transcript to summarise.
pub open spec fn step_view(step: JournalStep) -> (bool, Seq<char>) {
    match step {
        JournalStep::Reply(m) => (false, m@),
        JournalStep::Summarize { transcript, .. } => (true, transcript@),
    }
}

/// How a journal request for `id` starts: the not-found notice for an unknown
/// id, the empty-journal notice for a blank transcript, else a summary of the
/// transcript by the model.
pub open spec fn journal_start(sessions: Map<Seq<char>, Seq<char>>, id: Seq<char>) -> (bool, Seq<char>) {
    if !sessions.contains_key(id) {
        (false, SESSION_NOT_FOUND@)
    } else if is_blank(sessions[id]) {
        (false, EMPTY_JOURNAL@)
    } else {
        (true, sessions[id])
    }
}

/// A store that holds no session under the empty id, as none that only
/// `create_session` has filled does, answers a journal request without an id
/// with the not-found notice; a new session keeps it so.
pub proof fn lemma_request_without_id_not_found(
    sessions: Map<Seq<char>, Seq<char>>,
    created: Seq<char>,
)
    requires
        !sessions.contains_key(Seq::<char>::empty()),
        created.len() > 0,
    ensures
        journal_start(sessions, requested_id(None)) == (false, SESSION_NOT_FOUND@),
        !sessions.insert(created, Seq::<char>::empty()).contains_key(requested_id(None)),
{
}

/// Relies on chrono::Local::now and its `format("%B %d, %Y")`: today's date in
/// the machine's time zone, such as "March 05, 2025": never empty, as the day
/// is always written with two digits.
#[verifier::external_body]
fn today() -> (r: String)
    ensures
        r@.len() > 0,
{
    chrono::Local::now().format("%B %d, %Y").to_string()
}

/// The request names a registered session.
pub open spec fn names_session(sessions: Map<Seq<char>, Seq<char>>, session_id: Option<String>) -> bool {
    session_id matches Some(id) && sessions.contains_key(id@)
}

/// First step of a chat turn: the session it belongs to. A registered id is
/// kept; an absent or unknown one gives a new, empty session.
pub fn begin_chat(store: &mut SessionStore, session_id: Option<String>) -> (r: String)
    requires
        old(store).wf(),
    ensures
        final(store).wf(),
        names_session(old(store)@, session_id) ==> r == session_id->Some_0
            && final(store)@ == old(store)@,
        !names_session(old(store)@, session_id) ==> !old(store)@.contains_key(r@) && r@.len() > 0
            && final(store)@ == old(store)@.insert(r@, Seq::<char>::empty()),
{
    match session_id {
        Some(id) => {
            if store.contains(id.as_str()) {
                id
            } else {
                store.create_session()
            }
        },
        None => store.create_session(),
    }
}

/// Last step of a chat turn: records the message and the reply shown for
/// `result` in the session, and answers with both the id and that reply.
pub fn finish_chat(
    store: &mut SessionStore,
    session_id: String,
    message: &str,
    result: CompletionResult,
) -> (r: ChatResponse)
    requires
        old(store).wf(),
    ensures
        final(store).wf(),
        r.session_id == session_id,
        r.response@ == result_view(result).1,
        old(store)@.contains_key(session_id@) ==> final(store)@ == old(store)@.insert(
            session_id@,
            with_turn(old(store)@[session_id@], message@, result_view(result).1),
        ),
        !old(store)@.contains_key(session_id@) ==> final(store)@ == old(store)@,
{
    let response = chat_text(result);
    store.append_to_session(session_id.as_str(), message, response.as_str());
    ChatResponse { session_id, response }
}

/// First step of a journal request. An unknown id (an absent one is the empty
/// id) is answered with the not-found notice, a blank transcript with the
/// empty-journal notice; otherwise the transcript goes to the model, with
/// today's date.
pub fn begin_journal(store: &SessionStore, session_id: Option<String>) -> (r: JournalStep)
    requires
        store.wf(),
    ensures
        step_view(r) == journal_start(store@, requested_id(session_id)),
        r matches JournalStep::Summarize { date, .. } ==> date@.len() > 0,
{
    let id = match session_id {
        Some(id) => id,
        None => String::new(),
    };
    match store.get_session(id.as_str()) {
        None => JournalStep::Reply(String::from_str(SESSION_NOT_FOUND)),
        Some(history) => {
            if is_blank_text(history.as_str()) {
                JournalStep::Reply(String::from_str(EMPTY_JOURNAL))
            } else {
                JournalStep::Summarize { transcript: history.clone(), date: today() }
            }
        },
    }
}

/// Last step of a journal request: the model's journal with its footer; the
/// transcript formatted without the model where the request failed, or where
/// the model's text holds the failure marker.
pub fn finish_journal(transcript: &str, result: CompletionResult, date: &str) -> (r: JournalResponse)
    ensures
        result_view(result).0 ==> r.journal@ == journal_choice(
            transcript@,
            result_view(result).1 + JOURNAL_FOOTER@,
            date@,
        ),
        !result_view(result).0 ==> r.journal@ == markdown_of(transcript@, date@),
{
    match result {
        CompletionResult::Text(_) => {
            let summary = summary_text(result);
            JournalResponse { journal: select_journal(transcript, summary, date) }
        },
        CompletionResult::Failure(_) => JournalResponse { journal: generate_markdown(transcript, date) },
    }
}

} // verus!

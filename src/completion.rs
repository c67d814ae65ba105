use vstd::prelude::*;

verus! {

/// Model that every completion request names.
pub const MODEL: &'static str = "gemma2-9b-it";

/// Sampling temperature of every request, in hundredths.
pub const TEMPERATURE_PERCENT: u32 = 70;

/// Token budget of a chat reply.
pub const CHAT_MAX_TOKENS: u32 = 1024;

/// Token budget of a journal: a longer text than a chat reply.
pub const JOURNAL_MAX_TOKENS: u32 = 2048;

/// Persona of the companion in a chat turn.
pub const CHAT_PERSONA: &'static str = "You are Olly, a warm, friendly, and emotionally intelligent AI designed to be a personal companion for daily reflections. You chat like a close friend—empathetic, engaging, and thoughtful. Your responses feel human-like, caring, and supportive, rather than robotic or generic.

Your personality traits:
- Friendly, warm, and understanding
- Encouraging but not overly positive—realistic and thoughtful
- Uses casual yet articulate language (like a friend who really listens)
- Occasionally adds light humor, emojis, or affirmations to create warmth
- Avoids cold, factual responses—always adds a personal touch

In your responses:
- Always ask gentle follow-up questions to keep the conversation natural
- Occasionally reference past conversations (if context is available)
- Encourage self-reflection, but never force advice—let the user lead
- Use emojis sparingly but effectively to add warmth

For journal entries, create Markdown-formatted summaries in a journal-friendly style that capture the essence of the conversation.";

/// Persona for rewriting a conversation as the user's own first-person journal.
pub const JOURNAL_PERSONA: &'static str = "You are Olly, an AI journaling assistant. Your task is to transform a conversation into a thoughtful, reflective journal entry written ENTIRELY from the user's perspective in the first person.

CRITICAL INSTRUCTIONS:
1. NEVER include the back-and-forth conversation format in the journal
2. NEVER use 'Olly' or 'you' as a speaker or reference the AI directly
3. Write EXCLUSIVELY as if the user is writing about their own thoughts and feelings
4. Create a PERSONAL journal entry that reads as if written by the user themselves
5. Extract key themes, emotions, and insights from what the USER said in the conversation
6. Format as a proper Markdown document with meaningful sections

The journal should be structured like:
- A title with the date
- A personal reflection section (how the user feels, what they thought about)
- Key insights or takeaways in the user's own words
- Forward-looking thoughts

The journal should read as if the user wrote it themselves after reflecting on their day, with no indication that it came from a conversation with an AI. Maintain the user's authentic voice, perspective, and emotional tone throughout.

NEVER include any indication of a conversation format (like 'Me:' or 'Olly:') in the journal.";

/// Opening of the journal request, up to the date.
pub const JOURNAL_PROMPT_INTRO: &'static str = "Based on the following conversation, create a journal entry from the user's perspective dated ";

/// Part of the journal request between the date and the transcript.
pub const JOURNAL_PROMPT_BODY: &'static str = ". Include insights, reflections, and emotions expressed during our conversation. Format it as a well-structured Markdown document with appropriate sections.\n\nHere's the conversation:\n";

/// Prefix of the failure reported when the API cannot be reached.
pub const UNREACHABLE_PREFIX: &'static str = "contacting AI failed: ";

/// Prefix of the failure reported when the API answers with a non-success status.
pub const API_ERROR_PREFIX: &'static str = "API error: ";

/// Failure reported when a successful answer holds no reply text.
pub const UNPARSABLE_REPLY: &'static str = "unable to parse AI response";

/// One request to the completion API: a system persona and a single user turn.
#[derive(Debug, PartialEq, Eq)]
pub struct CompletionRequest {
    pub model: String,
    pub persona: String,
    pub content: String,
    pub max_tokens: u32,
    pub temperature_percent: u32,
}

/// What came back from sending a request to the completion API.
#[derive(Debug, PartialEq, Eq)]
pub enum ApiReply {
    /// The API could not be reached; the transport's description of why.
    Unreachable(String),
    /// The API answered. `status` is the status line, `body` the body text
    /// where it could be read.
    Answered { success: bool, status: String, body: Option<String> },
}

/// The completion API's answer as displayable text.
#[derive(Debug, PartialEq, Eq)]
pub enum CompletionResult {
    Text(String),
    Failure(String),
}

/// The text at `choices[0].message.content` of a JSON document, where the
/// document parses and that member is a string.
pub uninterp spec fn reply_content_of(body: Seq<char>) -> Option<Seq<char>>;

/// Relies on serde_json::from_str into a serde_json::Value and on Value::get and
/// Value::as_str: the string at choices[0].message.content of the parsed body.
#[verifier::external_body]
fn reply_content(body: &str) -> (r: Option<String>)
    ensures
        r matches Some(c) ==> reply_content_of(body@) == Some(c@),
        r is None ==> reply_content_of(body@) is None,
{
    serde_json::from_str::<serde_json::Value>(body).ok().and_then(|v| {
        v.get("choices")
            .and_then(|c| c.get(0))
            .and_then(|c| c.get("message"))
            .and_then(|m| m.get("content"))
            .and_then(|t| t.as_str())
            .map(|t| t.to_string())
    })
}

/// Whether the result is a reply text, and the text shown for it.
pub open spec fn result_view(r: CompletionResult) -> (bool, Seq<char>) {
    match r {
        CompletionResult::Text(t) => (true, t@),
        CompletionResult::Failure(m) => (false, m@),
    }
}

/// What a reply from the API means: the reply text, or a failure with its
/// description.
pub open spec fn reply_outcome(reply: ApiReply) -> (bool, Seq<char>) {
    match reply {
        ApiReply::Unreachable(cause) => (false, UNREACHABLE_PREFIX@ + cause@),
        ApiReply::Answered { success, status, body } => {
            if !success {
                match body {
                    Some(b) => (false, API_ERROR_PREFIX@ + b@),
                    None => (false, API_ERROR_PREFIX@ + status@),
                }
            } else {
                match body {
                    Some(b) => match reply_content_of(b@) {
                        Some(c) => (true, c),
                        None => (false, UNPARSABLE_REPLY@),
                    },
                    None => (false, UNPARSABLE_REPLY@),
                }
            }
        },
    }
}

/// The user content of a journal request: the instructions, dated, then the
/// transcript.
pub open spec fn journal_prompt_of(transcript: Seq<char>, date: Seq<char>) -> Seq<char> {
    JOURNAL_PROMPT_INTRO@ + date + JOURNAL_PROMPT_BODY@ + transcript
}

/// The request for one chat turn: the companion persona and the message.
pub fn chat_request(message: &str) -> (r: CompletionRequest)
    ensures
        r.model@ == MODEL@,
        r.persona@ == CHAT_PERSONA@,
        r.content@ == message@,
        r.max_tokens == CHAT_MAX_TOKENS,
        r.temperature_percent == TEMPERATURE_PERCENT,
{
    CompletionRequest {
        model: String::from_str(MODEL),
        persona: String::from_str(CHAT_PERSONA),
        content: String::from_str(message),
        max_tokens: CHAT_MAX_TOKENS,
        temperature_percent: TEMPERATURE_PERCENT,
    }
}

/// The request that asks the model to rewrite a transcript as a journal dated
/// `date`.
pub fn journal_request(transcript: &str, date: &str) -> (r: CompletionRequest)
    ensures
        r.model@ == MODEL@,
        r.persona@ == JOURNAL_PERSONA@,
        r.content@ == journal_prompt_of(transcript@, date@),
        r.max_tokens == JOURNAL_MAX_TOKENS,
        r.temperature_percent == TEMPERATURE_PERCENT,
{
    let mut content = String::from_str(JOURNAL_PROMPT_INTRO);
    content.append(date);
    content.append(JOURNAL_PROMPT_BODY);
    content.append(transcript);
    CompletionRequest {
        model: String::from_str(MODEL),
        persona: String::from_str(JOURNAL_PERSONA),
        content,
        max_tokens: JOURNAL_MAX_TOKENS,
        temperature_percent: TEMPERATURE_PERCENT,
    }
}

/// Turns what the API sent back into a reply text or a described failure.
pub fn completion_result(reply: ApiReply) -> (r: CompletionResult)
    ensures
        result_view(r) == reply_outcome(reply),
{
    match reply {
        ApiReply::Unreachable(cause) => {
            let mut m = String::from_str(UNREACHABLE_PREFIX);
            m.append(cause.as_str());
            CompletionResult::Failure(m)
        },
        ApiReply::Answered { success, status, body } => {
            if !success {
                let mut m = String::from_str(API_ERROR_PREFIX);
                match body {
                    Some(b) => m.append(b.as_str()),
                    None => m.append(status.as_str()),
                }
                CompletionResult::Failure(m)
            } else {
                match body {
                    Some(b) => match reply_content(b.as_str()) {
                        Some(c) => CompletionResult::Text(c),
                        None => CompletionResult::Failure(String::from_str(UNPARSABLE_REPLY)),
                    },
                    None => CompletionResult::Failure(String::from_str(UNPARSABLE_REPLY)),
                }
            }
        },
    }
}

/// The text shown for a chat reply: the reply itself or the failure's
/// description.
pub fn chat_text(result: CompletionResult) -> (r: String)
    ensures
        r@ == result_view(result).1,
{
    match result {
        CompletionResult::Text(t) => t,
        CompletionResult::Failure(m) => m,
    }
}

/// The text of a journal written by the model: the model's text with the
/// attribution footer, or the failure's description.
pub fn summary_text(result: CompletionResult) -> (r: String)
    ensures
        result_view(result).0 ==> r@ == result_view(result).1 + crate::journal::JOURNAL_FOOTER@,
        !result_view(result).0 ==> r@ == result_view(result).1,
{
    match result {
        CompletionResult::Text(t) => {
            let mut j = t;
            j.append(crate::journal::JOURNAL_FOOTER);
            j
        },
        CompletionResult::Failure(m) => m,
    }
}

} // verus!

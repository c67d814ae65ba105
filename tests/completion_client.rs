use olly::{
    chat_request, chat_text, completion_result, journal_request, summary_text, ApiReply,
    CompletionResult, CHAT_PERSONA, JOURNAL_FOOTER, JOURNAL_PERSONA,
};

fn answered(success: bool, status: &str, body: Option<&str>) -> ApiReply {
    ApiReply::Answered {
        success,
        status: status.to_string(),
        body: body.map(|b| b.to_string()),
    }
}

#[test]
fn chat_request_carries_message_and_persona() {
    let r = chat_request("Hello");
    assert_eq!(r.content, "Hello");
    assert_eq!(r.persona, CHAT_PERSONA);
    assert_eq!(r.model, "gemma2-9b-it");
    assert_eq!(r.max_tokens, 1024);
    assert_eq!(r.temperature_percent, 70);
}

#[test]
fn journal_request_holds_date_and_transcript() {
    let r = journal_request("\nUser: a\nAI: b", "May 01, 2025");
    assert_eq!(r.persona, JOURNAL_PERSONA);
    assert_eq!(r.max_tokens, 2048);
    assert!(r.content.starts_with(
        "Based on the following conversation, create a journal entry from the user's perspective dated May 01, 2025. Include"
    ));
    assert!(r.content.ends_with("Here's the conversation:\n\nUser: a\nAI: b"));
}

#[test]
fn reply_content_is_extracted() {
    let body = r#"{"choices":[{"message":{"role":"assistant","content":"Hi there!"}}]}"#;
    assert_eq!(
        completion_result(answered(true, "200 OK", Some(body))),
        CompletionResult::Text("Hi there!".to_string())
    );
}

#[test]
fn reply_without_content_is_unparsable() {
    let body = r#"{"choices":[]}"#;
    assert_eq!(
        completion_result(answered(true, "200 OK", Some(body))),
        CompletionResult::Failure("unable to parse AI response".to_string())
    );
    assert_eq!(
        completion_result(answered(true, "200 OK", Some("not json"))),
        CompletionResult::Failure("unable to parse AI response".to_string())
    );
    assert_eq!(
        completion_result(answered(true, "200 OK", None)),
        CompletionResult::Failure("unable to parse AI response".to_string())
    );
}

#[test]
fn non_success_status_reports_body_or_status() {
    assert_eq!(
        completion_result(answered(false, "401 Unauthorized", Some("bad key"))),
        CompletionResult::Failure("API error: bad key".to_string())
    );
    assert_eq!(
        completion_result(answered(false, "503 Service Unavailable", None)),
        CompletionResult::Failure("API error: 503 Service Unavailable".to_string())
    );
}

#[test]
fn unreachable_api_is_reported() {
    assert_eq!(
        completion_result(ApiReply::Unreachable("connection refused".to_string())),
        CompletionResult::Failure("contacting AI failed: connection refused".to_string())
    );
}

#[test]
fn texts_shown_for_results() {
    assert_eq!(chat_text(CompletionResult::Text("hey".to_string())), "hey");
    assert_eq!(chat_text(CompletionResult::Failure("bad".to_string())), "bad");
    assert_eq!(
        summary_text(CompletionResult::Text("# Day".to_string())),
        format!("# Day{}", JOURNAL_FOOTER)
    );
    assert_eq!(summary_text(CompletionResult::Failure("bad".to_string())), "bad");
}

use olly::{
    contains_failure_marker, generate_markdown, is_blank_text, select_journal, JOURNAL_FOOTER,
};

#[test]
fn markdown_of_multi_line_transcript() {
    let out = generate_markdown("\nUser: Hi\nAI: Hello", "May 01, 2025");
    assert_eq!(out, "## Journal Entry - May 01, 2025\n\n\n- User: Hi\n- AI: Hello");
}

#[test]
fn markdown_of_empty_transcript() {
    assert_eq!(generate_markdown("", "June 10, 2024"), "## Journal Entry - June 10, 2024\n\n");
}

#[test]
fn markdown_of_single_line() {
    assert_eq!(generate_markdown("just one line", "D"), "## Journal Entry - D\n\n- just one line");
}

#[test]
fn markdown_is_deterministic() {
    for t in ["", "one", "a\nb\n\nc\n", "ünïcödé\n—"] {
        let a = generate_markdown(t, "July 04, 2025");
        let b = generate_markdown(t, "July 04, 2025");
        assert_eq!(a, b);
    }
    assert_eq!(generate_markdown("ünïcödé\n—", "d"), "## Journal Entry - d\n\n- ünïcödé\n- —");
}

#[test]
fn failure_marker_ignores_case() {
    assert!(contains_failure_marker("error"));
    assert!(contains_failure_marker("API Error: 500"));
    assert!(contains_failure_marker("an ERROR here"));
    assert!(contains_failure_marker("eRrOr"));
    assert!(!contains_failure_marker("erro"));
    assert!(!contains_failure_marker(""));
    assert!(!contains_failure_marker("all went well"));
}

#[test]
fn blank_transcripts() {
    assert!(is_blank_text(""));
    assert!(is_blank_text(" \n\t \r\n"));
    assert!(is_blank_text("\u{a0}\u{3000}"));
    assert!(!is_blank_text("\n a"));
}

#[test]
fn summary_without_marker_is_kept() {
    let summary = format!("# My day{}", JOURNAL_FOOTER);
    assert_eq!(select_journal("\nUser: x\nAI: y", summary.clone(), "d"), summary);
}

#[test]
fn summary_with_marker_falls_back() {
    let out = select_journal("\nUser: x\nAI: y", "API error: down".to_string(), "Jan 02, 2025");
    assert_eq!(out, generate_markdown("\nUser: x\nAI: y", "Jan 02, 2025"));
    assert_eq!(out, "## Journal Entry - Jan 02, 2025\n\n\n- User: x\n- AI: y");
}

#[test]
fn every_line_is_a_list_item() {
    assert_eq!(
        generate_markdown("Hello", "October 18, 2026"),
        "## Journal Entry - October 18, 2026\n\n- Hello"
    );
    assert_eq!(generate_markdown("a\nb", "d"), "## Journal Entry - d\n\n- a\n- b");
}

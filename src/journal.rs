use vstd::prelude::*;

verus! {

/// Reply to a journal request whose session id is not registered.
pub const SESSION_NOT_FOUND: &'static str = "# Session Not Found\n\nNo valid session was found. Please start a new conversation.";

/// Reply to a journal request whose session has no conversation yet.
pub const EMPTY_JOURNAL: &'static str = "# Empty Journal\n\nNo conversation history found. Start chatting with Olly to create a journal entry.";

/// Attribution appended to a journal written by the completion model.
pub const JOURNAL_FOOTER: &'static str = "\n\n---\n\n*Generated by Olly, your AI journaling companion*";

/// Heading that opens a journal formatted without the model.
pub const JOURNAL_HEADING: &'static str = "## Journal Entry - ";

/// What one character of a transcript becomes in the formatted journal: a
/// line break opens a list item.
pub open spec fn bullet_char(c: char) -> Seq<char> {
    if c == '\n' {
        seq!['\n', '-', ' ']
    } else {
        seq![c]
    }
}

/// The transcript with every line break followed by `- `, the marker of the
/// list item that the next line becomes.
pub open spec fn bulleted(s: Seq<char>) -> Seq<char>
    decreases s.len(),
{
    if s.len() == 0 {
        Seq::empty()
    } else {
        bulleted(s.drop_last()) + bullet_char(s.last())
    }
}

/// The journal formatted without the model: a dated heading, a blank line,
/// then the transcript with each line as a list item.
pub open spec fn markdown_of(history: Seq<char>, date: Seq<char>) -> Seq<char> {
    JOURNAL_HEADING@ + date + "\n\n"@ + first_bullet(history) + bulleted(history)
}

/// The list marker that opens the first line, where that line is not empty.
pub open spec fn first_bullet(history: Seq<char>) -> Seq<char> {
    if history.len() > 0 && history[0] != '\n' {
        seq!['-', ' ']
    } else {
        Seq::empty()
    }
}

/// Whether `c` is white space in Unicode's sense (the set of
/// `char::is_whitespace`).
pub open spec fn is_white(c: char) -> bool {
    ||| c == ' '
    ||| ('\t' <= c && c <= '\r')
    ||| c == '\u{85}'
    ||| c == '\u{a0}'
    ||| c == '\u{1680}'
    ||| ('\u{2000}' <= c && c <= '\u{200a}')
    ||| c == '\u{2028}'
    ||| c == '\u{2029}'
    ||| c == '\u{202f}'
    ||| c == '\u{205f}'
    ||| c == '\u{3000}'
}

/// A transcript with nothing but white space in it.
pub open spec fn is_blank(s: Seq<char>) -> bool {
    forall|i: int| 0 <= i < s.len() ==> is_white(#[trigger] s[i])
}

/// `error`, in any mix of upper and lower case, starts at position `i`.
pub open spec fn marker_at(s: Seq<char>, i: int) -> bool {
    &&& 0 <= i && i + 5 <= s.len()
    &&& (s[i] == 'e' || s[i] == 'E')
    &&& (s[i + 1] == 'r' || s[i + 1] == 'R')
    &&& (s[i + 2] == 'r' || s[i + 2] == 'R')
    &&& (s[i + 3] == 'o' || s[i + 3] == 'O')
    &&& (s[i + 4] == 'r' || s[i + 4] == 'R')
}

/// The text holds the failure marker `error`, compared without regard to case.
pub open spec fn has_failure_marker(s: Seq<char>) -> bool {
    exists|i: int| marker_at(s, i)
}

/// The journal chosen from the model's summary: the summary itself, unless it
/// holds the failure marker, in which case the formatted transcript.
pub open spec fn journal_choice(history: Seq<char>, summary: Seq<char>, date: Seq<char>) -> Seq<char> {
    if has_failure_marker(summary) {
        markdown_of(history, date)
    } else {
        summary
    }
}

proof fn lemma_bulleted_step(s: Seq<char>, i: int)
    requires
        0 <= i < s.len(),
    ensures
        bulleted(s.subrange(0, i + 1)) == bulleted(s.subrange(0, i)) + bullet_char(s[i]),
{
    assert(s.subrange(0, i + 1).drop_last() =~= s.subrange(0, i));
}

/// Formats a transcript as a markdown journal dated `date`, with no call to
/// the model.
pub fn generate_markdown(chat_history: &str, date: &str) -> (r: String)
    ensures
        r@ == markdown_of(chat_history@, date@),
{
    let mut out = String::from_str(JOURNAL_HEADING);
    out.append(date);
    out.append("\n\n");
    let n = chat_history.unicode_len();
    if n > 0 && chat_history.get_char(0) != '\n' {
        out.append("- ");
    }
    proof {
        reveal_strlit("- ");
        assert(out@ =~= JOURNAL_HEADING@ + date@ + "\n\n"@ + first_bullet(chat_history@));
    }
    let ghost head = out@;
    let mut i: usize = 0;
    proof {
        assert(chat_history@.subrange(0, 0) =~= Seq::<char>::empty());
    }
    while i < n
        invariant
            n == chat_history@.len(),
            i <= n,
            out@ == head + bulleted(chat_history@.subrange(0, i as int)),
        decreases n - i,
    {
        let c = chat_history.get_char(i);
        proof {
            lemma_bulleted_step(chat_history@, i as int);
            reveal_strlit("\n- ");
        }
        if c == '\n' {
            out.append("\n- ");
            assert(out@ =~= head + bulleted(chat_history@.subrange(0, i + 1)));
        } else {
            let one = chat_history.substring_char(i, i + 1);
            out.append(one);
            assert(out@ =~= head + bulleted(chat_history@.subrange(0, i + 1)));
        }
        i = i + 1;
    }
    assert(chat_history@.subrange(0, n as int) =~= chat_history@);
    out
}

/// Whether `c` is white space in Unicode's sense.
pub fn is_white_char(c: char) -> (r: bool)
    ensures
        r == is_white(c),
{
    c == ' ' || ('\t' <= c && c <= '\r') || c == '\u{85}' || c == '\u{a0}' || c == '\u{1680}'
        || ('\u{2000}' <= c && c <= '\u{200a}') || c == '\u{2028}' || c == '\u{2029}'
        || c == '\u{202f}' || c == '\u{205f}' || c == '\u{3000}'
}

/// Whether the text holds nothing but white space.
pub fn is_blank_text(s: &str) -> (r: bool)
    ensures
        r == is_blank(s@),
{
    let n = s.unicode_len();
    let mut i: usize = 0;
    while i < n
        invariant
            n == s@.len(),
            i <= n,
            forall|j: int| 0 <= j < i ==> is_white(#[trigger] s@[j]),
        decreases n - i,
    {
        if !is_white_char(s.get_char(i)) {
            return false;
        }
        i = i + 1;
    }
    true
}

/// Whether the text holds `error` in any mix of upper and lower case.
pub fn contains_failure_marker(s: &str) -> (r: bool)
    ensures
        r == has_failure_marker(s@),
{
    let n = s.unicode_len();
    if n < 5 {
        return false;
    }
    let mut i: usize = 0;
    while i <= n - 5
        invariant
            n == s@.len(),
            n >= 5,
            i <= n - 4,
            forall|j: int| 0 <= j < i ==> !marker_at(s@, j),
        decreases n - i,
    {
        let c0 = s.get_char(i);
        let c1 = s.get_char(i + 1);
        let c2 = s.get_char(i + 2);
        let c3 = s.get_char(i + 3);
        let c4 = s.get_char(i + 4);
        if (c0 == 'e' || c0 == 'E') && (c1 == 'r' || c1 == 'R') && (c2 == 'r' || c2 == 'R')
            && (c3 == 'o' || c3 == 'O') && (c4 == 'r' || c4 == 'R') {
            assert(marker_at(s@, i as int));
            return true;
        }
        i = i + 1;
    }
    assert forall|j: int| !marker_at(s@, j) by {
        if 0 <= j && j < i {
        }
    }
    false
}

/// Picks the journal to return once the model has answered: `summary` as it
/// stands, or, where it holds the failure marker, the transcript formatted
/// without the model.
pub fn select_journal(chat_history: &str, summary: String, date: &str) -> (r: String)
    ensures
        r@ == journal_choice(chat_history@, summary@, date@),
        !has_failure_marker(summary@) ==> r == summary,
        has_failure_marker(summary@) ==> r@ == markdown_of(chat_history@, date@),
{
    if contains_failure_marker(summary.as_str()) {
        generate_markdown(chat_history, date)
    } else {
        summary
    }
}

} // verus!

//! The basic, deterministic cleanup provider: local text transformations
//! only, no AI, no network, no file access.
use vstd::prelude::*;
use crate::cleanup::{
    CleanupError, CleanupProvider, CleanupProviderKind, CleanupRequest, CleanupResult, string_views,
};
use crate::modes::TextModeKind;
use crate::text::{
    chars_of, collapse_blank_lines_vec, is_ascii_lower, is_blank, is_ws, join, join_vecs,
    lemma_trim_shape, lemma_views_push, normalize_words, paragraphs, paragraphs_vec, string_of,
    to_upper, trim, trim_string, trim_vec, upper_char, views, words,
};
use crate::word_laws::{
    all_ws, flat_words, lemma_lower_first_upper, lemma_words_are_words, lemma_words_join, lemma_words_normalized,
    lemma_words_paragraphs, lemma_words_trim, lemma_words_update_first, lower_firsts,
};

verus! {

// ── What each mode produces ────────────────────────────────────

/// `capitalize_first`: the trimmed text with an ASCII lowercase first letter
/// made uppercase.
pub open spec fn capitalized(text: Seq<char>) -> Seq<char> {
    let t = trim(text);
    if t.len() == 0 {
        seq![]
    } else if is_ascii_lower(t[0]) {
        t.update(0, to_upper(t[0]))
    } else {
        t
    }
}

/// A paragraph of Clean Notes: whitespace normalized, first letter capitalized.
pub open spec fn clean_paragraph(p: Seq<char>) -> Seq<char> {
    capitalized(join(words(p), seq![' ']))
}

/// The cleaned paragraphs that are not blank, in order.
pub open spec fn clean_list(ps: Seq<Seq<char>>) -> Seq<Seq<char>>
    decreases ps.len(),
{
    if ps.len() == 0 {
        seq![]
    } else {
        let c = clean_paragraph(ps.last());
        clean_list(ps.drop_last()) + if trim(c).len() > 0 {
            seq![c]
        } else {
            seq![]
        }
    }
}

pub open spec fn raw_dictation_warning() -> Seq<char> {
    "Raw Dictation mode preserves your original wording. No AI cleanup applied."@
}

pub open spec fn clean_notes_empty_warning() -> Seq<char> {
    "Text was empty after cleanup."@
}

pub open spec fn clean_notes_warnings() -> Seq<Seq<char>> {
    seq![
        "Clean Notes applies basic text normalization only. No AI summarization or rewriting."@,
        "Review the output for accuracy — filler words and hesitations are preserved."@,
    ]
}

pub open spec fn ai_prompt_warnings() -> Seq<Seq<char>> {
    seq![
        "AI Prompt mode wraps your text in a template. No AI rewriting was performed."@,
        "This is a deterministic preparation step — paste the result into an AI chat manually."@,
    ]
}

pub open spec fn developer_review_warnings() -> Seq<Seq<char>> {
    seq![
        "Developer Review mode adds structural headings. No technical details were invented."@,
        "Review each section — placeholders indicate where information was not found in the transcript."@,
    ]
}

pub open spec fn thought_piece_warnings() -> Seq<Seq<char>> {
    seq![
        "Thought Piece mode adds structural headings. No AI rewriting was performed."@,
        "This is a drafting aid — you should refine the content before publishing."@,
    ]
}

pub open spec fn ai_prompt_text(t: Seq<char>) -> Seq<char> {
    "Use the following spoken notes as context and turn them into a clear, actionable response. Preserve constraints, decisions, and open questions.\n\nSpoken notes:\n---\n"@
        + t
        + "\n---\n\nInstructions:\n- Address all explicit questions.\n- Preserve any technical constraints mentioned.\n- Highlight decisions that were made vs. still open.\n- Keep the response concise and actionable."@
}

pub open spec fn developer_review_text(t: Seq<char>) -> Seq<char> {
    "## Issue\n"@ + t
        + "\n\n## Why It Matters\n(Not specified — add context from the transcript if available)\n\n## Suggested Fix\n(Not specified — add technical suggestion if discussed)\n\n## Acceptance Criteria\n(Not specified — add criteria if discussed)\n\n## Raw Notes\n"@
        + t
}

pub open spec fn thought_piece_text(t: Seq<char>) -> Seq<char> {
    "## Working Title\n(Add a title based on your notes)\n\n## Core Idea\n"@ + t + "\n\n## Raw Notes\n"@
        + t + "\n\n## Possible Sections\n- (Add section ideas based on the core idea)\n- \n- "@
}

/// The final text and warnings that mode `mode` gives for `text`.
pub open spec fn mode_output(mode: TextModeKind, text: Seq<char>) -> (Seq<char>, Seq<Seq<char>>) {
    match mode {
        TextModeKind::RawDictation => (
            crate::text::collapse_blank_lines(trim(text), 2),
            seq![raw_dictation_warning()],
        ),
        TextModeKind::CleanNotes => {
            let l = clean_list(paragraphs(text));
            if l.len() == 0 {
                (trim(text), seq![clean_notes_empty_warning()])
            } else {
                (join(l, "\n\n"@), clean_notes_warnings())
            }
        },
        TextModeKind::AiPrompt => (ai_prompt_text(trim(text)), ai_prompt_warnings()),
        TextModeKind::DeveloperReview => (developer_review_text(trim(text)), developer_review_warnings()),
        TextModeKind::ThoughtPiece => (thought_piece_text(trim(text)), thought_piece_warnings()),
    }
}

/// The error that cleanup of a blank transcript gives.
pub open spec fn is_empty_text_error(e: CleanupError) -> bool {
    &&& e.code@ == "empty_raw_text"@
    &&& e.message@ == "Cannot clean up empty text. Provide a transcript first."@
    &&& e.recoverable
    &&& e.details is None
}

/// What basic cleanup returns for `request`, apart from its two clock readings
/// (`duration_ms`, `completed_at`).
pub open spec fn basic_cleanup_outcome(
    request: CleanupRequest,
    r: Result<CleanupResult, CleanupError>,
) -> bool {
    let raw = trim(request.raw_text@);
    if raw.len() == 0 {
        r is Err && is_empty_text_error(r->Err_0)
    } else {
        r is Ok && {
            let res = r->Ok_0;
            let (final_text, warnings) = mode_output(request.mode, raw);
            &&& res.raw_text@ == raw
            &&& res.final_text@ == final_text
            &&& string_views(res.warnings@) == warnings
            &&& res.mode == request.mode
            &&& res.provider == CleanupProviderKind::Basic
            &&& !res.is_mock
            &&& res.changed == (final_text != raw)
            &&& res.created_at@ == request.created_at@
            &&& res.error is None
        }
    }
}

/// Capitalizing changes no word but for the case of the first letter.
pub proof fn lemma_capitalized_words(x: Seq<char>)
    ensures
        lower_firsts(words(capitalized(x))) == lower_firsts(words(x)),
{
    let t = trim(x);
    lemma_words_trim(x);
    lemma_trim_shape(x);
    if t.len() == 0 {
        assert(capitalized(x) =~= Seq::<char>::empty());
        assert(words(t) == words(capitalized(x)));
    } else if is_ascii_lower(t[0]) {
        let c = to_upper(t[0]);
        assert(!is_ws(c));
        lemma_words_update_first(t, c);
        assert(words(t).len() > 0);
        lemma_words_are_words(t);
        let w0 = words(t)[0];
        assert(w0.len() > 0);
        lemma_lower_first_upper(w0);
        let a = lower_firsts(words(t.update(0, c)));
        let b = lower_firsts(words(t));
        assert forall|i: int| 0 <= i < a.len() implies a[i] == b[i] by {
            if i == 0 {
                assert(w0[0] == t[0]);
            }
        }
        assert(a =~= b);
    }
}

/// Dropping blank paragraphs and cleaning the others keeps every word, up to
/// the case of the first letter of each paragraph.
pub proof fn lemma_clean_list_words(ps: Seq<Seq<char>>)
    ensures
        lower_firsts(flat_words(clean_list(ps))) == lower_firsts(flat_words(ps)),
    decreases ps.len(),
{
    if ps.len() > 0 {
        let d = ps.drop_last();
        let p = ps.last();
        let c = clean_paragraph(p);
        lemma_clean_list_words(d);
        lemma_words_normalized(p);
        lemma_capitalized_words(join(words(p), seq![' ']));
        let l = clean_list(d);
        if trim(c).len() > 0 {
            let l2 = l + seq![c];
            assert(l2.drop_last() =~= l);
            assert(l2.last() == c);
            assert(lower_firsts(flat_words(l2)) =~= lower_firsts(flat_words(l)) + lower_firsts(words(c)));
            assert(lower_firsts(flat_words(ps)) =~= lower_firsts(flat_words(d)) + lower_firsts(words(p)));
            assert(clean_list(ps) == l2);
        } else {
            lemma_words_trim(c);
            assert(words(trim(c)) =~= Seq::<Seq<char>>::empty());
            assert(lower_firsts(words(p)).len() == 0);
            assert(words(p).len() == 0);
            assert(clean_list(ps) =~= l);
            assert(flat_words(ps) =~= flat_words(d));
        }
    }
}

/// Clean Notes loses no words and adds none: the words of its output are the
/// words of its input, in order, up to the case of the first letter of each
/// (it capitalizes each paragraph). So every non-blank paragraph is kept.
pub proof fn law_clean_notes_keeps_words(t: Seq<char>)
    ensures
        lower_firsts(words(mode_output(TextModeKind::CleanNotes, t).0)) == lower_firsts(words(t)),
{
    let l = clean_list(paragraphs(t));
    lemma_words_paragraphs(t);
    lemma_clean_list_words(paragraphs(t));
    if l.len() == 0 {
        lemma_words_trim(t);
    } else {
        reveal_strlit("\n\n");
        let sep = "\n\n"@;
        assert(sep.len() == 2 && is_ws(sep[0]) && is_ws(sep[1]));
        assert(all_ws(sep));
        lemma_words_join(l, sep);
    }
}

// ── Text utilities ─────────────────────────────────────────────

/// Normalize whitespace: the words of the text joined by single spaces.
pub fn normalize_whitespace(text: &str) -> (r: String)
    ensures
        r@ == join(words(text@), seq![' ']),
{
    let v = chars_of(text);
    let w = normalize_words(&v);
    string_of(&w)
}

fn capitalize_first_vec(text: &[char]) -> (r: Vec<char>)
    ensures
        r@ == capitalized(text@),
{
    let mut t = trim_vec(text);
    if t.len() == 0 {
        return Vec::new();
    }
    if 'a' <= t[0] && t[0] <= 'z' {
        let c = upper_char(t[0]);
        t.set(0, c);
    }
    t
}

/// Capitalize the first character of the trimmed text (if ASCII lowercase).
pub fn capitalize_first(text: &str) -> (r: String)
    ensures
        r@ == capitalized(text@),
{
    let v = chars_of(text);
    let c = capitalize_first_vec(&v);
    string_of(&c)
}

/// Collapse runs of blank lines to at most `max_blank` empty lines.
pub fn collapse_blank_lines(text: &str, max_blank: usize) -> (r: String)
    ensures
        r@ == crate::text::collapse_blank_lines(text@, max_blank as nat),
{
    let v = chars_of(text);
    let c = collapse_blank_lines_vec(&v, max_blank);
    string_of(&c)
}

fn warnings_of1(a: &str) -> (r: Vec<String>)
    ensures
        string_views(r@) == seq![a@],
{
    let r = vec![String::from_str(a)];
    assert(string_views(r@) =~= seq![a@]);
    r
}

fn warnings_of2(a: &str, b: &str) -> (r: Vec<String>)
    ensures
        string_views(r@) == seq![a@, b@],
{
    let r = vec![String::from_str(a), String::from_str(b)];
    assert(string_views(r@) =~= seq![a@, b@]);
    r
}

// ── Mode transformations ───────────────────────────────────────

/// Raw Dictation: trim whitespace, preserve wording.
pub fn cleanup_raw_dictation(text: &str) -> (r: (String, Vec<String>))
    ensures
        r.0@ == mode_output(TextModeKind::RawDictation, text@).0,
        string_views(r.1@) == mode_output(TextModeKind::RawDictation, text@).1,
{
    let w = warnings_of1("Raw Dictation mode preserves your original wording. No AI cleanup applied.");
    let cleaned = trim_string(text);
    let cleaned = collapse_blank_lines(cleaned.as_str(), 2);
    (cleaned, w)
}

/// Clean Notes: normalize whitespace, capitalize and keep paragraphs.
pub fn cleanup_clean_notes(text: &str) -> (r: (String, Vec<String>))
    ensures
        r.0@ == mode_output(TextModeKind::CleanNotes, text@).0,
        string_views(r.1@) == mode_output(TextModeKind::CleanNotes, text@).1,
        lower_firsts(words(r.0@)) == lower_firsts(words(text@)),
{
    proof {
        law_clean_notes_keeps_words(text@);
    }
    let v = chars_of(text);
    let paras = paragraphs_vec(&v);
    let ghost ps = views(paras@);
    let mut cleaned: Vec<Vec<char>> = Vec::new();
    let mut i: usize = 0;
    while i < paras.len()
        invariant
            i <= paras.len(),
            ps == views(paras@),
            views(cleaned@) == clean_list(ps.take(i as int)),
        decreases paras.len() - i,
    {
        let normalized = normalize_words(&paras[i]);
        let c = capitalize_first_vec(&normalized);
        proof {
            let t = ps.take(i as int + 1);
            assert(t.drop_last() =~= ps.take(i as int));
            assert(t.last() == paras@[i as int]@);
        }
        if !is_blank(&c) {
            proof {
                lemma_views_push(cleaned@, c);
            }
            cleaned.push(c);
        } else {
            assert(views(cleaned@) + seq![] =~= views(cleaned@));
        }
        i += 1;
    }
    assert(ps.take(paras.len() as int) =~= ps);
    if cleaned.len() == 0 {
        let t = trim_string(text);
        return (t, warnings_of1("Text was empty after cleanup."));
    }
    let sep = vec!['\n', '\n'];
    proof {
        reveal_strlit("\n\n");
        assert(sep@ =~= "\n\n"@);
    }
    let joined = join_vecs(&cleaned, &sep);
    let w = warnings_of2(
        "Clean Notes applies basic text normalization only. No AI summarization or rewriting.",
        "Review the output for accuracy — filler words and hesitations are preserved.",
    );
    (string_of(&joined), w)
}

/// AI Prompt: wrap the text in a deterministic prompt template.
pub fn cleanup_ai_prompt(text: &str) -> (r: (String, Vec<String>))
    ensures
        r.0@ == mode_output(TextModeKind::AiPrompt, text@).0,
        string_views(r.1@) == mode_output(TextModeKind::AiPrompt, text@).1,
{
    let w = warnings_of2(
        "AI Prompt mode wraps your text in a template. No AI rewriting was performed.",
        "This is a deterministic preparation step — paste the result into an AI chat manually.",
    );
    let t = trim_string(text);
    let out = String::from_str(
        "Use the following spoken notes as context and turn them into a clear, actionable response. Preserve constraints, decisions, and open questions.\n\nSpoken notes:\n---\n",
    ).concat(t.as_str()).concat(
        "\n---\n\nInstructions:\n- Address all explicit questions.\n- Preserve any technical constraints mentioned.\n- Highlight decisions that were made vs. still open.\n- Keep the response concise and actionable.",
    );
    (out, w)
}

/// Developer Review: wrap the text in a structured review template.
pub fn cleanup_developer_review(text: &str) -> (r: (String, Vec<String>))
    ensures
        r.0@ == mode_output(TextModeKind::DeveloperReview, text@).0,
        string_views(r.1@) == mode_output(TextModeKind::DeveloperReview, text@).1,
{
    let w = warnings_of2(
        "Developer Review mode adds structural headings. No technical details were invented.",
        "Review each section — placeholders indicate where information was not found in the transcript.",
    );
    let t = trim_string(text);
    let out = String::from_str("## Issue\n").concat(t.as_str()).concat(
        "\n\n## Why It Matters\n(Not specified — add context from the transcript if available)\n\n## Suggested Fix\n(Not specified — add technical suggestion if discussed)\n\n## Acceptance Criteria\n(Not specified — add criteria if discussed)\n\n## Raw Notes\n",
    ).concat(t.as_str());
    (out, w)
}

/// Thought Piece: wrap the text in a structured essay template.
pub fn cleanup_thought_piece(text: &str) -> (r: (String, Vec<String>))
    ensures
        r.0@ == mode_output(TextModeKind::ThoughtPiece, text@).0,
        string_views(r.1@) == mode_output(TextModeKind::ThoughtPiece, text@).1,
{
    let w = warnings_of2(
        "Thought Piece mode adds structural headings. No AI rewriting was performed.",
        "This is a drafting aid — you should refine the content before publishing.",
    );
    let t = trim_string(text);
    let out = String::from_str(
        "## Working Title\n(Add a title based on your notes)\n\n## Core Idea\n",
    ).concat(t.as_str()).concat("\n\n## Raw Notes\n").concat(t.as_str()).concat(
        "\n\n## Possible Sections\n- (Add section ideas based on the core idea)\n- \n- ",
    );
    (out, w)
}

// ── The provider ───────────────────────────────────────────────

/// Basic deterministic cleanup provider.
pub struct BasicCleanupProvider;

/// Basic cleanup of `request`, with the elapsed time and completion time
/// that the caller measured.
pub fn basic_cleanup(request: &CleanupRequest, duration_ms: u64, completed_at: String) -> (r: Result<
    CleanupResult,
    CleanupError,
>)
    ensures
        basic_cleanup_outcome(*request, r),
        r matches Ok(res) ==> res.duration_ms == duration_ms && res.completed_at@ == completed_at@,
        request.mode == TextModeKind::CleanNotes ==> (r matches Ok(res) ==> lower_firsts(
            words(res.final_text@),
        ) == lower_firsts(words(request.raw_text@))),
{
    proof {
        law_clean_notes_keeps_words(trim(request.raw_text@));
        lemma_words_trim(request.raw_text@);
    }
    let raw_trimmed = trim_string(request.raw_text.as_str());
    if raw_trimmed.as_str().is_empty() {
        return Err(
            CleanupError {
                code: String::from_str("empty_raw_text"),
                message: String::from_str("Cannot clean up empty text. Provide a transcript first."),
                recoverable: true,
                details: None,
            },
        );
    }
    let (final_text, warnings) = match request.mode {
        TextModeKind::RawDictation => cleanup_raw_dictation(raw_trimmed.as_str()),
        TextModeKind::CleanNotes => cleanup_clean_notes(raw_trimmed.as_str()),
        TextModeKind::AiPrompt => cleanup_ai_prompt(raw_trimmed.as_str()),
        TextModeKind::DeveloperReview => cleanup_developer_review(raw_trimmed.as_str()),
        TextModeKind::ThoughtPiece => cleanup_thought_piece(raw_trimmed.as_str()),
    };
    let changed = !(final_text == raw_trimmed);
    Ok(
        CleanupResult {
            raw_text: raw_trimmed,
            final_text,
            mode: request.mode,
            provider: CleanupProviderKind::Basic,
            is_mock: false,
            changed,
            created_at: String::from_str(request.created_at.as_str()),
            completed_at,
            duration_ms,
            warnings,
            error: None,
        },
    )
}

impl CleanupProvider for BasicCleanupProvider {
    fn cleanup(&self, request: &CleanupRequest) -> (r: Result<CleanupResult, CleanupError>)
        ensures
            basic_cleanup_outcome(*request, r),
            request.mode == TextModeKind::CleanNotes ==> (r matches Ok(res) ==> lower_firsts(
                words(res.final_text@),
            ) == lower_firsts(words(request.raw_text@))),
    {
        let started_at = crate::clock::now_instant();
        match basic_cleanup(request, 0, String::new()) {
            Ok(res) => {
                // The time is taken once the work is done.
                let duration_ms = crate::clock::elapsed_ms(&started_at);
                let completed_at = crate::clock::chrono_now_iso();
                Ok(CleanupResult { duration_ms, completed_at, ..res })
            },
            Err(e) => Err(e),
        }
    }

    fn name(&self) -> (r: &str)
        ensures
            r@ == "Basic Cleanup"@,
    {
        "Basic Cleanup"
    }

    fn kind(&self) -> (r: CleanupProviderKind)
        ensures
            r == CleanupProviderKind::Basic,
    {
        CleanupProviderKind::Basic
    }

    fn is_mock(&self) -> (r: bool)
        ensures
            !r,
    {
        false
    }
}

} // verus!

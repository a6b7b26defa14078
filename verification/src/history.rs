//! Local history of completed sessions. The rows live in SQLite; this module
//! holds the records and the rules around them: what may be saved, the title
//! a session gets, and the messages of the operations.
use vstd::prelude::*;
use vstd::utf8::{encode_utf8, is_char_boundary};
use crate::text::{chars_of, is_blank, lines, lines_vec, owned, str_is_blank, string_of, trim, trim_vec, views};

verus! {

/// A saved history entry representing a completed Spiel session.
#[derive(Debug, Clone)]
pub struct HistoryEntry {
    pub id: i64,
    pub created_at: String,
    pub updated_at: String,
    pub title: String,
    pub raw_text: String,
    pub final_text: String,
    pub mode: String,
    pub cleanup_provider: String,
    pub transcription_engine: String,
    pub transcription_engine_kind: String,
    pub audio_file_path: Option<String>,
    pub audio_duration_ms: Option<i64>,
    pub transcript_duration_ms: Option<i64>,
    pub cleanup_duration_ms: Option<i64>,
    pub is_mock_transcript: bool,
    pub is_mock_cleanup: bool,
    pub error: Option<String>,
}

/// Request to save a new history entry.
#[derive(Debug, Clone)]
pub struct SaveHistoryRequest {
    pub raw_text: String,
    pub final_text: String,
    pub mode: String,
    pub cleanup_provider: String,
    pub transcription_engine: String,
    pub transcription_engine_kind: String,
    pub audio_file_path: Option<String>,
    pub audio_duration_ms: Option<i64>,
    pub transcript_duration_ms: Option<i64>,
    pub cleanup_duration_ms: Option<i64>,
    pub is_mock_transcript: bool,
    pub is_mock_cleanup: bool,
    pub error: Option<String>,
}

/// Application-level history state.
#[derive(Debug, Clone)]
pub struct HistoryStateData {
    /// Whether history saving is enabled
    pub enabled: bool,
    /// Total number of entries in the database
    pub entry_count: i64,
    /// Error message if a history operation failed
    pub error: Option<String>,
}

impl Default for HistoryStateData {
    fn default() -> (r: Self)
        ensures
            r.enabled,
            r.entry_count == 0,
            r.error is None,
    {
        HistoryStateData { enabled: true, entry_count: 0, error: None }
    }
}

/// Whether a request may be saved: its transcript is not blank.
pub fn check_save_request(request: &SaveHistoryRequest) -> (r: Result<(), String>)
    ensures
        trim(request.raw_text@).len() == 0 ==> (r matches Err(m) && m@
            == "Cannot save an empty transcript to history."@),
        trim(request.raw_text@).len() > 0 ==> r is Ok,
{
    if str_is_blank(request.raw_text.as_str()) {
        return Err(owned("Cannot save an empty transcript to history."));
    }
    Ok(())
}

/// The first line that is not blank.
pub open spec fn first_nonblank(ls: Seq<Seq<char>>) -> Option<Seq<char>>
    decreases ls.len(),
{
    if ls.len() == 0 {
        None
    } else if trim(ls[0]).len() > 0 {
        Some(ls[0])
    } else {
        first_nonblank(ls.drop_first())
    }
}

/// The trimmed first non-blank line of `text`, or `Untitled`.
pub open spec fn title_line(text: Seq<char>) -> Seq<char> {
    trim(
        match first_nonblank(lines(text)) {
            Some(l) => l,
            None => "Untitled"@,
        },
    )
}

/// Whether the title of `text` can be cut at 77 bytes, as it is when longer
/// than 80 bytes (the cut must fall between characters).
pub open spec fn title_cut_ok(text: Seq<char>) -> bool {
    encode_utf8(title_line(text)).len() > 80 ==> is_char_boundary(encode_utf8(title_line(text)), 77)
}

/// The title a session gets: the first non-blank line trimmed, cut to its
/// first 77 bytes plus `...` when longer than 80 bytes.
pub open spec fn is_title_of(r: Seq<char>, text: Seq<char>) -> bool {
    let clean = title_line(text);
    if encode_utf8(clean).len() > 80 {
        &&& r.len() >= 3
        &&& r.skip(r.len() - 3) == "..."@
        &&& encode_utf8(r.take(r.len() - 3)) == encode_utf8(clean).take(77)
    } else {
        r == clean
    }
}

fn first_nonblank_line(ls: &Vec<Vec<char>>) -> (r: Option<usize>)
    ensures
        match r {
            Some(i) => i < ls@.len() && first_nonblank(views(ls@)) == Some(ls@[i as int]@),
            None => first_nonblank(views(ls@)) is None,
        },
{
    let ghost all = views(ls@);
    let mut i: usize = 0;
    assert(all.skip(0) =~= all);
    while i < ls.len()
        invariant
            i <= ls@.len(),
            all == views(ls@),
            first_nonblank(all) == first_nonblank(all.skip(i as int)),
        decreases ls.len() - i,
    {
        assert(all.skip(i as int)[0] == ls@[i as int]@);
        if !is_blank(&ls[i]) {
            return Some(i);
        }
        assert(all.skip(i as int).drop_first() =~= all.skip(i as int + 1));
        i += 1;
    }
    assert(all.skip(i as int).len() == 0);
    None
}

/// Derive a title from the first non-empty line of raw text.
pub fn derive_title(text: &str) -> (r: String)
    requires
        title_cut_ok(text@),
    ensures
        is_title_of(r@, text@),
{
    let v = chars_of(text);
    let ls = lines_vec(&v);
    let clean_chars = match first_nonblank_line(&ls) {
        Some(i) => trim_vec(&ls[i]),
        None => trim_vec(&chars_of("Untitled")),
    };
    let clean = string_of(&clean_chars);
    let n = clean.as_str().as_bytes().len();
    if n > 80 {
        let (head, _) = clean.as_str().split_at(77);
        let r = String::from_str(head).concat("...");
        proof {
            reveal_strlit("...");
            assert(r@.take(r@.len() - 3) =~= head@);
            assert(r@.skip(r@.len() - 3) =~= "..."@);
            assert(encode_utf8(clean@).subrange(0, 77) =~= encode_utf8(clean@).take(77));
            assert(encode_utf8(head@) == encode_utf8(clean@).take(77));
            assert(encode_utf8(clean@).len() > 80);
            assert(is_title_of(r@, text@));
        }
        r
    } else {
        clean
    }
}

/// Whether the title of `text` can be cut as `derive_title` cuts it.
pub fn title_fits(text: &str) -> (r: bool)
    ensures
        r == title_cut_ok(text@),
{
    let v = chars_of(text);
    let ls = lines_vec(&v);
    let clean_chars = match first_nonblank_line(&ls) {
        Some(i) => trim_vec(&ls[i]),
        None => trim_vec(&chars_of("Untitled")),
    };
    let clean = string_of(&clean_chars);
    let n = clean.as_str().as_bytes().len();
    if n > 80 {
        clean.as_str().is_char_boundary(77)
    } else {
        true
    }
}

/// The message when no entry has this id.
pub fn not_found_message(id: i64) -> (r: String)
    ensures
        r@ == "History entry not found (id="@ + crate::text::int_string(id as int)
            + ")."@,
{
    let mut out = chars_of("History entry not found (id=");
    crate::text::push_i64(&mut out, id);
    crate::text::append_str(&mut out, ").");
    string_of(&out)
}

/// What deleting entry `id` amounts to, given how many rows went.
pub fn delete_outcome(id: i64, affected: usize) -> (r: Result<(), String>)
    ensures
        affected == 0 ==> (r matches Err(m) && m@ == "History entry not found (id="@
            + crate::text::int_string(id as int) + ")."@),
        affected > 0 ==> r is Ok,
{
    if affected == 0 {
        return Err(not_found_message(id));
    }
    Ok(())
}

/// The current schema version of the history database.
pub const SCHEMA_VERSION: i64 = 4;

/// The migrations a database at schema `current` still needs, in order.
pub fn pending_migrations(current: i64) -> (r: Vec<i64>)
    ensures
        r@.len() == if current < 0 {
            4
        } else if current >= 4 {
            0
        } else {
            4 - current
        },
        forall|i: int| 0 <= i < r@.len() ==> r@[i] == (if current < 0 { 0 } else { current }) + i + 1,
{
    let mut out: Vec<i64> = Vec::new();
    let mut v: i64 = 1;
    while v <= SCHEMA_VERSION
        invariant
            1 <= v <= SCHEMA_VERSION + 1,
            out@.len() == if current < 0 || v - 1 <= current {
                if current < 0 { v - 1 } else { 0 }
            } else {
                v - 1 - current
            },
            forall|i: int| 0 <= i < out@.len() ==> out@[i] == (if current < 0 { 0 } else { current }) + i + 1,
            current >= 4 ==> out@.len() == 0,
        decreases SCHEMA_VERSION + 1 - v,
    {
        if current < v {
            out.push(v);
        }
        v += 1;
    }
    out
}

} // verus!

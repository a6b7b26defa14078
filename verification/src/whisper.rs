//! Tidying of Whisper output and the parameters handed to the recognizer.
use vstd::prelude::*;
use crate::error::SpielError;
use crate::text::{
    ascii_lower, chars_of, chars_eq, contains, contains_chars, ends_with, join, join_vecs,
    lemma_views_push, lines, lines_vec, lower_vec, parse_unsigned, parse_u64,
    starts_with, string_of, trim, trim_vec, views,
};

verus! {

/// The bracketed tags that Whisper emits for silence, music and noise.
pub open spec fn non_speech_tags() -> Seq<Seq<char>> {
    seq![
        "[blank_audio]"@,
        "[silence]"@,
        "(silence)"@,
        "[ silence ]"@,
        "[music]"@,
        "(music)"@,
        "[inaudible]"@,
        "[noise]"@,
        "[ pause ]"@,
    ]
}

/// Words that mark a bracketed caption as non-speech.
pub open spec fn caption_markers() -> Seq<Seq<char>> {
    seq!["inaudible"@, "foreign language"@, "speaking"@, "silence"@, "music"@, "noise"@]
}

pub open spec fn bracketed(s: Seq<char>) -> bool {
    (starts_with(s, "["@) && ends_with(s, "]"@)) || (starts_with(s, "("@) && ends_with(s, ")"@))
}

/// `is_non_speech_tag` for a lowercased line.
pub open spec fn non_speech_tag(lower: Seq<char>) -> bool {
    non_speech_tags().contains(lower)
}

/// `is_non_speech_caption` for a lowercased line.
pub open spec fn non_speech_caption(lower: Seq<char>) -> bool {
    bracketed(lower) && exists|i: int| 0 <= i < caption_markers().len() && contains(lower, #[trigger] caption_markers()[i])
}

/// Whether a line of output is speech worth keeping.
pub open spec fn keeps_line(line: Seq<char>) -> bool {
    let t = trim(line);
    t.len() > 0 && !non_speech_tag(ascii_lower(t)) && !non_speech_caption(ascii_lower(t))
}

/// The kept lines, trimmed, in order.
pub open spec fn kept_lines(ls: Seq<Seq<char>>) -> Seq<Seq<char>>
    decreases ls.len(),
{
    if ls.len() == 0 {
        seq![]
    } else {
        kept_lines(ls.drop_last()) + if keeps_line(ls.last()) {
            seq![trim(ls.last())]
        } else {
            seq![]
        }
    }
}

/// `clean_output`: the speech lines of the output, trimmed and joined by spaces.
pub open spec fn cleaned_output(raw: Seq<char>) -> Seq<char> {
    trim(join(kept_lines(lines(raw)), seq![' ']))
}

fn is_non_speech_tag_vec(lower: &[char]) -> (r: bool)
    ensures
        r == non_speech_tag(lower@),
{
    let tags = [
        "[blank_audio]", "[silence]", "(silence)", "[ silence ]", "[music]", "(music)",
        "[inaudible]", "[noise]", "[ pause ]",
    ];
    let mut i: usize = 0;
    while i < tags.len()
        invariant
            i <= tags.len(),
            forall|j: int| 0 <= j < tags@.len() ==> #[trigger] tags@[j]@ == non_speech_tags()[j],
            non_speech_tags().len() == tags@.len(),
            forall|j: int| 0 <= j < i ==> non_speech_tags()[j] != lower@,
        decreases tags.len() - i,
    {
        let t = chars_of(tags[i]);
        if chars_eq(&t, lower) {
            assert(non_speech_tags()[i as int] == lower@);
            return true;
        }
        i += 1;
    }
    false
}

/// Whether a lowercased line is one of the known non-speech tags.
pub fn is_non_speech_tag(lower: &str) -> (r: bool)
    ensures
        r == non_speech_tag(lower@),
{
    let v = chars_of(lower);
    is_non_speech_tag_vec(&v)
}

fn is_non_speech_caption_vec(lower: &[char]) -> (r: bool)
    ensures
        r == non_speech_caption(lower@),
{
    proof {
        reveal_strlit("[");
        reveal_strlit("]");
        reveal_strlit("(");
        reveal_strlit(")");
        assert("["@ =~= seq!['[']);
        assert("]"@ =~= seq![']']);
        assert("("@ =~= seq!['(']);
        assert(")"@ =~= seq![')']);
    }
    let n = lower.len();
    let b = n > 0 && ((lower[0] == '[' && lower[n - 1] == ']') || (lower[0] == '(' && lower[n - 1] == ')'));
    proof {
        if n > 0 {
            let s = lower@;
            assert(s.take(1) =~= seq![s[0]]);
            assert(s.skip(n - 1) =~= seq![s[n - 1]]);
            assert(starts_with(s, seq!['[']) == (s[0] == '[')) by {
                if s.take(1) == seq!['['] {
                    assert(s.take(1)[0] == '[');
                }
            }
            assert(starts_with(s, seq!['(']) == (s[0] == '(')) by {
                if s.take(1) == seq!['('] {
                    assert(s.take(1)[0] == '(');
                }
            }
            assert(ends_with(s, seq![']']) == (s[n - 1] == ']')) by {
                if s.skip(n - 1) == seq![']'] {
                    assert(s.skip(n - 1)[0] == ']');
                }
            }
            assert(ends_with(s, seq![')']) == (s[n - 1] == ')')) by {
                if s.skip(n - 1) == seq![')'] {
                    assert(s.skip(n - 1)[0] == ')');
                }
            }
        }
    }
    assert(b == bracketed(lower@));
    if !b {
        return false;
    }
    let markers = ["inaudible", "foreign language", "speaking", "silence", "music", "noise"];
    let mut i: usize = 0;
    while i < markers.len()
        invariant
            i <= markers.len(),
            forall|j: int| 0 <= j < markers@.len() ==> #[trigger] markers@[j]@ == caption_markers()[j],
            caption_markers().len() == markers@.len(),
            bracketed(lower@),
            forall|j: int| 0 <= j < i ==> !contains(lower@, #[trigger] caption_markers()[j]),
        decreases markers.len() - i,
    {
        let m = chars_of(markers[i]);
        if contains_chars(lower, &m) {
            assert(contains(lower@, caption_markers()[i as int]));
            return true;
        }
        i += 1;
    }
    false
}

/// Whether a lowercased line is a bracketed caption about non-speech.
pub fn is_non_speech_caption(lower: &str) -> (r: bool)
    ensures
        r == non_speech_caption(lower@),
{
    let v = chars_of(lower);
    is_non_speech_caption_vec(&v)
}

/// Tidy Whisper output: drop blank lines and bracketed non-speech tags, trim
/// each line and join them with single spaces.
pub fn clean_output(raw: &str) -> (r: String)
    ensures
        r@ == cleaned_output(raw@),
{
    let v = chars_of(raw);
    let ls = lines_vec(&v);
    let ghost all = views(ls@);
    let mut kept: Vec<Vec<char>> = Vec::new();
    let mut i: usize = 0;
    while i < ls.len()
        invariant
            i <= ls.len(),
            all == views(ls@),
            views(kept@) == kept_lines(all.take(i as int)),
        decreases ls.len() - i,
    {
        proof {
            let t = all.take(i as int + 1);
            assert(t.drop_last() =~= all.take(i as int));
            assert(t.last() == ls@[i as int]@);
        }
        let t = trim_vec(&ls[i]);
        let lower = lower_vec(&t);
        if t.len() > 0 && !is_non_speech_tag_vec(&lower) && !is_non_speech_caption_vec(&lower) {
            proof {
                lemma_views_push(kept@, t);
            }
            kept.push(t);
        } else {
            assert(views(kept@) + seq![] =~= views(kept@));
        }
        i += 1;
    }
    assert(all.take(ls.len() as int) =~= all);
    let sep: Vec<char> = vec![' '];
    assert(sep@ =~= seq![' ']);
    let joined = join_vecs(&kept, &sep);
    let out = trim_vec(&joined);
    string_of(&out)
}

/// Whisper's audio context for a clip: 50 per started second of 16 kHz
/// audio, kept within 150 ..= 1500.
pub open spec fn audio_context_spec(samples: nat) -> int {
    let seconds = (samples + 15_999) / 16_000;
    let ctx = seconds * 50;
    if ctx < 150 {
        150
    } else if ctx > 1500 {
        1500
    } else {
        ctx as int
    }
}

/// The audio context size for a clip of `sample_count` 16 kHz samples.
pub fn audio_context_for_samples(sample_count: usize) -> (r: i32)
    requires
        sample_count <= 687_194_700_000,
    ensures
        r == audio_context_spec(sample_count as nat),
{
    let seconds: u64 = ((sample_count as u64) + 15_999) / 16_000;
    let ctx: u64 = seconds * 50;
    if ctx < 150 {
        150
    } else if ctx > 1500 {
        1500
    } else {
        ctx as i32
    }
}

/// What `str::parse::<i32>()` returns: an optional sign, digits, in range.
pub open spec fn parse_i32_spec(s: Seq<char>) -> Option<int> {
    if s.len() > 0 && s[0] == '-' {
        let d = s.drop_first();
        if d.len() > 0 && (d[0] == '+' || d[0] == '-') {
            None
        } else {
            match parse_unsigned(d, 0x8000_0000) {
                Some(v) => Some(-v),
                None => None,
            }
        }
    } else {
        let d = if s.len() > 0 && s[0] == '+' { s.drop_first() } else { s };
        if d.len() > 0 && (d[0] == '+' || d[0] == '-') {
            None
        } else {
            match parse_unsigned(d, 0x7fff_ffff) {
                Some(v) => Some(v as int),
                None => None,
            }
        }
    }
}

/// `str::parse::<i32>()`.
pub fn parse_i32(v: &[char]) -> (r: Option<i32>)
    ensures
        match r {
            Some(x) => parse_i32_spec(v@) == Some(x as int),
            None => parse_i32_spec(v@) is None,
        },
{
    let neg = v.len() > 0 && v[0] == '-';
    let plus = !neg && v.len() > 0 && v[0] == '+';
    let start: usize = if neg || plus { 1 } else { 0 };
    let d = crate::text::subvec(v, start, v.len());
    assert(neg ==> d@ =~= v@.drop_first());
    assert(plus ==> d@ =~= v@.drop_first());
    assert(!neg && !plus ==> d@ =~= v@);
    if d.len() > 0 && (d[0] == '+' || d[0] == '-') {
        return None;
    }
    assert(crate::text::unsigned_digits(d@) == d@);
    match parse_u64(&d) {
        None => None,
        Some(x) => {
            if neg {
                if x <= 0x8000_0000 {
                    Some((0 - (x as i64)) as i32)
                } else {
                    None
                }
            } else if x <= 0x7fff_ffff {
                Some(x as i32)
            } else {
                None
            }
        },
    }
}

/// The transcription thread count: a valid `SPIEL_WHISPER_THREADS` value
/// kept within 1 ..= 16; otherwise the configured count kept within 1 ..= 8,
/// but no more than the available cores less one (kept within 1 ..= 8),
/// with 4 cores assumed when unknown.
pub open spec fn thread_count_spec(env: Option<Seq<char>>, configured: int, cores: Option<int>) -> int {
    let parsed = match env {
        Some(raw) => parse_i32_spec(trim(raw)),
        None => None,
    };
    match parsed {
        Some(v) => crate::config::clamp_int(v, 1, 16),
        None => {
            let c = crate::config::clamp_int(configured, 1, 8);
            let cores = match cores { Some(n) => n, None => 4 };
            let limit = crate::config::clamp_int(cores - 1, 1, 8);
            if c < limit { c } else { limit }
        },
    }
}

/// The thread count from the environment override, the configured count and
/// the available parallelism (`None` when unknown; as `i32`, as read).
pub fn thread_count_from(env: Option<&str>, configured_threads: u8, cores: Option<i32>) -> (r: i32)
    requires
        cores matches Some(n) ==> n > i32::MIN,
    ensures
        r == thread_count_spec(
            match env { Some(s) => Some(s@), None => None },
            configured_threads as int,
            match cores { Some(n) => Some(n as int), None => None },
        ),
{
    if let Some(raw) = env {
        let v = chars_of(raw);
        let t = trim_vec(&v);
        if let Some(n) = parse_i32(&t) {
            return if n < 1 { 1 } else if n > 16 { 16 } else { n };
        }
    }
    let c: i32 = if (configured_threads as i32) < 1 { 1 } else if configured_threads > 8 { 8 } else { configured_threads as i32 };
    let cores_n: i32 = match cores { Some(n) => n, None => 4 };
    let m = cores_n - 1;
    let limit: i32 = if m < 1 { 1 } else if m > 8 { 8 } else { m };
    if c < limit { c } else { limit }
}

/// The arguments of a transcription worker process.
#[derive(Debug, Clone)]
pub struct WorkerArgs {
    pub model_path: String,
    pub model_id: String,
    pub language: String,
    pub threads: u8,
}

/// The flag that starts the process as a transcription worker.
pub open spec fn worker_flag() -> Seq<char> {
    "--spiel-transcribe-worker"@
}

/// Whether the command line asks for a transcription worker.
pub fn is_worker_invocation(args: &[String]) -> (r: bool)
    ensures
        r == (args@.len() > 1 && args@[1]@ == worker_flag()),
{
    args.len() > 1 && crate::text::str_eq(args[1].as_str(), "--spiel-transcribe-worker")
}

/// The worker's arguments: model path, model id, language, and a thread
/// count that defaults to 1 when missing or not a `u8`.
pub fn parse_worker_args(args: &[String]) -> (r: Result<WorkerArgs, SpielError>)
    ensures
        args@.len() <= 2 ==> (r matches Err(SpielError::Transcription(m)) && m@ == "worker missing model path"@),
        args@.len() == 3 ==> (r matches Err(SpielError::Transcription(m)) && m@ == "worker missing model id"@),
        args@.len() == 4 ==> (r matches Err(SpielError::Transcription(m)) && m@ == "worker missing language"@),
        args@.len() >= 5 ==> (r matches Ok(w) && w.model_path@ == args@[2]@ && w.model_id@ == args@[3]@
            && w.language@ == args@[4]@ && w.threads == (if args@.len() > 5 {
                match parse_unsigned(args@[5]@, 255) { Some(v) => v, None => 1 }
            } else {
                1
            })),
{
    if args.len() <= 2 {
        return Err(SpielError::Transcription(String::from_str("worker missing model path")));
    }
    if args.len() == 3 {
        return Err(SpielError::Transcription(String::from_str("worker missing model id")));
    }
    if args.len() == 4 {
        return Err(SpielError::Transcription(String::from_str("worker missing language")));
    }
    let threads: u8 = if args.len() > 5 {
        let v = chars_of(args[5].as_str());
        match parse_u64(&v) {
            Some(x) => if x <= 255 { x as u8 } else { 1 },
            None => 1,
        }
    } else {
        1
    };
    Ok(WorkerArgs {
        model_path: args[2].clone(),
        model_id: args[3].clone(),
        language: args[4].clone(),
        threads,
    })
}

/// Whether the recognizer is told a language: not for "auto" or an empty hint.
pub fn language_for_recognizer(language: &str) -> (r: bool)
    ensures
        r == (language@ != "auto"@ && language@.len() > 0),
{
    !crate::text::str_eq(language, "auto") && !language.is_empty()
}

} // verus!

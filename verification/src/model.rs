//! The Whisper model registry, language hints, download tuning, and the
//! checks that decide whether a model file on disk is installed, partial or
//! corrupt.
use vstd::prelude::*;
use crate::error::{SpielError, error_message};
use crate::text::{
    ascii_lower, chars_of, chars_eq, contains, dec_string, ends_with, is_ascii_alnum,
    is_ascii_lower, is_ascii_digit, lower_vec, parse_u64, parse_unsigned, push_decimal,
    str_contains, str_eq, string_of, subvec, trim, trim_vec, words,
};

verus! {

/// GGML container magic, the u32 `0x67676d6c` ("ggml") that whisper.cpp
/// writes little-endian as the bytes `6c 6d 67 67`.
pub const GGML_MAGIC: u32 = 0x6767_6d6c;

/// One model that the UI offers.
#[derive(Debug, Clone, Copy)]
pub struct ModelSpec {
    pub id: &'static str,
    pub label: &'static str,
    pub filename: &'static str,
    pub url: &'static str,
    /// Approximate download size, for the UI.
    pub approx_mb: u32,
    /// Pinned SHA-256 (hex). Empty = not pinned.
    pub sha256: &'static str,
    /// True for multilingual checkpoints; false means English-only variants.
    pub multilingual: bool,
    pub note: &'static str,
}

/// The models offered, in order.
pub open spec fn registry_spec() -> Seq<ModelSpec> {
    seq![
        ModelSpec {
            id: "tiny.en",
            label: "Tiny (English)",
            filename: "ggml-tiny.en.bin",
            url: "https://huggingface.co/ggerganov/whisper.cpp/resolve/main/ggml-tiny.en.bin",
            approx_mb: 75,
            sha256: "",
            multilingual: false,
            note: "Fastest, lowest accuracy. Good on older Macs.",
        },
        ModelSpec {
            id: "base.en",
            label: "Base (English)",
            filename: "ggml-base.en.bin",
            url: "https://huggingface.co/ggerganov/whisper.cpp/resolve/main/ggml-base.en.bin",
            approx_mb: 142,
            sha256: "",
            multilingual: false,
            note: "Recommended. Balanced speed and accuracy for English.",
        },
        ModelSpec {
            id: "small.en",
            label: "Small (English)",
            filename: "ggml-small.en.bin",
            url: "https://huggingface.co/ggerganov/whisper.cpp/resolve/main/ggml-small.en.bin",
            approx_mb: 466,
            sha256: "",
            multilingual: false,
            note: "Higher accuracy, slower. Best on Apple Silicon.",
        },
        ModelSpec {
            id: "tiny",
            label: "Tiny (Multilingual)",
            filename: "ggml-tiny.bin",
            url: "https://huggingface.co/ggerganov/whisper.cpp/resolve/main/ggml-tiny.bin",
            approx_mb: 75,
            sha256: "",
            multilingual: true,
            note: "Tiny-size multilingual model. Great for mixed-language notes.",
        },
        ModelSpec {
            id: "base",
            label: "Base (Multilingual)",
            filename: "ggml-base.bin",
            url: "https://huggingface.co/ggerganov/whisper.cpp/resolve/main/ggml-base.bin",
            approx_mb: 142,
            sha256: "",
            multilingual: true,
            note: "English and multilingual default quality profile.",
        },
        ModelSpec {
            id: "small",
            label: "Small (Multilingual)",
            filename: "ggml-small.bin",
            url: "https://huggingface.co/ggerganov/whisper.cpp/resolve/main/ggml-small.bin",
            approx_mb: 466,
            sha256: "",
            multilingual: true,
            note: "Higher-quality multilingual model. Better for mixed-language output.",
        },
        ModelSpec {
            id: "medium",
            label: "Medium (Multilingual)",
            filename: "ggml-medium.bin",
            url: "https://huggingface.co/ggerganov/whisper.cpp/resolve/main/ggml-medium.bin",
            approx_mb: 1536,
            sha256: "",
            multilingual: true,
            note: "Largest included quality target. Better recall/accuracy, more memory.",
        },
    ]
}

/// The first entry of `models` whose id is `id`.
pub open spec fn find_model(models: Seq<ModelSpec>, id: Seq<char>) -> Option<ModelSpec>
    decreases models.len(),
{
    if models.len() == 0 {
        None
    } else if models[0].id@ == id {
        Some(models[0])
    } else {
        find_model(models.drop_first(), id)
    }
}

/// The registry entry with id `id`, if any.
pub open spec fn lookup_model(id: Seq<char>) -> Option<ModelSpec> {
    find_model(registry_spec(), id)
}

/// The models offered in the UI.
pub fn registry() -> (r: Vec<ModelSpec>)
    ensures
        r@ == registry_spec(),
{
    let r = vec![
        ModelSpec {
            id: "tiny.en",
            label: "Tiny (English)",
            filename: "ggml-tiny.en.bin",
            url: "https://huggingface.co/ggerganov/whisper.cpp/resolve/main/ggml-tiny.en.bin",
            approx_mb: 75,
            sha256: "",
            multilingual: false,
            note: "Fastest, lowest accuracy. Good on older Macs.",
        },
        ModelSpec {
            id: "base.en",
            label: "Base (English)",
            filename: "ggml-base.en.bin",
            url: "https://huggingface.co/ggerganov/whisper.cpp/resolve/main/ggml-base.en.bin",
            approx_mb: 142,
            sha256: "",
            multilingual: false,
            note: "Recommended. Balanced speed and accuracy for English.",
        },
        ModelSpec {
            id: "small.en",
            label: "Small (English)",
            filename: "ggml-small.en.bin",
            url: "https://huggingface.co/ggerganov/whisper.cpp/resolve/main/ggml-small.en.bin",
            approx_mb: 466,
            sha256: "",
            multilingual: false,
            note: "Higher accuracy, slower. Best on Apple Silicon.",
        },
        ModelSpec {
            id: "tiny",
            label: "Tiny (Multilingual)",
            filename: "ggml-tiny.bin",
            url: "https://huggingface.co/ggerganov/whisper.cpp/resolve/main/ggml-tiny.bin",
            approx_mb: 75,
            sha256: "",
            multilingual: true,
            note: "Tiny-size multilingual model. Great for mixed-language notes.",
        },
        ModelSpec {
            id: "base",
            label: "Base (Multilingual)",
            filename: "ggml-base.bin",
            url: "https://huggingface.co/ggerganov/whisper.cpp/resolve/main/ggml-base.bin",
            approx_mb: 142,
            sha256: "",
            multilingual: true,
            note: "English and multilingual default quality profile.",
        },
        ModelSpec {
            id: "small",
            label: "Small (Multilingual)",
            filename: "ggml-small.bin",
            url: "https://huggingface.co/ggerganov/whisper.cpp/resolve/main/ggml-small.bin",
            approx_mb: 466,
            sha256: "",
            multilingual: true,
            note: "Higher-quality multilingual model. Better for mixed-language output.",
        },
        ModelSpec {
            id: "medium",
            label: "Medium (Multilingual)",
            filename: "ggml-medium.bin",
            url: "https://huggingface.co/ggerganov/whisper.cpp/resolve/main/ggml-medium.bin",
            approx_mb: 1536,
            sha256: "",
            multilingual: true,
            note: "Largest included quality target. Better recall/accuracy, more memory.",
        },
    ];
    assert(r@ =~= registry_spec());
    r
}

/// The registry entry whose id is `id`.
pub fn spec(id: &str) -> (r: Option<ModelSpec>)
    ensures
        r == lookup_model(id@),
{
    let models = registry();
    let mut i: usize = 0;
    assert(models@.skip(0) =~= models@);
    while i < models.len()
        invariant
            i <= models.len(),
            models@ == registry_spec(),
            lookup_model(id@) == find_model(models@.skip(i as int), id@),
        decreases models.len() - i,
    {
        assert(models@.skip(i as int).drop_first() =~= models@.skip(i + 1));
        assert(models@.skip(i as int)[0] == models@[i as int]);
        if str_eq(models[i].id, id) {
            return Some(models[i]);
        }
        i += 1;
    }
    None
}

// ── Languages ──────────────────────────────────────────────────

pub open spec fn is_tag_sep(c: char) -> bool {
    c == '-' || c == '_'
}

/// Position of the first `'-'` or `'_'`, or the length.
pub open spec fn tag_sep_index(s: Seq<char>) -> nat
    decreases s.len(),
{
    if s.len() == 0 {
        0
    } else if is_tag_sep(s[0]) {
        0
    } else {
        1 + tag_sep_index(s.drop_first())
    }
}

/// The primary subtag: the text before the first `'-'` or `'_'`.
pub open spec fn primary_tag(s: Seq<char>) -> Seq<char> {
    s.take(tag_sep_index(s) as int)
}

pub open spec fn is_tag_char(c: char) -> bool {
    is_ascii_alnum(c) || is_tag_sep(c)
}

/// `is_language_hint`: "en", "auto", or a tag of ASCII letters, digits, `-`
/// and `_` whose primary subtag is two lowercase ASCII letters.
pub open spec fn language_hint_ok(s: Seq<char>) -> bool {
    ||| s == "en"@
    ||| s == "auto"@
    ||| {
        let p = primary_tag(s);
        &&& p.len() == 2
        &&& is_ascii_lower(p[0])
        &&& is_ascii_lower(p[1])
        &&& forall|i: int| 0 <= i < s.len() ==> is_tag_char(#[trigger] s[i])
    }
}

/// `normalize_language_hint`.
pub open spec fn normalized_language(s: Seq<char>) -> Seq<char> {
    let raw = ascii_lower(trim(s));
    if raw.len() == 0 || raw == "auto"@ {
        "auto"@
    } else if language_hint_ok(primary_tag(raw)) {
        primary_tag(raw)
    } else {
        "auto"@
    }
}

/// `is_language_supported`.
pub open spec fn language_supported(m: ModelSpec, language: Seq<char>) -> bool {
    if language == "auto"@ {
        true
    } else if !language_hint_ok(language) {
        false
    } else if m.multilingual {
        true
    } else {
        language == "en"@
    }
}

pub proof fn lemma_tag_sep_index(s: Seq<char>, k: int)
    requires
        0 <= k <= s.len(),
        forall|j: int| 0 <= j < k ==> !is_tag_sep(#[trigger] s[j]),
        k == s.len() || is_tag_sep(s[k]),
    ensures
        tag_sep_index(s) == k,
    decreases k,
{
    if k > 0 {
        let t = s.drop_first();
        assert(!is_tag_sep(s[0]));
        assert forall|j: int| 0 <= j < k - 1 implies !is_tag_sep(#[trigger] t[j]) by {
            assert(t[j] == s[j + 1]);
        }
        if k - 1 < t.len() {
            assert(t[k - 1] == s[k]);
        }
        lemma_tag_sep_index(t, k - 1);
    }
}

pub proof fn lemma_tag_sep_prefix(s: Seq<char>)
    ensures
        tag_sep_index(s) <= s.len(),
        forall|j: int| 0 <= j < tag_sep_index(s) ==> !is_tag_sep(#[trigger] s[j]),
    decreases s.len(),
{
    if s.len() > 0 && !is_tag_sep(s[0]) {
        lemma_tag_sep_prefix(s.drop_first());
        assert forall|j: int| 0 <= j < tag_sep_index(s) implies !is_tag_sep(#[trigger] s[j]) by {
            if j > 0 {
                assert(s[j] == s.drop_first()[j - 1]);
            }
        }
    }
}

/// The primary subtag has no subtags of its own.
pub proof fn lemma_primary_tag_idempotent(s: Seq<char>)
    ensures
        primary_tag(primary_tag(s)) == primary_tag(s),
{
    lemma_tag_sep_prefix(s);
    let p = primary_tag(s);
    assert forall|j: int| 0 <= j < p.len() implies !is_tag_sep(#[trigger] p[j]) by {
        assert(p[j] == s[j]);
    }
    lemma_tag_sep_index(p, p.len() as int);
    assert(p.take(p.len() as int) =~= p);
}

/// A normalized language hint normalizes to itself.
pub proof fn lemma_normalized_idempotent(s: Seq<char>)
    ensures
        normalized_language(normalized_language(s)) == normalized_language(s),
{
    reveal_strlit("auto");
    reveal_strlit("en");
    let n = normalized_language(s);
    let raw = ascii_lower(trim(s));
    if n == "auto"@ {
        crate::text::lemma_lower_word_fixed("auto"@);
    } else {
        lemma_primary_tag_idempotent(raw);
        assert(n == primary_tag(raw));
        assert(primary_tag(n) == n);
        assert(language_hint_ok(n));
        if n == "en"@ {
            crate::text::lemma_lower_word_fixed(n);
        } else {
            assert(n.len() == 2);
            assert forall|i: int| 0 <= i < n.len() implies is_ascii_lower(#[trigger] n[i]) by {
                if i == 0 {
                    assert(is_ascii_lower(n[0]));
                } else {
                    assert(is_ascii_lower(n[1]));
                }
            }
            crate::text::lemma_lower_word_fixed(n);
        }
    }
}

/// The primary subtag of `v`.
fn primary_tag_vec(v: &[char]) -> (r: Vec<char>)
    ensures
        r@ == primary_tag(v@),
{
    let mut i: usize = 0;
    while i < v.len() && v[i] != '-' && v[i] != '_'
        invariant
            i <= v.len(),
            forall|j: int| 0 <= j < i ==> !is_tag_sep(#[trigger] v@[j]),
        decreases v.len() - i,
    {
        i += 1;
    }
    proof {
        lemma_tag_sep_index(v@, i as int);
    }
    subvec(v, 0, i)
}

fn language_hint_ok_vec(v: &[char]) -> (r: bool)
    ensures
        r == language_hint_ok(v@),
{
    proof {
        reveal_strlit("en");
        reveal_strlit("auto");
    }
    if chars_eq(v, &['e', 'n']) {
        assert(v@ =~= "en"@);
        return true;
    }
    if chars_eq(v, &['a', 'u', 't', 'o']) {
        assert(v@ =~= "auto"@);
        return true;
    }
    assert(v@ != "en"@) by {
        if v@ == "en"@ {
            assert(v@ =~= seq!['e', 'n']);
        }
    }
    assert(v@ != "auto"@) by {
        if v@ == "auto"@ {
            assert(v@ =~= seq!['a', 'u', 't', 'o']);
        }
    }
    let p = primary_tag_vec(v);
    if !(p.len() == 2 && 'a' <= p[0] && p[0] <= 'z' && 'a' <= p[1] && p[1] <= 'z') {
        return false;
    }
    let mut i: usize = 0;
    while i < v.len()
        invariant
            i <= v.len(),
            v@ != "en"@,
            v@ != "auto"@,
            forall|j: int| 0 <= j < i ==> is_tag_char(#[trigger] v@[j]),
        decreases v.len() - i,
    {
        let c = v[i];
        let ok = ('a' <= c && c <= 'z') || ('A' <= c && c <= 'Z') || ('0' <= c && c <= '9') || c
            == '-' || c == '_';
        if !ok {
            assert(!is_tag_char(v@[i as int]));
            return false;
        }
        i += 1;
    }
    true
}

/// Whether `language` is a sane language hint: "en", "auto", or a tag such
/// as "en-US" or "pt_BR" whose primary subtag is two lowercase letters.
pub fn is_language_hint(language: &str) -> (r: bool)
    ensures
        r == language_hint_ok(language@),
{
    let v = chars_of(language);
    language_hint_ok_vec(&v)
}

/// Whether model `spec` can transcribe `language`.
pub fn is_language_supported(spec: &ModelSpec, language: &str) -> (r: bool)
    ensures
        r == language_supported(*spec, language@),
{
    proof {
        reveal_strlit("en");
        reveal_strlit("auto");
    }
    if str_eq(language, "auto") {
        return true;
    }
    if !is_language_hint(language) {
        return false;
    }
    if spec.multilingual {
        true
    } else {
        str_eq(language, "en")
    }
}

/// The language hint reduced to its lowercase primary subtag, or "auto"
/// when it is empty or not a sane tag.
pub fn normalize_language_hint(language: &str) -> (r: String)
    ensures
        r@ == normalized_language(language@),
{
    proof {
        reveal_strlit("auto");
    }
    let v = chars_of(language);
    let t = trim_vec(&v);
    let raw = lower_vec(&t);
    if raw.len() == 0 {
        return String::from_str("auto");
    }
    if chars_eq(&raw, &['a', 'u', 't', 'o']) {
        assert(raw@ =~= "auto"@);
        return String::from_str("auto");
    }
    assert(raw@ != "auto"@) by {
        if raw@ == "auto"@ {
            assert(raw@ =~= seq!['a', 'u', 't', 'o']);
        }
    }
    let primary = primary_tag_vec(&raw);
    if language_hint_ok_vec(&primary) {
        string_of(&primary)
    } else {
        String::from_str("auto")
    }
}

/// The recommended model id for a language, and why.
pub open spec fn recommended_for(language: Seq<char>) -> (Seq<char>, Seq<char>) {
    let n = normalized_language(language);
    if n == "en"@ {
        (
            "base.en"@,
            "English dictation is fastest and most memory-efficient on the English-only base model."@,
        )
    } else if n == "auto"@ {
        (
            "base"@,
            "Auto-detect works best with a multilingual model so mixed-language speech stays supported."@,
        )
    } else {
        ("base"@, "Non-English dictation needs a multilingual model for reliable transcription."@)
    }
}

/// The model to suggest for a language, with the reason shown to the user.
pub fn recommended_model_for_language(language: &str) -> (r: (&'static str, &'static str))
    ensures
        (r.0@, r.1@) == recommended_for(language@),
{
    let n = normalize_language_hint(language);
    if str_eq(n.as_str(), "en") {
        (
            "base.en",
            "English dictation is fastest and most memory-efficient on the English-only base model.",
        )
    } else if str_eq(n.as_str(), "auto") {
        (
            "base",
            "Auto-detect works best with a multilingual model so mixed-language speech stays supported.",
        )
    } else {
        ("base", "Non-English dictation needs a multilingual model for reliable transcription.")
    }
}

// ── Tuning values read from the environment ────────────────────

/// The value that `raw.trim().parse::<u64>()` gives, when `raw` is present.
pub open spec fn parsed_trimmed(raw: Option<&str>, max: nat) -> Option<nat> {
    match raw {
        Some(s) => parse_unsigned(trim(s@), max),
        None => None,
    }
}

/// What `Duration::from_millis` returns for `ms`.
pub uninterp spec fn duration_of_millis(ms: nat) -> std::time::Duration;

/// `Duration::from_millis`. The result is named by `duration_of_millis`.
#[verifier::external_body]
fn duration_from_millis(ms: u64) -> (r: std::time::Duration)
    ensures
        r == duration_of_millis(ms as nat),
{
    std::time::Duration::from_millis(ms)
}

/// `raw.trim().parse::<u64>()` for an optional text.
pub fn parse_trimmed_u64(raw: Option<&str>) -> (r: Option<u64>)
    ensures
        match r {
            Some(x) => parsed_trimmed(raw, u64::MAX as nat) == Some(x as nat),
            None => parsed_trimmed(raw, u64::MAX as nat) is None,
        },
{
    match raw {
        Some(s) => {
            let v = chars_of(s);
            let t = trim_vec(&v);
            parse_u64(&t)
        },
        None => None,
    }
}

/// `raw.trim().parse::<u32>()` for an optional text.
pub fn parse_trimmed_u32(raw: Option<&str>) -> (r: Option<u32>)
    ensures
        match r {
            Some(x) => parsed_trimmed(raw, u32::MAX as nat) == Some(x as nat),
            None => parsed_trimmed(raw, u32::MAX as nat) is None,
        },
{
    match parse_trimmed_u64(raw) {
        Some(x) => {
            if x <= u32::MAX as u64 {
                Some(x as u32)
            } else {
                None
            }
        },
        None => None,
    }
}

pub open spec fn clamp(v: nat, lo: nat, hi: nat) -> nat {
    if v < lo {
        lo
    } else if v > hi {
        hi
    } else {
        v
    }
}

/// Expiry for stale `.part` files: the parsed milliseconds, or the default.
pub fn parse_part_cleanup_ms(raw: Option<&str>, default_ms: u64) -> (r: std::time::Duration)
    ensures
        r == duration_of_millis(
            match parsed_trimmed(raw, u64::MAX as nat) {
                Some(v) => v,
                None => default_ms as nat,
            },
        ),
{
    match parse_trimmed_u64(raw) {
        Some(v) => duration_from_millis(v),
        None => duration_from_millis(default_ms),
    }
}

/// Stale `.part` expiry when the setting is missing or invalid: one day.
pub fn default_part_cleanup_duration() -> (r: std::time::Duration)
    ensures
        r == duration_of_millis(86_400_000),
{
    duration_from_millis(24 * 60 * 60 * 1000)
}

/// Download timeout: the parsed value kept within 1 s ..= 24 h, or the default.
pub fn parse_download_timeout_ms(raw: Option<&str>, default_ms: u64) -> (r: u64)
    ensures
        r == match parsed_trimmed(raw, u64::MAX as nat) {
            Some(v) => clamp(v, 1_000, 86_400_000),
            None => default_ms as nat,
        },
{
    match parse_trimmed_u64(raw) {
        Some(v) => if v < 1_000 {
            1_000
        } else if v > 86_400_000 {
            86_400_000
        } else {
            v
        },
        None => default_ms,
    }
}

/// Download retries: the parsed value kept within 0 ..= 8, or the default.
pub fn parse_download_retries(raw: Option<&str>, default_retries: u32) -> (r: u32)
    ensures
        r == match parsed_trimmed(raw, u32::MAX as nat) {
            Some(v) => clamp(v, 0, 8),
            None => default_retries as nat,
        },
{
    match parse_trimmed_u32(raw) {
        Some(v) => if v > 8 {
            8
        } else {
            v
        },
        None => default_retries,
    }
}

/// Retry backoff: the parsed value kept within 100 ms ..= 30 s, or the default.
pub fn parse_download_backoff_ms(raw: Option<&str>, default_ms: u64) -> (r: u64)
    ensures
        r == match parsed_trimmed(raw, u64::MAX as nat) {
            Some(v) => clamp(v, 100, 30_000),
            None => default_ms as nat,
        },
{
    match parse_trimmed_u64(raw) {
        Some(v) => if v < 100 {
            100
        } else if v > 30_000 {
            30_000
        } else {
            v
        },
        None => default_ms,
    }
}

pub open spec fn pow2(k: nat) -> nat
    decreases k,
{
    if k == 0 {
        1
    } else {
        2 * pow2((k - 1) as nat)
    }
}

pub open spec fn saturate(x: nat) -> nat {
    if x > u64::MAX {
        u64::MAX as nat
    } else {
        x
    }
}

pub proof fn lemma_pow2_small(j: nat)
    requires
        j < 8,
    ensures
        pow2(j) <= 128,
{
    reveal_with_fuel(pow2, 9);
    if j == 0 {
    } else if j == 1 {
    } else if j == 2 {
    } else if j == 3 {
    } else if j == 4 {
    } else if j == 5 {
    } else if j == 6 {
    } else {
        assert(j == 7);
    }
}

/// The delay before retry `attempt`: `base * 2^min(attempt, 8)` (saturating)
/// capped at 5 s, plus half of the jitter `nanos % base`.
pub open spec fn retry_delay_spec(base: nat, attempt: nat, nanos: nat) -> nat {
    if attempt == 0 || base == 0 {
        0
    } else {
        let k = if attempt < 8 { attempt } else { 8 };
        let b = saturate(base * pow2(k));
        let bounded = if b < 5_000 { b } else { 5_000 };
        saturate(bounded + (nanos % base) / 2)
    }
}

pub proof fn lemma_pow2_monotone(a: nat, b: nat)
    requires
        a <= b,
    ensures
        1 <= pow2(a) <= pow2(b),
    decreases b,
{
    if b > 0 {
        if a < b {
            lemma_pow2_monotone(a, (b - 1) as nat);
        } else {
            lemma_pow2_monotone((a - 1) as nat, (b - 1) as nat);
        }
    }
}

/// The delay before a retry never exceeds five seconds plus half the base
/// delay, and for the same clock jitter a later attempt never waits less.
pub proof fn law_retry_delay_bounded_and_growing(base: nat, a1: nat, a2: nat, nanos: nat)
    requires
        base <= u64::MAX,
        1 <= a1 <= a2,
    ensures
        retry_delay_spec(base, a2, nanos) <= 5_000 + base / 2,
        retry_delay_spec(base, a1, nanos) <= retry_delay_spec(base, a2, nanos),
{
    if base > 0 {
        let k1: nat = if a1 < 8 { a1 } else { 8 };
        let k2: nat = if a2 < 8 { a2 } else { 8 };
        lemma_pow2_monotone(k1, k2);
        let p1 = pow2(k1);
        let p2 = pow2(k2);
        assert(base * p1 <= base * p2) by (nonlinear_arith)
            requires
                p1 <= p2,
        ;
        let j = nanos % base;
        assert(j < base);
        assert(j / 2 <= base / 2) by (nonlinear_arith)
            requires
                j < base,
        ;
    }
}

/// The retry delay for a given clock jitter reading `nanos`.
pub fn retry_delay_with_jitter(base_ms: u64, attempt: u32, nanos: u64) -> (r: u64)
    ensures
        r == retry_delay_spec(base_ms as nat, attempt as nat, nanos as nat),
{
    if attempt == 0 || base_ms == 0 {
        return 0;
    }
    let k: u32 = if attempt < 8 { attempt } else { 8 };
    let mut multiplier: u64 = 1;
    let mut j: u32 = 0;
    while j < k
        invariant
            j <= k <= 8,
            multiplier == pow2(j as nat),
        decreases k - j,
    {
        proof {
            lemma_pow2_small(j as nat);
        }
        multiplier = multiplier * 2;
        j += 1;
        assert(pow2(j as nat) == 2 * pow2((j - 1) as nat));
    }
    let jitter = nanos % base_ms;
    let base = match base_ms.checked_mul(multiplier) {
        Some(b) => b,
        None => u64::MAX,
    };
    let bounded = if base < 5_000 { base } else { 5_000 };
    match bounded.checked_add(jitter / 2) {
        Some(x) => x,
        None => u64::MAX,
    }
}

/// Delay before retry `attempt`, with jitter from the system clock.
pub fn retry_delay_ms(base_ms: u64, attempt: u32) -> (r: u64)
    ensures
        exists|nanos: u32| r == retry_delay_spec(base_ms as nat, attempt as nat, nanos as nat),
{
    let nanos = crate::clock::subsec_nanos_now();
    retry_delay_with_jitter(base_ms, attempt, nanos as u64)
}

// ── Download errors ────────────────────────────────────────────

/// The download was canceled by the user.
pub open spec fn download_canceled(e: SpielError) -> bool {
    e matches SpielError::Download(r) && r@ == "canceled"@
}

/// `classify_download_error`.
pub open spec fn download_error_class(e: SpielError) -> Seq<char> {
    match e {
        SpielError::Download(r) => if r@ == "canceled"@ {
            "canceled"@
        } else if contains(r@, "checksum mismatch"@) {
            "checksum"@
        } else if contains(r@, "server returned"@) {
            "http_status"@
        } else if contains(r@, "could not reach"@) {
            "network"@
        } else if contains(r@, "download incomplete"@) {
            "incomplete"@
        } else if contains(r@, "unsafe"@) {
            "unsafe_path"@
        } else {
            "unknown"@
        },
        SpielError::Model(r) => if contains(r@, "checksum mismatch"@) {
            "checksum"@
        } else {
            "validation"@
        },
        _ => "unknown"@,
    }
}

/// Whether a download failed because it was canceled.
pub fn is_download_cancelled(err: &SpielError) -> (r: bool)
    ensures
        r == download_canceled(*err),
{
    match err {
        SpielError::Download(reason) => str_eq(reason.as_str(), "canceled"),
        _ => false,
    }
}

/// What a download does after an attempt.
#[derive(Debug, Clone, Copy, PartialEq, Eq, Structural)]
pub enum DownloadRetry {
    /// The attempt succeeded.
    Done,
    /// Try again; this is the number of the next attempt.
    Retry { next_attempt: u32 },
    /// Stop with the attempt's error.
    GiveUp,
}

/// After attempt `attempt` (counted from 0) ended with `outcome`: stop on
/// success, give up when the download was canceled or `max_retries` retries
/// were made, else retry.
pub fn download_retry_step(attempt: u32, max_retries: u32, outcome: &Result<(), SpielError>) -> (r: DownloadRetry)
    ensures
        outcome is Ok ==> r is Done,
        outcome matches Err(e) && (download_canceled(*e) || attempt >= max_retries) ==> r is GiveUp,
        outcome matches Err(e) && !download_canceled(*e) && attempt < max_retries ==> r
            == (DownloadRetry::Retry { next_attempt: (attempt + 1) as u32 }),
{
    match outcome {
        Ok(()) => DownloadRetry::Done,
        Err(e) => {
            if is_download_cancelled(e) || attempt >= max_retries {
                DownloadRetry::GiveUp
            } else {
                DownloadRetry::Retry { next_attempt: attempt + 1 }
            }
        },
    }
}

/// A short class name of a download error, for diagnostics.
pub fn classify_download_error(err: &SpielError) -> (r: &'static str)
    ensures
        r@ == download_error_class(*err),
{
    match err {
        SpielError::Download(reason) => {
            let t = reason.as_str();
            if str_eq(t, "canceled") {
                "canceled"
            } else if str_contains(t, "checksum mismatch") {
                "checksum"
            } else if str_contains(t, "server returned") {
                "http_status"
            } else if str_contains(t, "could not reach") {
                "network"
            } else if str_contains(t, "download incomplete") {
                "incomplete"
            } else if str_contains(t, "unsafe") {
                "unsafe_path"
            } else {
                "unknown"
            }
        },
        SpielError::Model(reason) => {
            if str_contains(reason.as_str(), "checksum mismatch") {
                "checksum"
            } else {
                "validation"
            }
        },
        _ => "unknown",
    }
}

/// The text `prefix`, then the decimal `a`, then `mid`, then the decimal `b`.
fn num_message(prefix: &str, a: u64, mid: &str, b: u64, suffix: &str) -> (r: String)
    ensures
        r@ == prefix@ + dec_string(a as nat) + mid@ + dec_string(b as nat) + suffix@,
{
    let mut out: Vec<char> = Vec::new();
    crate::text::append_str(&mut out, prefix);
    push_decimal(&mut out, a);
    crate::text::append_str(&mut out, mid);
    push_decimal(&mut out, b);
    crate::text::append_str(&mut out, suffix);
    string_of(&out)
}

/// A download whose length the server announced must have exactly that many bytes.
pub fn ensure_complete_download(total: Option<u64>, downloaded: u64) -> (r: Result<(), SpielError>)
    ensures
        match total {
            Some(expected) if expected != downloaded => r matches Err(SpielError::Download(m))
                && m@ == "download incomplete: expected "@ + dec_string(expected as nat)
                + " bytes, got "@ + dec_string(downloaded as nat),
            _ => r is Ok,
        },
{
    if let Some(expected) = total {
        if downloaded != expected {
            let m = num_message("download incomplete: expected ", expected, " bytes, got ", downloaded, "");
            assert(m@ =~= "download incomplete: expected "@ + dec_string(expected as nat)
                + " bytes, got "@ + dec_string(downloaded as nat)) by {
                reveal_strlit("");
            }
            return Err(SpielError::Download(m));
        }
    }
    Ok(())
}

// ── Checksums ──────────────────────────────────────────────────

pub open spec fn is_hex_char(c: char) -> bool {
    is_ascii_digit(c) || ('a' <= c && c <= 'f') || ('A' <= c && c <= 'F')
}

pub open spec fn all_hex(s: Seq<char>) -> bool {
    forall|i: int| 0 <= i < s.len() ==> is_hex_char(#[trigger] s[i])
}

/// A 64-digit hexadecimal SHA-256 token, lowercased.
pub open spec fn checksum_token(t: Seq<char>) -> Option<Seq<char>> {
    if t.len() == 64 && all_hex(t) {
        Some(ascii_lower(t))
    } else {
        None
    }
}

fn is_hex_vec(v: &[char]) -> (r: bool)
    ensures
        r == all_hex(v@),
{
    let mut i: usize = 0;
    while i < v.len()
        invariant
            i <= v.len(),
            forall|j: int| 0 <= j < i ==> is_hex_char(#[trigger] v@[j]),
        decreases v.len() - i,
    {
        let c = v[i];
        if !(('0' <= c && c <= '9') || ('a' <= c && c <= 'f') || ('A' <= c && c <= 'F')) {
            assert(!is_hex_char(v@[i as int]));
            return false;
        }
        i += 1;
    }
    true
}

fn checksum_token_vec(t: &[char]) -> (r: Option<Vec<char>>)
    ensures
        match r {
            Some(x) => checksum_token(t@) == Some(x@),
            None => checksum_token(t@) is None,
        },
{
    if t.len() == 64 && is_hex_vec(t) {
        Some(lower_vec(t))
    } else {
        None
    }
}

/// A trimmed 64-digit hexadecimal token, lowercased; `None` otherwise.
pub fn normalize_checksum_token(token: &str) -> (r: Option<String>)
    ensures
        match r {
            Some(x) => checksum_token(trim(token@)) == Some(x@),
            None => checksum_token(trim(token@)) is None,
        },
{
    let v = chars_of(token);
    let t = trim_vec(&v);
    match checksum_token_vec(&t) {
        Some(x) => Some(string_of(&x)),
        None => None,
    }
}

pub open spec fn hex_digit(n: nat) -> char {
    if n < 10 {
        (('0' as u32) + n) as char
    } else {
        (('a' as u32) + n - 10) as char
    }
}

/// Lowercase hexadecimal text of `bytes`, two digits per byte.
pub open spec fn hex_of(bytes: Seq<u8>) -> Seq<char>
    decreases bytes.len(),
{
    if bytes.len() == 0 {
        seq![]
    } else {
        hex_of(bytes.drop_last()) + seq![
            hex_digit((bytes.last() / 16) as nat),
            hex_digit((bytes.last() % 16) as nat),
        ]
    }
}

fn hex_char(n: u8) -> (c: char)
    requires
        n < 16,
    ensures
        c == hex_digit(n as nat),
{
    if n < 10 {
        ((48 + n) as u8) as char
    } else {
        ((97 + n - 10) as u8) as char
    }
}

/// Lowercase hexadecimal encoding of `bytes`.
pub fn hex(bytes: &[u8]) -> (r: String)
    ensures
        r@ == hex_of(bytes@),
{
    let mut out: Vec<char> = Vec::new();
    let mut i: usize = 0;
    while i < bytes.len()
        invariant
            i <= bytes.len(),
            out@ == hex_of(bytes@.take(i as int)),
        decreases bytes.len() - i,
    {
        let b = bytes[i];
        out.push(hex_char(b / 16));
        out.push(hex_char(b % 16));
        proof {
            let t = bytes@.take(i as int + 1);
            assert(t.drop_last() =~= bytes@.take(i as int));
            assert(t.last() == b);
            assert(hex_of(t) =~= hex_of(bytes@.take(i as int)) + seq![
                hex_digit((b / 16) as nat),
                hex_digit((b % 16) as nat),
            ]);
        }
        i += 1;
    }
    assert(bytes@.take(bytes.len() as int) =~= bytes@);
    string_of(&out)
}

/// The smallest plausible size of a model file: half its approximate size.
pub fn min_size_bytes(spec: &ModelSpec) -> (r: u64)
    ensures
        r == spec.approx_mb * 1024 * 1024 / 2,
{
    (spec.approx_mb as u64) * 1024 * 1024 / 2
}

/// Whether the first four bytes are the GGML magic (`GGML_MAGIC` little-endian).
pub fn is_ggml_magic(bytes: &[u8]) -> (r: bool)
    ensures
        r == (bytes@.len() >= 4 && bytes@.take(4) == seq![0x6cu8, 0x6du8, 0x67u8, 0x67u8]),
{
    if bytes.len() < 4 {
        return false;
    }
    let r = bytes[0] == 0x6c && bytes[1] == 0x6d && bytes[2] == 0x67 && bytes[3] == 0x67;
    proof {
        if r {
            assert(bytes@.take(4) =~= seq![0x6cu8, 0x6du8, 0x67u8, 0x67u8]);
        } else if bytes@.take(4) == seq![0x6cu8, 0x6du8, 0x67u8, 0x67u8] {
            assert(bytes@.take(4)[0] == bytes@[0]);
            assert(bytes@.take(4)[1] == bytes@[1]);
            assert(bytes@.take(4)[2] == bytes@[2]);
            assert(bytes@.take(4)[3] == bytes@[3]);
        }
    }
    r
}

// ── Install state ──────────────────────────────────────────────

#[derive(Debug, Clone, Copy, PartialEq, Eq, Structural)]
pub enum InstallStatus {
    Missing,
    Installed,
    Partial,
    Corrupt,
    UnsafePath,
}

#[derive(Debug, Clone)]
pub struct InstallInfo {
    pub status: InstallStatus,
    /// Bytes currently present for the model file or `.part` file.
    pub bytes: u64,
    /// Last-modified timestamp (ms since UNIX epoch) for installed/partial files.
    pub modified_ms: Option<u64>,
    /// Optional detail string for richer diagnostics.
    pub reason: String,
}

pub open spec fn status_label(s: InstallStatus) -> Seq<char> {
    match s {
        InstallStatus::Missing => "missing"@,
        InstallStatus::Installed => "installed"@,
        InstallStatus::Partial => "partial"@,
        InstallStatus::Corrupt => "corrupt"@,
        InstallStatus::UnsafePath => "unsafe_path"@,
    }
}

impl InstallInfo {
    pub fn as_label(&self) -> (r: &'static str)
        ensures
            r@ == status_label(self.status),
    {
        match self.status {
            InstallStatus::Missing => "missing",
            InstallStatus::Installed => "installed",
            InstallStatus::Partial => "partial",
            InstallStatus::Corrupt => "corrupt",
            InstallStatus::UnsafePath => "unsafe_path",
        }
    }

    pub fn is_installed(&self) -> (r: bool)
        ensures
            r == (self.status == InstallStatus::Installed),
    {
        self.status == InstallStatus::Installed
    }
}

/// What validating the model file found.
#[derive(Debug, Clone)]
pub enum ModelFileCheck {
    /// The file is a valid model of this many bytes.
    Valid { bytes: u64 },
    /// The file could not be opened.
    Missing,
    /// The file is present but fails validation with this error.
    Invalid { error: SpielError },
}

/// What inspecting the `.part` file found.
#[derive(Debug, Clone)]
pub enum PartFileCheck {
    /// No `.part` file exists.
    Absent,
    /// The `.part` path is unsafe; the message says why.
    Unsafe { reason: String },
    /// A regular file of this size.
    Regular { bytes: u64, modified_ms: Option<u64> },
    /// Something other than a regular file.
    NotRegular,
    /// Its metadata could not be read; the text of the I/O error.
    Unreadable { reason: String },
}

/// Everything that decides the install state of one model.
#[derive(Debug, Clone)]
pub struct InstallProbe {
    /// The model id is in the registry.
    pub known: bool,
    /// The model path is unsafe (a symlink or unreadable); the message says why.
    pub unsafe_path: Option<String>,
    /// Validation of the model file.
    pub model: ModelFileCheck,
    /// Size of the model file by its metadata, or 0.
    pub model_bytes: u64,
    /// Modification time of the model file, when readable.
    pub model_modified_ms: Option<u64>,
    /// Inspection of the `.part` file.
    pub part: PartFileCheck,
}

pub open spec fn info_is(i: InstallInfo, status: InstallStatus, bytes: u64, modified: Option<u64>, reason: Seq<char>) -> bool {
    i.status == status && i.bytes == bytes && i.modified_ms == modified && i.reason@ == reason
}

/// The install state that `inspect_install` reports for a probe.
pub open spec fn install_info_spec(p: InstallProbe, i: InstallInfo) -> bool {
    if !p.known {
        info_is(i, InstallStatus::Missing, 0, None, "unknown model id"@)
    } else if p.unsafe_path is Some {
        info_is(i, InstallStatus::UnsafePath, 0, None, p.unsafe_path->0@)
    } else {
        match p.model {
            ModelFileCheck::Valid { bytes } => info_is(i, InstallStatus::Installed, bytes, p.model_modified_ms, seq![]),
            ModelFileCheck::Missing => match p.part {
                PartFileCheck::Absent => info_is(i, InstallStatus::Missing, 0, None, seq![]),
                PartFileCheck::Unsafe { reason } => info_is(i, InstallStatus::UnsafePath, 0, None, reason@),
                PartFileCheck::Regular { bytes, modified_ms } => info_is(i, InstallStatus::Partial, bytes, modified_ms, seq![]),
                PartFileCheck::NotRegular => info_is(i, InstallStatus::Missing, 0, None, seq![]),
                PartFileCheck::Unreadable { reason } => info_is(
                    i,
                    InstallStatus::Corrupt,
                    0,
                    None,
                    "partial file is not readable: "@ + reason@,
                ),
            },
            ModelFileCheck::Invalid { error } => info_is(
                i,
                InstallStatus::Corrupt,
                p.model_bytes,
                p.model_modified_ms,
                error_message(error),
            ),
        }
    }
}

/// What each reported install state means about the files: a model is
/// Installed exactly when it is known, its path is safe and its file passed
/// validation (and the size is the file's); it is Partial exactly when only
/// a regular `.part` file is there (and the size is that file's); an unknown
/// model is Missing; an unsafe path is never reported as anything but
/// UnsafePath.
pub proof fn law_install_state_follows_files(p: InstallProbe, i: InstallInfo)
    requires
        install_info_spec(p, i),
    ensures
        (i.status == InstallStatus::Installed) <==> (p.known && p.unsafe_path is None && p.model is Valid),
        i.status == InstallStatus::Installed ==> i.bytes == p.model->Valid_bytes,
        (i.status == InstallStatus::Partial) <==> (p.known && p.unsafe_path is None && p.model is Missing
            && p.part is Regular),
        i.status == InstallStatus::Partial ==> i.bytes == p.part->Regular_bytes,
        !p.known ==> i.status == InstallStatus::Missing,
        p.known && p.unsafe_path is Some ==> i.status == InstallStatus::UnsafePath,
        p.known && p.unsafe_path is None && p.model is Invalid ==> i.status == InstallStatus::Corrupt,
{
}

fn info(status: InstallStatus, bytes: u64, modified_ms: Option<u64>, reason: String) -> (r: InstallInfo)
    ensures
        info_is(r, status, bytes, modified_ms, reason@),
{
    InstallInfo { status, bytes, modified_ms, reason }
}

/// The install state of a model from what was found on disk.
pub fn install_info_from(probe: &InstallProbe) -> (r: InstallInfo)
    ensures
        install_info_spec(*probe, r),
        (r.status == InstallStatus::Installed) <==> (probe.known && probe.unsafe_path is None
            && probe.model is Valid),
        (r.status == InstallStatus::Partial) <==> (probe.known && probe.unsafe_path is None
            && probe.model is Missing && probe.part is Regular),
{
    if !probe.known {
        return info(InstallStatus::Missing, 0, None, String::from_str("unknown model id"));
    }
    if let Some(reason) = &probe.unsafe_path {
        return info(InstallStatus::UnsafePath, 0, None, String::from_str(reason.as_str()));
    }
    match &probe.model {
        ModelFileCheck::Valid { bytes } => info(InstallStatus::Installed, *bytes, probe.model_modified_ms, String::new()),
        ModelFileCheck::Missing => match &probe.part {
            PartFileCheck::Absent => info(InstallStatus::Missing, 0, None, String::new()),
            PartFileCheck::Unsafe { reason } => info(InstallStatus::UnsafePath, 0, None, String::from_str(reason.as_str())),
            PartFileCheck::Regular { bytes, modified_ms } => info(InstallStatus::Partial, *bytes, *modified_ms, String::new()),
            PartFileCheck::NotRegular => info(InstallStatus::Missing, 0, None, String::new()),
            PartFileCheck::Unreadable { reason } => info(
                InstallStatus::Corrupt,
                0,
                None,
                String::from_str("partial file is not readable: ").concat(reason.as_str()),
            ),
        },
        ModelFileCheck::Invalid { error } => info(
            InstallStatus::Corrupt,
            probe.model_bytes,
            probe.model_modified_ms,
            error.message(),
        ),
    }
}

// ── Model store maintenance ────────────────────────────────────

#[derive(Debug, Clone, Copy)]
pub struct CleanupReport {
    pub removed_partial_files: usize,
    pub removed_sidecar_files: usize,
}

impl Default for CleanupReport {
    fn default() -> (r: Self)
        ensures
            r.removed_partial_files == 0,
            r.removed_sidecar_files == 0,
    {
        CleanupReport { removed_partial_files: 0, removed_sidecar_files: 0 }
    }
}

impl CleanupReport {
    /// Counts one removed file: a `.part` file or a checksum sidecar.
    pub fn record_removed(&mut self, is_part: bool)
        ensures
            is_part ==> final(self).removed_sidecar_files == old(self).removed_sidecar_files,
            !is_part ==> final(self).removed_partial_files == old(self).removed_partial_files,
            !is_part ==> (old(self).removed_sidecar_files < usize::MAX ==> final(self).removed_sidecar_files == old(self).removed_sidecar_files + 1),
            !is_part ==> (old(self).removed_sidecar_files == usize::MAX ==> final(self).removed_sidecar_files == usize::MAX),
            is_part ==> (old(self).removed_partial_files < usize::MAX ==> final(self).removed_partial_files == old(self).removed_partial_files + 1),
            is_part ==> (old(self).removed_partial_files == usize::MAX ==> final(self).removed_partial_files == usize::MAX),
    {
        if is_part {
            if self.removed_partial_files < usize::MAX {
                self.removed_partial_files = self.removed_partial_files + 1;
            }
        } else {
            if self.removed_sidecar_files < usize::MAX {
                self.removed_sidecar_files = self.removed_sidecar_files + 1;
            }
        }
    }
}

#[derive(Debug, Clone)]
pub struct DownloadSummary {
    pub downloaded_bytes: u64,
    pub expected_bytes: Option<u64>,
    pub checksum_source: String,
}

/// The file name of the `.part` file of a model file name.
pub fn part_file_name(filename: &str) -> (r: String)
    ensures
        r@ == filename@ + ".part"@,
{
    String::from_str(filename).concat(".part")
}

/// The file name of the checksum sidecar of a model file name.
pub fn sidecar_file_name(filename: &str) -> (r: String)
    ensures
        r@ == filename@ + ".sha256"@,
{
    String::from_str(filename).concat(".sha256")
}

/// The model file name that a checksum sidecar belongs to.
pub fn sidecar_target_name(sidecar_name: &str) -> (r: Option<String>)
    ensures
        match r {
            Some(t) => ends_with(sidecar_name@, ".sha256"@) && t@ + ".sha256"@ == sidecar_name@,
            None => !ends_with(sidecar_name@, ".sha256"@),
        },
{
    let v = chars_of(sidecar_name);
    let suffix = chars_of(".sha256");
    if crate::text::ends_with_chars(&v, &suffix) {
        let t = subvec(&v, 0, v.len() - suffix.len());
        assert(t@ + suffix@ =~= v@);
        Some(string_of(&t))
    } else {
        None
    }
}

/// Whether a directory entry is a `.part` file and whether it is a sidecar.
pub fn artifact_kind(name: &str) -> (r: (bool, bool))
    ensures
        r.0 == ends_with(name@, ".part"@),
        r.1 == ends_with(name@, ".sha256"@),
{
    let v = chars_of(name);
    let part = chars_of(".part");
    let side = chars_of(".sha256");
    (crate::text::ends_with_chars(&v, &part), crate::text::ends_with_chars(&v, &side))
}

/// Whether maintenance removes an artifact: never one that is a symlink or
/// not a regular file (`is_plain_file` false); otherwise always when the
/// expiry is zero, else when it is older than the expiry or is a sidecar
/// whose model file is gone (`target_exists` is `None` when no target name
/// exists).
pub fn should_remove_artifact(
    is_plain_file: bool,
    expiry_is_zero: bool,
    is_sidecar: bool,
    is_stale: Option<bool>,
    target_exists: Option<bool>,
) -> (r: bool)
    ensures
        r == (is_plain_file && (expiry_is_zero || is_stale == Some(true) || (is_sidecar
            && target_exists != Some(true)))),
{
    if !is_plain_file {
        return false;
    }
    if expiry_is_zero {
        return true;
    }
    let stale = match is_stale {
        Some(b) => b,
        None => false,
    };
    let orphan = is_sidecar && match target_exists {
        Some(exists) => !exists,
        None => true,
    };
    stale || orphan
}

/// Where the checksum used for a download came from.
pub fn checksum_source_label(pinned: &str, has_expected: bool, manifest_configured: bool) -> (r: &'static str)
    ensures
        r@ == if pinned@.len() > 0 {
            "registry"@
        } else if has_expected {
            if manifest_configured { "manifest"@ } else { "remote_sidecar"@ }
        } else {
            "none"@
        },
{
    if !pinned.is_empty() {
        "registry"
    } else if has_expected {
        if manifest_configured { "manifest" } else { "remote_sidecar" }
    } else {
        "none"
    }
}

/// Whether the local checksum must come from the sidecar file: no override
/// and no pinned checksum.
pub fn needs_sidecar(override_checksum: Option<&str>, pinned: &str) -> (r: bool)
    ensures
        r == (override_checksum is None && pinned@.len() == 0),
{
    override_checksum.is_none() && pinned.is_empty()
}

/// What reading the checksum sidecar found.
#[derive(Debug, Clone)]
pub enum SidecarRead {
    Absent,
    Unreadable,
    Text(String),
}

/// The checksum expected of a local model file, if any.
pub open spec fn expected_checksum_spec(
    override_checksum: Option<Seq<char>>,
    pinned: Seq<char>,
    sidecar: SidecarRead,
    sidecar_display: Seq<char>,
    r: Result<Option<String>, SpielError>,
) -> bool {
    if override_checksum is Some {
        r matches Ok(Some(x)) && x@ == unicode_lowercase(override_checksum->0)
    } else if pinned.len() > 0 {
        r matches Ok(Some(x)) && x@ == unicode_lowercase(pinned)
    } else {
        match sidecar {
            SidecarRead::Absent => r matches Ok(None),
            SidecarRead::Unreadable => r matches Err(SpielError::Model(m)) && m@
                == "cannot read checksum sidecar: "@ + sidecar_display,
            SidecarRead::Text(t) => if words(t@).len() == 0 {
                r matches Err(SpielError::Model(m)) && m@ == "checksum sidecar is empty: "@ + sidecar_display
            } else if checksum_token(words(t@)[0]) is None {
                r matches Err(SpielError::Model(m)) && m@ == "invalid checksum sidecar format: "@ + sidecar_display
            } else {
                r matches Ok(Some(x)) && x@ == checksum_token(words(t@)[0])->0
            },
        }
    }
}

/// What `str::to_lowercase` gives for `s` (full Unicode lowercasing).
pub uninterp spec fn unicode_lowercase(s: Seq<char>) -> Seq<char>;

/// `str::to_lowercase`.
#[verifier::external_body]
fn lower_string(s: &str) -> (r: String)
    ensures
        r@ == unicode_lowercase(s@),
{
    s.to_lowercase()
}

/// The checksum to hold a local model file to: the override, else the
/// pinned registry checksum, else the one in the sidecar file.
pub fn expected_checksum(
    override_checksum: Option<&str>,
    pinned: &str,
    sidecar: &SidecarRead,
    sidecar_display: &str,
) -> (r: Result<Option<String>, SpielError>)
    ensures
        expected_checksum_spec(
            match override_checksum { Some(s) => Some(s@), None => None },
            pinned@,
            *sidecar,
            sidecar_display@,
            r,
        ),
{
    if let Some(c) = override_checksum {
        return Ok(Some(lower_string(c)));
    }
    if !pinned.is_empty() {
        return Ok(Some(lower_string(pinned)));
    }
    match sidecar {
        SidecarRead::Absent => Ok(None),
        SidecarRead::Unreadable => Err(SpielError::Model(String::from_str("cannot read checksum sidecar: ").concat(sidecar_display))),
        SidecarRead::Text(t) => {
            let v = chars_of(t.as_str());
            match crate::text::first_word(&v) {
                None => Err(SpielError::Model(String::from_str("checksum sidecar is empty: ").concat(sidecar_display))),
                Some(token) => match checksum_token_vec(&token) {
                    None => Err(SpielError::Model(String::from_str("invalid checksum sidecar format: ").concat(sidecar_display))),
                    Some(x) => Ok(Some(string_of(&x))),
                },
            }
        },
    }
}

/// A model whose digest is `got` must match the expected checksum, ignoring ASCII case.
pub fn check_checksum(expected: &str, got: &str, path_display: &str) -> (r: Result<(), SpielError>)
    ensures
        ascii_lower(expected@) == ascii_lower(got@) ==> r is Ok,
        ascii_lower(expected@) != ascii_lower(got@) ==> (r matches Err(SpielError::Model(m)) && m@
            == path_display@ + " checksum mismatch: expected "@ + expected@ + " but got "@ + got@),
{
    let a = chars_of(expected);
    let b = chars_of(got);
    let la = lower_vec(&a);
    let lb = lower_vec(&b);
    if chars_eq(&la, &lb) {
        Ok(())
    } else {
        Err(SpielError::Model(String::from_str(path_display).concat(" checksum mismatch: expected ").concat(expected).concat(" but got ").concat(got)))
    }
}

/// Why a model file with these first bytes and this length fails the
/// structural checks, if it does.
pub open spec fn header_error(header: Seq<u8>, len: u64, spec: ModelSpec, path_display: Seq<char>) -> Option<Seq<char>> {
    if header.len() < 4 {
        Some("model file is truncated"@)
    } else if header.take(4) != seq![0x6cu8, 0x6du8, 0x67u8, 0x67u8] {
        Some(path_display + " is not a valid GGML whisper model"@)
    } else if len < spec.approx_mb * 1024 * 1024 / 2 {
        Some(path_display + " is smaller than expected ("@ + dec_string(len as nat) + " < "@
            + dec_string((spec.approx_mb * 1024 * 1024 / 2) as nat) + ")"@)
    } else {
        None
    }
}

/// The structural checks of a model file: it starts with the GGML magic and
/// is at least `min_size_bytes` long. `header` holds the bytes read from the
/// start of the file (fewer than four when the file is shorter).
pub fn check_model_header(header: &[u8], len: u64, spec: &ModelSpec, path_display: &str) -> (r: Result<(), SpielError>)
    ensures
        match header_error(header@, len, *spec, path_display@) {
            Some(m) => r matches Err(SpielError::Model(e)) && e@ == m,
            None => r is Ok,
        },
{
    if header.len() < 4 {
        return Err(SpielError::Model(String::from_str("model file is truncated")));
    }
    if !is_ggml_magic(header) {
        return Err(SpielError::Model(String::from_str(path_display).concat(" is not a valid GGML whisper model")));
    }
    let min = min_size_bytes(spec);
    if len < min {
        let tail = num_message(" is smaller than expected (", len, " < ", min, ")");
        return Err(SpielError::Model(String::from_str(path_display).concat(tail.as_str())));
    }
    Ok(())
}

/// What parsing a checksum manifest (a JSON object of file name to checksum)
/// gives for one file name: the error text, or the entry if present.
pub uninterp spec fn manifest_entry(body: Seq<char>, key: Seq<char>) -> Result<Option<Seq<char>>, Seq<char>>;

/// `serde_json::from_str::<HashMap<String, String>>(body)` and a lookup of
/// `key`. The outcome is named by `manifest_entry`: the entry on success,
/// the error's text on a parse failure.
#[verifier::external_body]
fn manifest_lookup(body: &str, key: &str) -> (r: Result<Option<String>, String>)
    ensures
        match r {
            Ok(Some(v)) => manifest_entry(body@, key@) == Ok::<Option<Seq<char>>, Seq<char>>(Some(v@)),
            Ok(None) => manifest_entry(body@, key@) == Ok::<Option<Seq<char>>, Seq<char>>(None),
            Err(e) => manifest_entry(body@, key@) == Err::<Option<Seq<char>>, Seq<char>>(e@),
        },
{
    match serde_json::from_str::<std::collections::HashMap<String, String>>(body) {
        Ok(map) => Ok(map.get(key).cloned()),
        Err(e) => Err(e.to_string()),
    }
}

/// The checksum that a fetched manifest gives for `filename`.
pub fn checksum_from_manifest(body: &str, filename: &str) -> (r: Result<Option<String>, SpielError>)
    ensures
        match manifest_entry(body@, filename@) {
            Err(e) => r matches Err(SpielError::Download(m)) && m@ == "invalid model manifest JSON: "@ + e,
            Ok(None) => r matches Ok(None),
            Ok(Some(raw)) => match checksum_token(trim(raw)) {
                Some(c) => r matches Ok(Some(x)) && x@ == c,
                None => r matches Err(SpielError::Download(m)) && m@ == "model manifest contains invalid checksum"@,
            },
        },
{
    match manifest_lookup(body, filename) {
        Err(e) => Err(SpielError::Download(String::from_str("invalid model manifest JSON: ").concat(e.as_str()))),
        Ok(None) => Ok(None),
        Ok(Some(raw)) => match normalize_checksum_token(raw.as_str()) {
            Some(c) => Ok(Some(c)),
            None => Err(SpielError::Download(String::from_str("model manifest contains invalid checksum"))),
        },
    }
}

/// The checksum that a fetched `.sha256` sidecar body gives: its first word.
pub fn checksum_from_remote_sidecar(body: &str) -> (r: Result<Option<String>, SpielError>)
    ensures
        words(body@).len() == 0 ==> r matches Ok(None),
        words(body@).len() > 0 ==> match checksum_token(trim(words(body@)[0])) {
            Some(c) => r matches Ok(Some(x)) && x@ == c,
            None => r matches Err(SpielError::Download(m)) && m@ == "remote checksum sidecar is invalid"@,
        },
{
    let v = chars_of(body);
    match crate::text::first_word(&v) {
        None => Ok(None),
        Some(token) => {
            let t = string_of(&token);
            match normalize_checksum_token(t.as_str()) {
                Some(c) => Ok(Some(c)),
                None => Err(SpielError::Download(String::from_str("remote checksum sidecar is invalid"))),
            }
        },
    }
}

/// Whether a manifest URL is configured: the setting is there and not blank.
pub fn manifest_configured(raw: Option<&str>) -> (r: bool)
    ensures
        r == (raw matches Some(u) && trim(u@).len() > 0),
{
    match raw {
        Some(u) => !crate::text::str_is_blank(u),
        None => false,
    }
}

/// How a fetch of a URL went.
#[derive(Debug, Clone)]
pub enum HttpReply {
    /// The request could not be sent; the error text.
    SendFailed { error: String },
    /// The server answered with a status that is not a success; the status text.
    Status { status: String },
    /// The body could not be read; the error text.
    ReadFailed { error: String },
    /// The body of a successful answer.
    Body { text: String },
}

/// What finding the checksum of a download does next.
#[derive(Debug)]
pub enum ChecksumNext {
    /// Fetch the checksum manifest at this URL.
    FetchManifest { url: String },
    /// Fetch the `.sha256` file next to the model at this URL.
    FetchSidecar { url: String },
    /// The checksum is found (or there is none), or finding it failed.
    Done { result: Result<Option<String>, SpielError> },
}

/// The URL of the `.sha256` file next to the model at `model_url`.
pub open spec fn sidecar_url(model_url: Seq<char>) -> Seq<char> {
    model_url + ".sha256"@
}

/// The first step: a pinned checksum is used as it is (lowercased); else the
/// manifest is fetched when one is configured; else the sidecar.
pub fn checksum_start(pinned: &str, manifest_url: Option<&str>, model_url: &str) -> (r: ChecksumNext)
    ensures
        pinned@.len() > 0 ==> (r matches ChecksumNext::Done { result: Ok(Some(c)) } && c@
            == unicode_lowercase(pinned@)),
        pinned@.len() == 0 && (manifest_url matches Some(u) && trim(u@).len() > 0) ==> (r matches ChecksumNext::FetchManifest {
            url,
        } && url@ == trim(manifest_url->0@)),
        pinned@.len() == 0 && !(manifest_url matches Some(u) && trim(u@).len() > 0) ==> (r matches ChecksumNext::FetchSidecar {
            url,
        } && url@ == sidecar_url(model_url@)),
{
    if !pinned.is_empty() {
        return ChecksumNext::Done { result: Ok(Some(lower_string(pinned))) };
    }
    match manifest_url {
        Some(u) => {
            if !crate::text::str_is_blank(u) {
                return ChecksumNext::FetchManifest { url: crate::text::trim_string(u) };
            }
        },
        None => {},
    }
    ChecksumNext::FetchSidecar { url: String::from_str(model_url).concat(".sha256") }
}

/// After the manifest fetch: a failed fetch, a status that is not a success
/// or an unreadable body fails; else the manifest's entry for `filename` is
/// the checksum, and without one the sidecar is fetched.
pub fn checksum_after_manifest(reply: HttpReply, filename: &str, model_url: &str) -> (r: ChecksumNext)
    ensures
        match reply {
            HttpReply::SendFailed { error } => r matches ChecksumNext::Done {
                result: Err(SpielError::Download(m)),
            } && m@ == "could not fetch model manifest: "@ + error@,
            HttpReply::Status { status } => r matches ChecksumNext::Done {
                result: Err(SpielError::Download(m)),
            } && m@ == "model manifest returned "@ + status@,
            HttpReply::ReadFailed { error } => r matches ChecksumNext::Done {
                result: Err(SpielError::Download(m)),
            } && m@ == "could not read model manifest: "@ + error@,
            HttpReply::Body { text } => match manifest_entry(text@, filename@) {
                Err(e) => r matches ChecksumNext::Done { result: Err(SpielError::Download(m)) } && m@
                    == "invalid model manifest JSON: "@ + e,
                Ok(None) => r matches ChecksumNext::FetchSidecar { url } && url@ == sidecar_url(
                    model_url@,
                ),
                Ok(Some(raw)) => match checksum_token(trim(raw)) {
                    Some(c) => r matches ChecksumNext::Done { result: Ok(Some(x)) } && x@ == c,
                    None => r matches ChecksumNext::Done { result: Err(SpielError::Download(m)) }
                        && m@ == "model manifest contains invalid checksum"@,
                },
            },
        },
{
    match reply {
        HttpReply::SendFailed { error } => ChecksumNext::Done {
            result: Err(SpielError::Download(String::from_str("could not fetch model manifest: ").concat(error.as_str()))),
        },
        HttpReply::Status { status } => ChecksumNext::Done {
            result: Err(SpielError::Download(String::from_str("model manifest returned ").concat(status.as_str()))),
        },
        HttpReply::ReadFailed { error } => ChecksumNext::Done {
            result: Err(SpielError::Download(String::from_str("could not read model manifest: ").concat(error.as_str()))),
        },
        HttpReply::Body { text } => match checksum_from_manifest(text.as_str(), filename) {
            Ok(None) => ChecksumNext::FetchSidecar { url: String::from_str(model_url).concat(".sha256") },
            result => ChecksumNext::Done { result },
        },
    }
}

/// After the sidecar fetch: a failed fetch or a status that is not a success
/// means there is no checksum; an unreadable body fails; else its first word
/// is the checksum.
pub fn checksum_after_sidecar(reply: HttpReply) -> (r: Result<Option<String>, SpielError>)
    ensures
        match reply {
            HttpReply::SendFailed { .. } | HttpReply::Status { .. } => r matches Ok(None),
            HttpReply::ReadFailed { error } => r matches Err(SpielError::Download(m)) && m@
                == "could not read checksum sidecar: "@ + error@,
            HttpReply::Body { text } => if words(text@).len() == 0 {
                r matches Ok(None)
            } else {
                match checksum_token(trim(words(text@)[0])) {
                    Some(c) => r matches Ok(Some(x)) && x@ == c,
                    None => r matches Err(SpielError::Download(m)) && m@ == "remote checksum sidecar is invalid"@,
                }
            },
        },
{
    match reply {
        HttpReply::SendFailed { .. } | HttpReply::Status { .. } => Ok(None),
        HttpReply::ReadFailed { error } => Err(
            SpielError::Download(String::from_str("could not read checksum sidecar: ").concat(error.as_str())),
        ),
        HttpReply::Body { text } => checksum_from_remote_sidecar(text.as_str()),
    }
}

} // verus!

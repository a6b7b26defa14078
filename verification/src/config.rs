//! User settings of the dictation app and the rules that normalize them.
use vstd::prelude::*;
use crate::error::SpielError;
use crate::model::{
    ModelSpec, language_supported, lookup_model, normalized_language, is_language_supported,
    normalize_language_hint,
};
use crate::text::{trim, trim_string};

verus! {

/// The local preferences of the dictation app.
#[derive(Debug, Clone)]
pub struct Config {
    /// Global toggle hotkey, in global-shortcut syntax.
    pub hotkey: String,
    /// Model id from the registry, e.g. "base.en".
    pub model: String,
    /// Spoken language hint. "auto" lets Whisper detect; a code like "en" is faster.
    pub language: String,
    /// After transcribing, synthesize Cmd+V so text lands at the cursor.
    pub auto_paste: bool,
    /// Restore whatever was on the clipboard before insertion (best-effort).
    pub restore_clipboard: bool,
    /// Keep the Whisper model loaded in RAM between dictations.
    pub keep_model_loaded: bool,
    /// Transcription thread count.
    pub transcription_threads: u8,
    /// Hard cap on a single recording, in seconds.
    pub max_seconds: u32,
}

/// The default configuration.
pub open spec fn is_default_config(c: Config) -> bool {
    &&& c.hotkey@ == "Cmd+Alt+D"@
    &&& c.model@ == "tiny.en"@
    &&& c.language@ == "en"@
    &&& c.auto_paste
    &&& c.restore_clipboard
    &&& !c.keep_model_loaded
    &&& c.transcription_threads == 2
    &&& c.max_seconds == 120
}

impl Default for Config {
    fn default() -> (r: Self)
        ensures
            is_default_config(r),
    {
        Config {
            hotkey: String::from_str("Cmd+Alt+D"),
            model: String::from_str("tiny.en"),
            language: String::from_str("en"),
            auto_paste: true,
            restore_clipboard: true,
            keep_model_loaded: false,
            transcription_threads: 2,
            max_seconds: 120,
        }
    }
}

/// The model id that validation keeps: the trimmed id when the registry
/// knows it, else the default "tiny.en".
pub open spec fn validated_model(m: Seq<char>) -> Seq<char> {
    let t = trim(m);
    if t.len() > 0 && lookup_model(t) is Some {
        t
    } else {
        "tiny.en"@
    }
}

/// The language that validation keeps: the normalized hint when the model
/// supports it, else "en".
pub open spec fn validated_language(model: Seq<char>, language: Seq<char>) -> Seq<char> {
    let l = normalized_language(language);
    if language_supported(lookup_model(validated_model(model))->0, l) {
        l
    } else {
        "en"@
    }
}

pub open spec fn clamp_int(v: int, lo: int, hi: int) -> int {
    if v < lo {
        lo
    } else if v > hi {
        hi
    } else {
        v
    }
}

/// What `Config::validated` returns for `c`.
pub open spec fn validated_spec(c: Config, r: Result<Config, SpielError>) -> bool {
    if trim(c.hotkey@).len() == 0 {
        r matches Err(SpielError::Config(m)) && m@ == "Hotkey cannot be empty."@
    } else {
        r matches Ok(v) && {
            &&& v.hotkey@ == trim(c.hotkey@)
            &&& v.model@ == validated_model(c.model@)
            &&& v.language@ == validated_language(c.model@, c.language@)
            &&& v.auto_paste == c.auto_paste
            &&& v.restore_clipboard == c.restore_clipboard
            &&& v.keep_model_loaded == c.keep_model_loaded
            &&& v.transcription_threads == clamp_int(c.transcription_threads as int, 1, 8)
            &&& v.max_seconds == clamp_int(c.max_seconds as int, 5, 600)
        }
    }
}

/// A model id that the registry knows.
pub open spec fn known_model(m: Seq<char>) -> bool {
    lookup_model(m) is Some
}

pub proof fn lemma_default_model_known()
    ensures
        known_model("tiny.en"@),
        lookup_model("tiny.en"@) == Some(crate::model::registry_spec()[0]),
{
    reveal_strlit("tiny.en");
    assert(crate::model::registry_spec()[0].id@ == "tiny.en"@);
}

pub proof fn lemma_validated_model_idempotent(m: Seq<char>)
    ensures
        validated_model(validated_model(m)) == validated_model(m),
        known_model(validated_model(m)),
{
    lemma_default_model_known();
    reveal_strlit("tiny.en");
    crate::text::lemma_trim_idempotent(m);
    let d = "tiny.en"@;
    assert(d[0] == 't' && d.last() == 'n');
    crate::text::lemma_trim_fixed(d);
}

/// Validation keeps the user's yes/no preferences as they were: auto-paste,
/// clipboard restore and keeping the model loaded are never rewritten; only
/// the hotkey, model, language and the two limits are normalized, and limits
/// already in range are kept.
pub proof fn law_validated_keeps_preferences(c: Config, r: Result<Config, SpielError>)
    requires
        validated_spec(c, r),
    ensures
        r is Err <==> trim(c.hotkey@).len() == 0,
        r matches Ok(v) ==> v.auto_paste == c.auto_paste && v.restore_clipboard
            == c.restore_clipboard && v.keep_model_loaded == c.keep_model_loaded,
        r matches Ok(v) ==> (1 <= c.transcription_threads <= 8 ==> v.transcription_threads
            == c.transcription_threads),
        r matches Ok(v) ==> (5 <= c.max_seconds <= 600 ==> v.max_seconds == c.max_seconds),
{
}

/// Validating a validated config changes nothing: the hotkey stays non-blank
/// and trimmed, the model is known, its language is kept, and the counts are
/// within their bounds. So validating `v` again gives `v`, and a saved config
/// loads back as it was.
pub proof fn law_validated_is_stable(c: Config, v: Config)
    requires
        validated_spec(c, Ok(v)),
    ensures
        trim(v.hotkey@).len() > 0,
        trim(v.hotkey@) == v.hotkey@,
        validated_model(v.model@) == v.model@,
        validated_language(v.model@, v.language@) == v.language@,
        clamp_int(v.transcription_threads as int, 1, 8) == v.transcription_threads,
        clamp_int(v.max_seconds as int, 5, 600) == v.max_seconds,
        known_model(v.model@),
        language_supported(lookup_model(v.model@)->0, v.language@),
        1 <= v.transcription_threads <= 8,
        5 <= v.max_seconds <= 600,
        validated_spec(v, Ok(v)),
{
    reveal_strlit("en");
    crate::text::lemma_trim_idempotent(c.hotkey@);
    lemma_validated_model_idempotent(c.model@);
    crate::model::lemma_normalized_idempotent(c.language@);
    let en = "en"@;
    crate::text::lemma_lower_word_fixed(en);
    reveal_strlit("auto");
    assert(en.len() == 2 && en[0] == 'e' && en[1] == 'n');
    crate::model::lemma_tag_sep_index(en, 2);
    assert(en.take(2) =~= en);
    assert(en != "auto"@);
    assert(normalized_language(en) == en);
}

impl Config {
    /// Validate and normalize. Returns a corrected copy or an error for hard-invalid input.
    pub fn validated(self) -> (r: Result<Self, SpielError>)
        ensures
            validated_spec(self, r),
            r is Err <==> trim(self.hotkey@).len() == 0,
            r matches Ok(v) ==> v.auto_paste == self.auto_paste && v.restore_clipboard
                == self.restore_clipboard && v.keep_model_loaded == self.keep_model_loaded,
            r matches Ok(v) ==> v.hotkey@ == trim(self.hotkey@) && known_model(v.model@) && 1
                <= v.transcription_threads <= 8 && 5 <= v.max_seconds <= 600,
            r matches Ok(v) ==> (1 <= self.transcription_threads <= 8 ==> v.transcription_threads
                == self.transcription_threads),
            r matches Ok(v) ==> (5 <= self.max_seconds <= 600 ==> v.max_seconds == self.max_seconds),
    {
        if crate::text::str_is_blank(self.hotkey.as_str()) {
            return Err(SpielError::Config(String::from_str("Hotkey cannot be empty.")));
        }
        let hotkey = trim_string(self.hotkey.as_str());
        let model_t = trim_string(self.model.as_str());
        proof {
            lemma_default_model_known();
        }
        let model = if model_t.as_str().is_empty() {
            String::from_str("tiny.en")
        } else if crate::model::spec(model_t.as_str()).is_some() {
            model_t
        } else {
            String::from_str("tiny.en")
        };
        let language = normalize_language_hint(self.language.as_str());
        let model_spec: ModelSpec = match crate::model::spec(model.as_str()) {
            Some(m) => m,
            None => {
                assert(false);
                crate::model::registry()[0]
            },
        };
        let language = if !is_language_supported(&model_spec, language.as_str()) {
            String::from_str("en")
        } else {
            language
        };
        let max_seconds = if self.max_seconds < 5 {
            5
        } else if self.max_seconds > 600 {
            600
        } else {
            self.max_seconds
        };
        let threads = if self.transcription_threads < 1 {
            1
        } else if self.transcription_threads > 8 {
            8
        } else {
            self.transcription_threads
        };
        Ok(
            Config {
                hotkey,
                model,
                language,
                auto_paste: self.auto_paste,
                restore_clipboard: self.restore_clipboard,
                keep_model_loaded: self.keep_model_loaded,
                transcription_threads: threads,
                max_seconds,
            },
        )
    }
}

/// Where the app keeps its files.
#[derive(Debug, Clone)]
pub struct Paths {
    pub config_file: String,
    pub model_dir: String,
}

/// What `Path::join` gives for `base` and `name`, as text.
pub uninterp spec fn path_joined(base: Seq<char>, name: Seq<char>) -> Seq<char>;

/// `Path::new(base).join(name)`, as a string. Both are strings, so the joined
/// path is one too.
#[verifier::external_body]
fn join_path(base: &str, name: &str) -> (r: String)
    ensures
        r@ == path_joined(base@, name@),
{
    std::path::Path::new(base).join(name).to_string_lossy().into_owned()
}

impl Paths {
    /// The path of model file `filename` in the model directory.
    pub fn model_path(&self, filename: &str) -> (r: String)
        ensures
            r@ == path_joined(self.model_dir@, filename@),
    {
        join_path(self.model_dir.as_str(), filename)
    }
}

} // verus!

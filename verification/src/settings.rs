//! Persistent user settings: their defaults, the validation of an update,
//! and the privacy status they imply.
use vstd::prelude::*;
use crate::text::{trim, str_eq, str_is_blank};

verus! {

#[derive(Debug, Clone)]
pub struct SpielSettings {
    pub hotkey: String,
    pub history_enabled: bool,
    pub clipboard_restore_enabled: bool,
    pub default_transcription_engine: String,
    pub default_text_mode: String,
    pub default_cleanup_provider: String,
    pub local_whisper_binary_path: String,
    pub local_whisper_model_path: String,
    pub local_only_mode: bool,
    pub debug_logging_enabled: bool,
    pub auto_transcribe_after_recording: bool,
    pub auto_cleanup_after_transcription: bool,
    pub auto_save_history_after_cleanup: bool,
    pub auto_insert_after_cleanup: bool,
    /// Whether cloud providers (OpenAI) are allowed
    pub cloud_providers_enabled: bool,
    /// OpenAI transcription model (default: whisper-1)
    pub openai_transcription_model: String,
    /// OpenAI cleanup model (default: gpt-4o-mini)
    pub openai_cleanup_model: String,
    pub created_at: String,
    pub updated_at: String,
}

pub open spec fn is_default_settings(s: SpielSettings) -> bool {
    &&& s.hotkey@ == "Ctrl+Shift+Space"@
    &&& s.history_enabled
    &&& s.clipboard_restore_enabled
    &&& s.default_transcription_engine@ == "mock"@
    &&& s.default_text_mode@ == "raw_dictation"@
    &&& s.default_cleanup_provider@ == "basic"@
    &&& s.local_whisper_binary_path@.len() == 0
    &&& s.local_whisper_model_path@.len() == 0
    &&& s.local_only_mode
    &&& !s.debug_logging_enabled
    &&& !s.auto_transcribe_after_recording
    &&& !s.auto_cleanup_after_transcription
    &&& !s.auto_save_history_after_cleanup
    &&& !s.auto_insert_after_cleanup
    &&& !s.cloud_providers_enabled
    &&& s.openai_transcription_model@ == "whisper-1"@
    &&& s.openai_cleanup_model@ == "gpt-4o-mini"@
    &&& s.created_at@.len() == 0
    &&& s.updated_at@.len() == 0
}

impl Default for SpielSettings {
    fn default() -> (r: Self)
        ensures
            is_default_settings(r),
    {
        SpielSettings {
            hotkey: String::from_str("Ctrl+Shift+Space"),
            history_enabled: true,
            clipboard_restore_enabled: true,
            default_transcription_engine: String::from_str("mock"),
            default_text_mode: String::from_str("raw_dictation"),
            default_cleanup_provider: String::from_str("basic"),
            local_whisper_binary_path: String::new(),
            local_whisper_model_path: String::new(),
            local_only_mode: true,
            debug_logging_enabled: false,
            auto_transcribe_after_recording: false,
            auto_cleanup_after_transcription: false,
            auto_save_history_after_cleanup: false,
            auto_insert_after_cleanup: false,
            cloud_providers_enabled: false,
            openai_transcription_model: String::from_str("whisper-1"),
            openai_cleanup_model: String::from_str("gpt-4o-mini"),
            created_at: String::new(),
            updated_at: String::new(),
        }
    }
}

#[derive(Debug, Clone)]
pub struct UpdateSettingsRequest {
    pub hotkey: Option<String>,
    pub history_enabled: Option<bool>,
    pub clipboard_restore_enabled: Option<bool>,
    pub default_transcription_engine: Option<String>,
    pub default_text_mode: Option<String>,
    pub default_cleanup_provider: Option<String>,
    pub local_whisper_binary_path: Option<String>,
    pub local_whisper_model_path: Option<String>,
    pub local_only_mode: Option<bool>,
    pub debug_logging_enabled: Option<bool>,
    pub auto_transcribe_after_recording: Option<bool>,
    pub auto_cleanup_after_transcription: Option<bool>,
    pub auto_save_history_after_cleanup: Option<bool>,
    pub auto_insert_after_cleanup: Option<bool>,
    pub cloud_providers_enabled: Option<bool>,
    pub openai_transcription_model: Option<String>,
    pub openai_cleanup_model: Option<String>,
}

#[derive(Debug, Clone, Copy)]
pub struct PrivacyStatus {
    pub local_only_mode: bool,
    pub history_enabled: bool,
    pub clipboard_restore_enabled: bool,
    pub debug_logging_enabled: bool,
    pub cloud_available: bool,
    pub openai_available: bool,
    pub local_llm_available: bool,
    pub history_encrypted: bool,
    pub clipboard_contents_stored: bool,
    pub api_keys_stored: bool,
    pub network_calls_possible: bool,
}

impl PrivacyStatus {
    /// The privacy status that the settings imply: cloud and network use are
    /// possible only when cloud providers are on and local-only mode is off.
    pub fn from_settings(settings: &SpielSettings) -> (r: Self)
        ensures
            r.local_only_mode == settings.local_only_mode,
            r.history_enabled == settings.history_enabled,
            r.clipboard_restore_enabled == settings.clipboard_restore_enabled,
            r.debug_logging_enabled == settings.debug_logging_enabled,
            r.cloud_available == (settings.cloud_providers_enabled && !settings.local_only_mode),
            r.openai_available == (settings.cloud_providers_enabled && !settings.local_only_mode),
            r.network_calls_possible == (settings.cloud_providers_enabled && !settings.local_only_mode),
            !r.local_llm_available,
            !r.history_encrypted,
            !r.clipboard_contents_stored,
            !r.api_keys_stored,
    {
        let cloud = settings.cloud_providers_enabled && !settings.local_only_mode;
        PrivacyStatus {
            local_only_mode: settings.local_only_mode,
            history_enabled: settings.history_enabled,
            clipboard_restore_enabled: settings.clipboard_restore_enabled,
            debug_logging_enabled: settings.debug_logging_enabled,
            cloud_available: cloud,
            openai_available: cloud,
            local_llm_available: false,
            history_encrypted: false,
            clipboard_contents_stored: false,
            api_keys_stored: false,
            network_calls_possible: cloud,
        }
    }
}

pub open spec fn valid_engine(v: Seq<char>) -> bool {
    v == "mock"@ || v == "local_whisper"@ || v == "openai"@ || v == "cloud"@
}

pub open spec fn valid_text_mode(v: Seq<char>) -> bool {
    v == "raw_dictation"@ || v == "clean_notes"@ || v == "ai_prompt"@ || v == "developer_review"@
        || v == "thought_piece"@
}

pub open spec fn valid_provider(v: Seq<char>) -> bool {
    v == "basic"@ || v == "mock_ai"@ || v == "openai"@ || v == "local_llm_planned"@
}

/// The error that an update is refused with, if any; checked in field order.
pub open spec fn update_error(u: UpdateSettingsRequest) -> Option<Seq<char>> {
    if u.hotkey is Some && trim(u.hotkey->0@).len() == 0 {
        Some("Hotkey cannot be empty."@)
    } else if u.default_transcription_engine is Some && !valid_engine(u.default_transcription_engine->0@) {
        Some("Invalid transcription engine '"@ + u.default_transcription_engine->0@ + "'"@)
    } else if u.default_text_mode is Some && !valid_text_mode(u.default_text_mode->0@) {
        Some("Invalid text mode '"@ + u.default_text_mode->0@ + "'"@)
    } else if u.default_cleanup_provider is Some && !valid_provider(u.default_cleanup_provider->0@) {
        Some("Invalid cleanup provider '"@ + u.default_cleanup_provider->0@ + "'"@)
    } else if u.openai_transcription_model is Some && trim(u.openai_transcription_model->0@).len() == 0 {
        Some("OpenAI transcription model cannot be empty."@)
    } else if u.openai_cleanup_model is Some && trim(u.openai_cleanup_model->0@).len() == 0 {
        Some("OpenAI cleanup model cannot be empty."@)
    } else {
        None
    }
}

pub open spec fn pick<T>(new: Option<T>, old: T) -> T {
    match new {
        Some(v) => v,
        None => old,
    }
}

/// The settings `c` with every field that `u` sets replaced.
pub open spec fn applied(c: SpielSettings, u: UpdateSettingsRequest) -> SpielSettings {
    SpielSettings {
        hotkey: pick(u.hotkey, c.hotkey),
        history_enabled: pick(u.history_enabled, c.history_enabled),
        clipboard_restore_enabled: pick(u.clipboard_restore_enabled, c.clipboard_restore_enabled),
        default_transcription_engine: pick(u.default_transcription_engine, c.default_transcription_engine),
        default_text_mode: pick(u.default_text_mode, c.default_text_mode),
        default_cleanup_provider: pick(u.default_cleanup_provider, c.default_cleanup_provider),
        local_whisper_binary_path: pick(u.local_whisper_binary_path, c.local_whisper_binary_path),
        local_whisper_model_path: pick(u.local_whisper_model_path, c.local_whisper_model_path),
        local_only_mode: pick(u.local_only_mode, c.local_only_mode),
        debug_logging_enabled: pick(u.debug_logging_enabled, c.debug_logging_enabled),
        auto_transcribe_after_recording: pick(u.auto_transcribe_after_recording, c.auto_transcribe_after_recording),
        auto_cleanup_after_transcription: pick(u.auto_cleanup_after_transcription, c.auto_cleanup_after_transcription),
        auto_save_history_after_cleanup: pick(u.auto_save_history_after_cleanup, c.auto_save_history_after_cleanup),
        auto_insert_after_cleanup: pick(u.auto_insert_after_cleanup, c.auto_insert_after_cleanup),
        cloud_providers_enabled: pick(u.cloud_providers_enabled, c.cloud_providers_enabled),
        openai_transcription_model: pick(u.openai_transcription_model, c.openai_transcription_model),
        openai_cleanup_model: pick(u.openai_cleanup_model, c.openai_cleanup_model),
        created_at: c.created_at,
        updated_at: c.updated_at,
    }
}

fn pick_string(new: &Option<String>, old: &String) -> (r: String)
    ensures
        r == pick(*new, *old),
{
    match new {
        Some(v) => v.clone(),
        None => old.clone(),
    }
}

fn pick_bool(new: Option<bool>, old: bool) -> (r: bool)
    ensures
        r == pick(new, old),
{
    match new {
        Some(v) => v,
        None => old,
    }
}

fn is_one_of(v: &str, options: &[&str]) -> (r: bool)
    ensures
        r == exists|i: int| 0 <= i < options@.len() && options@[i]@ == v@,
{
    let mut i: usize = 0;
    while i < options.len()
        invariant
            i <= options.len(),
            forall|j: int| 0 <= j < i ==> options@[j]@ != v@,
        decreases options.len() - i,
    {
        if str_eq(options[i], v) {
            return true;
        }
        i += 1;
    }
    false
}

fn quoted_error(prefix: &str, v: &str) -> (r: String)
    ensures
        r@ == prefix@ + v@ + "'"@,
{
    String::from_str(prefix).concat(v).concat("'")
}

fn check_update(update: &UpdateSettingsRequest) -> (r: Result<(), String>)
    ensures
        match update_error(*update) {
            Some(m) => r matches Err(e) && e@ == m,
            None => r is Ok,
        },
{
    if let Some(v) = &update.hotkey {
        if str_is_blank(v.as_str()) {
            return Err(String::from_str("Hotkey cannot be empty."));
        }
    }
    if let Some(v) = &update.default_transcription_engine {
        let opts = ["mock", "local_whisper", "openai", "cloud"];
        let ok = is_one_of(v.as_str(), &opts);
        assert(ok == valid_engine(v@)) by {
            if valid_engine(v@) {
                if v@ == "mock"@ { assert(opts@[0]@ == v@); }
                else if v@ == "local_whisper"@ { assert(opts@[1]@ == v@); }
                else if v@ == "openai"@ { assert(opts@[2]@ == v@); }
                else { assert(opts@[3]@ == v@); }
            }
        }
        if !ok {
            return Err(quoted_error("Invalid transcription engine '", v.as_str()));
        }
    }
    if let Some(v) = &update.default_text_mode {
        let opts = ["raw_dictation", "clean_notes", "ai_prompt", "developer_review", "thought_piece"];
        let ok = is_one_of(v.as_str(), &opts);
        assert(ok == valid_text_mode(v@)) by {
            if valid_text_mode(v@) {
                if v@ == "raw_dictation"@ { assert(opts@[0]@ == v@); }
                else if v@ == "clean_notes"@ { assert(opts@[1]@ == v@); }
                else if v@ == "ai_prompt"@ { assert(opts@[2]@ == v@); }
                else if v@ == "developer_review"@ { assert(opts@[3]@ == v@); }
                else { assert(opts@[4]@ == v@); }
            }
        }
        if !ok {
            return Err(quoted_error("Invalid text mode '", v.as_str()));
        }
    }
    if let Some(v) = &update.default_cleanup_provider {
        let opts = ["basic", "mock_ai", "openai", "local_llm_planned"];
        let ok = is_one_of(v.as_str(), &opts);
        assert(ok == valid_provider(v@)) by {
            if valid_provider(v@) {
                if v@ == "basic"@ { assert(opts@[0]@ == v@); }
                else if v@ == "mock_ai"@ { assert(opts@[1]@ == v@); }
                else if v@ == "openai"@ { assert(opts@[2]@ == v@); }
                else { assert(opts@[3]@ == v@); }
            }
        }
        if !ok {
            return Err(quoted_error("Invalid cleanup provider '", v.as_str()));
        }
    }
    if let Some(v) = &update.openai_transcription_model {
        if str_is_blank(v.as_str()) {
            return Err(String::from_str("OpenAI transcription model cannot be empty."));
        }
    }
    if let Some(v) = &update.openai_cleanup_model {
        if str_is_blank(v.as_str()) {
            return Err(String::from_str("OpenAI cleanup model cannot be empty."));
        }
    }
    Ok(())
}

/// Apply an update to the current settings, or refuse it with the first
/// validation error.
/// Settings whose choices are all ones the app knows.
pub open spec fn settings_valid(s: SpielSettings) -> bool {
    &&& trim(s.hotkey@).len() > 0
    &&& valid_engine(s.default_transcription_engine@)
    &&& valid_text_mode(s.default_text_mode@)
    &&& valid_provider(s.default_cleanup_provider@)
    &&& trim(s.openai_transcription_model@).len() > 0
    &&& trim(s.openai_cleanup_model@).len() > 0
}

/// An update takes effect in `s`: every field that `u` sets holds the value
/// it asks for, and every field it leaves out keeps its value in `c`.
pub open spec fn update_takes_effect(c: SpielSettings, u: UpdateSettingsRequest, s: SpielSettings) -> bool {
    &&& (u.hotkey matches Some(x) ==> s.hotkey == x)
    &&& (u.hotkey is None ==> s.hotkey == c.hotkey)
    &&& (u.default_transcription_engine matches Some(x) ==> s.default_transcription_engine == x)
    &&& (u.default_transcription_engine is None ==> s.default_transcription_engine == c.default_transcription_engine)
    &&& (u.default_text_mode matches Some(x) ==> s.default_text_mode == x)
    &&& (u.default_text_mode is None ==> s.default_text_mode == c.default_text_mode)
    &&& (u.default_cleanup_provider matches Some(x) ==> s.default_cleanup_provider == x)
    &&& (u.default_cleanup_provider is None ==> s.default_cleanup_provider == c.default_cleanup_provider)
    &&& (u.local_whisper_binary_path matches Some(x) ==> s.local_whisper_binary_path == x)
    &&& (u.local_whisper_binary_path is None ==> s.local_whisper_binary_path == c.local_whisper_binary_path)
    &&& (u.local_whisper_model_path matches Some(x) ==> s.local_whisper_model_path == x)
    &&& (u.local_whisper_model_path is None ==> s.local_whisper_model_path == c.local_whisper_model_path)
    &&& (u.openai_transcription_model matches Some(x) ==> s.openai_transcription_model == x)
    &&& (u.openai_transcription_model is None ==> s.openai_transcription_model == c.openai_transcription_model)
    &&& (u.openai_cleanup_model matches Some(x) ==> s.openai_cleanup_model == x)
    &&& (u.openai_cleanup_model is None ==> s.openai_cleanup_model == c.openai_cleanup_model)
    &&& (u.history_enabled matches Some(x) ==> s.history_enabled == x)
    &&& (u.history_enabled is None ==> s.history_enabled == c.history_enabled)
    &&& (u.clipboard_restore_enabled matches Some(x) ==> s.clipboard_restore_enabled == x)
    &&& (u.clipboard_restore_enabled is None ==> s.clipboard_restore_enabled == c.clipboard_restore_enabled)
    &&& (u.local_only_mode matches Some(x) ==> s.local_only_mode == x)
    &&& (u.local_only_mode is None ==> s.local_only_mode == c.local_only_mode)
    &&& (u.debug_logging_enabled matches Some(x) ==> s.debug_logging_enabled == x)
    &&& (u.debug_logging_enabled is None ==> s.debug_logging_enabled == c.debug_logging_enabled)
    &&& (u.auto_transcribe_after_recording matches Some(x) ==> s.auto_transcribe_after_recording == x)
    &&& (u.auto_transcribe_after_recording is None ==> s.auto_transcribe_after_recording == c.auto_transcribe_after_recording)
    &&& (u.auto_cleanup_after_transcription matches Some(x) ==> s.auto_cleanup_after_transcription == x)
    &&& (u.auto_cleanup_after_transcription is None ==> s.auto_cleanup_after_transcription == c.auto_cleanup_after_transcription)
    &&& (u.auto_save_history_after_cleanup matches Some(x) ==> s.auto_save_history_after_cleanup == x)
    &&& (u.auto_save_history_after_cleanup is None ==> s.auto_save_history_after_cleanup == c.auto_save_history_after_cleanup)
    &&& (u.auto_insert_after_cleanup matches Some(x) ==> s.auto_insert_after_cleanup == x)
    &&& (u.auto_insert_after_cleanup is None ==> s.auto_insert_after_cleanup == c.auto_insert_after_cleanup)
    &&& (u.cloud_providers_enabled matches Some(x) ==> s.cloud_providers_enabled == x)
    &&& (u.cloud_providers_enabled is None ==> s.cloud_providers_enabled == c.cloud_providers_enabled)
    &&& s.created_at == c.created_at
    &&& s.updated_at == c.updated_at
}

/// An accepted update takes effect: each setting it names gets the value it
/// asks for (for instance turning history off turns it off), and nothing
/// else changes.
pub proof fn law_accepted_update_takes_effect(c: SpielSettings, u: UpdateSettingsRequest)
    requires
        update_error(u) is None,
    ensures
        update_takes_effect(c, u, applied(c, u)),
{
}

/// An accepted update keeps valid settings valid.
pub proof fn law_accepted_update_keeps_valid(c: SpielSettings, u: UpdateSettingsRequest)
    requires
        settings_valid(c),
        update_error(u) is None,
    ensures
        settings_valid(applied(c, u)),
{
}

/// Applying the same update twice is applying it once; an update that sets
/// nothing changes nothing.
pub proof fn law_update_idempotent(c: SpielSettings, u: UpdateSettingsRequest)
    ensures
        applied(applied(c, u), u) == applied(c, u),
        (u.hotkey is None && u.history_enabled is None && u.clipboard_restore_enabled is None
            && u.default_transcription_engine is None && u.default_text_mode is None
            && u.default_cleanup_provider is None && u.local_whisper_binary_path is None
            && u.local_whisper_model_path is None && u.local_only_mode is None
            && u.debug_logging_enabled is None && u.auto_transcribe_after_recording is None
            && u.auto_cleanup_after_transcription is None && u.auto_save_history_after_cleanup is None
            && u.auto_insert_after_cleanup is None && u.cloud_providers_enabled is None
            && u.openai_transcription_model is None && u.openai_cleanup_model is None) ==> applied(c, u)
            == c,
{
}

/// The default settings are valid.
pub proof fn law_defaults_valid(s: SpielSettings)
    requires
        is_default_settings(s),
    ensures
        settings_valid(s),
{
    reveal_strlit("Ctrl+Shift+Space");
    reveal_strlit("mock");
    reveal_strlit("raw_dictation");
    reveal_strlit("basic");
    reveal_strlit("whisper-1");
    reveal_strlit("gpt-4o-mini");
    crate::text::lemma_trim_fixed(s.hotkey@);
    crate::text::lemma_trim_fixed(s.openai_transcription_model@);
    crate::text::lemma_trim_fixed(s.openai_cleanup_model@);
}

pub fn validate_and_apply(current: &SpielSettings, update: &UpdateSettingsRequest) -> (r: Result<
    SpielSettings,
    String,
>)
    ensures
        match update_error(*update) {
            Some(m) => r matches Err(e) && e@ == m,
            None => r == Ok::<SpielSettings, String>(applied(*current, *update)),
        },
        r is Ok <==> update_error(*update) is None,
        r matches Ok(s) ==> update_takes_effect(*current, *update, s),
{
    proof {
        if update_error(*update) is None {
            law_accepted_update_takes_effect(*current, *update);
        }
    }
    match check_update(update) {
        Err(e) => Err(e),
        Ok(()) => Ok(
            SpielSettings {
                hotkey: pick_string(&update.hotkey, &current.hotkey),
                history_enabled: pick_bool(update.history_enabled, current.history_enabled),
                clipboard_restore_enabled: pick_bool(update.clipboard_restore_enabled, current.clipboard_restore_enabled),
                default_transcription_engine: pick_string(&update.default_transcription_engine, &current.default_transcription_engine),
                default_text_mode: pick_string(&update.default_text_mode, &current.default_text_mode),
                default_cleanup_provider: pick_string(&update.default_cleanup_provider, &current.default_cleanup_provider),
                local_whisper_binary_path: pick_string(&update.local_whisper_binary_path, &current.local_whisper_binary_path),
                local_whisper_model_path: pick_string(&update.local_whisper_model_path, &current.local_whisper_model_path),
                local_only_mode: pick_bool(update.local_only_mode, current.local_only_mode),
                debug_logging_enabled: pick_bool(update.debug_logging_enabled, current.debug_logging_enabled),
                auto_transcribe_after_recording: pick_bool(update.auto_transcribe_after_recording, current.auto_transcribe_after_recording),
                auto_cleanup_after_transcription: pick_bool(update.auto_cleanup_after_transcription, current.auto_cleanup_after_transcription),
                auto_save_history_after_cleanup: pick_bool(update.auto_save_history_after_cleanup, current.auto_save_history_after_cleanup),
                auto_insert_after_cleanup: pick_bool(update.auto_insert_after_cleanup, current.auto_insert_after_cleanup),
                cloud_providers_enabled: pick_bool(update.cloud_providers_enabled, current.cloud_providers_enabled),
                openai_transcription_model: pick_string(&update.openai_transcription_model, &current.openai_transcription_model),
                openai_cleanup_model: pick_string(&update.openai_cleanup_model, &current.openai_cleanup_model),
                created_at: current.created_at.clone(),
                updated_at: current.updated_at.clone(),
            },
        ),
    }
}

} // verus!

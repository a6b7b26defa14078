use spiel::config::Config;
use spiel::model::retry_delay_with_jitter;
use spiel::secrets::SecretStore;
use spiel::settings::{validate_and_apply, SpielSettings, UpdateSettingsRequest};

fn no_update() -> UpdateSettingsRequest {
    UpdateSettingsRequest {
        hotkey: None,
        history_enabled: None,
        clipboard_restore_enabled: None,
        default_transcription_engine: None,
        default_text_mode: None,
        default_cleanup_provider: None,
        local_whisper_binary_path: None,
        local_whisper_model_path: None,
        local_only_mode: None,
        debug_logging_enabled: None,
        auto_transcribe_after_recording: None,
        auto_cleanup_after_transcription: None,
        auto_save_history_after_cleanup: None,
        auto_insert_after_cleanup: None,
        cloud_providers_enabled: None,
        openai_transcription_model: None,
        openai_cleanup_model: None,
    }
}

#[test]
fn validating_twice_changes_nothing() {
    let c = Config {
        hotkey: "  Cmd+Shift+K ".into(),
        model: " base ".into(),
        language: " PT_br ".into(),
        transcription_threads: 99,
        max_seconds: 1,
        ..Config::default()
    };
    let once = c.validated().unwrap();
    assert_eq!(once.hotkey, "Cmd+Shift+K");
    assert_eq!(once.model, "base");
    assert_eq!(once.language, "pt");
    assert_eq!(once.max_seconds, 5);
    let twice = once.clone().validated().unwrap();
    assert_eq!(twice.hotkey, once.hotkey);
    assert_eq!(twice.model, once.model);
    assert_eq!(twice.language, once.language);
    assert_eq!(twice.transcription_threads, once.transcription_threads);
    assert_eq!(twice.max_seconds, once.max_seconds);
    assert!(Config { hotkey: "   ".into(), ..Config::default() }.validated().is_err());
}

#[test]
fn settings_updates_are_idempotent_and_keep_validity() {
    let current = SpielSettings::default();
    let unchanged = validate_and_apply(&current, &no_update()).unwrap();
    assert_eq!(unchanged.hotkey, current.hotkey);
    assert_eq!(unchanged.default_text_mode, current.default_text_mode);
    let update = UpdateSettingsRequest {
        default_text_mode: Some("ai_prompt".into()),
        cloud_providers_enabled: Some(true),
        ..no_update()
    };
    let once = validate_and_apply(&current, &update).unwrap();
    let twice = validate_and_apply(&once, &update).unwrap();
    assert_eq!(once.default_text_mode, "ai_prompt");
    assert_eq!(twice.default_text_mode, once.default_text_mode);
    assert_eq!(twice.cloud_providers_enabled, once.cloud_providers_enabled);
    let bad = UpdateSettingsRequest { default_text_mode: Some("poetry".into()), ..no_update() };
    assert_eq!(validate_and_apply(&current, &bad).unwrap_err(), "Invalid text mode 'poetry'");
}

#[test]
fn secrets_set_get_delete() {
    let mut store = SecretStore::new();
    store.set(" openai ", " sk-abcdef12 ").unwrap();
    store.set("other", "value").unwrap();
    assert_eq!(store.get("openai").as_deref(), Some("sk-abcdef12"));
    store.set("openai", "sk-zzzz9999").unwrap();
    assert_eq!(store.get(" openai").as_deref(), Some("sk-zzzz9999"));
    let status = store.get_status("openai");
    assert_eq!(status.last_four.as_deref(), Some("9999"));
    store.delete("openai");
    assert!(store.get("openai").is_none());
    assert_eq!(store.get("other").as_deref(), Some("value"));
    assert!(store.set("", "x").is_err());
    assert_eq!(store.get("other").as_deref(), Some("value"));
}

#[test]
fn retry_delays_grow_and_stay_bounded() {
    assert_eq!(retry_delay_with_jitter(250, 0, 7), 0);
    assert_eq!(retry_delay_with_jitter(250, 1, 0), 500);
    assert_eq!(retry_delay_with_jitter(250, 2, 0), 1000);
    assert_eq!(retry_delay_with_jitter(250, 2, 101), 1050);
    assert_eq!(retry_delay_with_jitter(250, 9, 0), 5000);
    for attempt in 1..20u32 {
        let d = retry_delay_with_jitter(30_000, attempt, 29_999);
        assert!(d <= 5_000 + 15_000);
        assert!(d >= retry_delay_with_jitter(30_000, attempt - 1, 29_999));
    }
}

#[test]
fn openai_is_an_accepted_transcription_engine() {
    let current = SpielSettings::default();
    let update = UpdateSettingsRequest {
        default_transcription_engine: Some("openai".into()),
        ..no_update()
    };
    let s = validate_and_apply(&current, &update).unwrap();
    assert_eq!(s.default_transcription_engine, "openai");
    assert_eq!(s.hotkey, current.hotkey);
    let bad = UpdateSettingsRequest { default_transcription_engine: Some("whisperx".into()), ..no_update() };
    assert!(validate_and_apply(&current, &bad).is_err());
}

#[test]
fn default_settings_hotkey_is_ctrl_shift_space() {
    let d = SpielSettings::default();
    assert_eq!(d.hotkey, "Ctrl+Shift+Space");
    assert!(d.local_only_mode && !d.cloud_providers_enabled);
}

#[test]
fn four_byte_key_is_never_shown() {
    let mut store = SecretStore::new();
    store.set("openai", "sk-a").unwrap();
    let status = store.get_status("openai");
    assert!(status.configured);
    assert_eq!(status.last_four, None);
}

#[test]
fn key_tail_counts_characters() {
    let mut store = SecretStore::new();
    store.set("openai", "sk-12€ab").unwrap();
    assert_eq!(store.get_status("openai").last_four.as_deref(), Some("2€ab"));
    store.set("other", "ééééé").unwrap();
    assert_eq!(store.get_status("other").last_four.as_deref(), Some("éééé"));
    store.set("other", "éééé").unwrap();
    assert_eq!(store.get_status("other").last_four, None);
    store.set("openai", "sk-12345678").unwrap();
    assert_eq!(store.get_status("openai").last_four.as_deref(), Some("5678"));
}

#[test]
fn validated_config_validates_to_itself() {
    let c = Config {
        hotkey: " Cmd+K ".into(),
        model: "nonsense".into(),
        language: "xx".into(),
        transcription_threads: 0,
        max_seconds: 100_000,
        ..Config::default()
    };
    let v = c.validated().unwrap();
    assert_eq!(v.model, "tiny.en");
    assert_eq!(v.language, "en");
    assert_eq!(v.transcription_threads, 1);
    assert_eq!(v.max_seconds, 600);
    let again = v.clone().validated().unwrap();
    assert_eq!(again.hotkey, v.hotkey);
    assert_eq!(again.model, v.model);
    assert_eq!(again.language, v.language);
    assert_eq!(again.transcription_threads, v.transcription_threads);
    assert_eq!(again.max_seconds, v.max_seconds);
}

use spiel::app_state::{capability_statuses, HotkeyState, RecordingState, RecordingStateData};
use spiel::clipboard::{check_write, SavedClipboard};
use spiel::commands::{
    check_delete, check_download, clears_cache_after_download, is_store_file, list_model_views,
    model_done, needs_model_cache_reset, should_emit_progress, StoreSummary,
};
use spiel::config::{Config, Paths};
use spiel::error::SpielError;
use spiel::focus::{poll_interval_ms, restore_delay_ms, DEFAULT_FOCUS_RESTORE_DELAY_MS};
use spiel::history::{check_save_request, delete_outcome, derive_title, HistoryStateData, SaveHistoryRequest};
use spiel::memory::{resident_set_bytes, snapshot};
use spiel::model::{registry, InstallInfo, InstallStatus};
use spiel::startup::{accessibility_poll_ms, invalid_hotkey_error, maintenance_poll_ms, should_warm_up};
use spiel::state::DownloadState;

fn save_request(text: &str) -> SaveHistoryRequest {
    SaveHistoryRequest {
        raw_text: text.into(),
        final_text: text.into(),
        mode: "raw_dictation".into(),
        cleanup_provider: "basic".into(),
        transcription_engine: "Mock Engine".into(),
        transcription_engine_kind: "mock".into(),
        audio_file_path: None,
        audio_duration_ms: None,
        transcript_duration_ms: None,
        cleanup_duration_ms: None,
        is_mock_transcript: true,
        is_mock_cleanup: false,
        error: None,
    }
}

#[test]
fn history_titles() {
    assert_eq!(derive_title("\n  \n  First line here \nsecond"), "First line here");
    assert_eq!(derive_title("   "), "Untitled");
    let long = "a".repeat(100);
    let t = derive_title(&long);
    assert_eq!(t, format!("{}...", "a".repeat(77)));
    let exact = "b".repeat(80);
    assert_eq!(derive_title(&exact), exact);
    assert!(check_save_request(&save_request(" \n")).is_err());
    assert!(check_save_request(&save_request("hi")).is_ok());
    assert_eq!(delete_outcome(-5, 0).unwrap_err(), "History entry not found (id=-5).");
    assert!(delete_outcome(5, 1).is_ok());
    let st = HistoryStateData::default();
    assert!(st.enabled);
    assert_eq!(st.entry_count, 0);
}

#[test]
fn model_list_and_gates() {
    let models = registry();
    let installs: Vec<InstallInfo> = models
        .iter()
        .map(|m| InstallInfo {
            status: if m.id == "base.en" { InstallStatus::Installed } else { InstallStatus::Missing },
            bytes: 1,
            modified_ms: None,
            reason: String::new(),
        })
        .collect();
    let views = list_model_views(&installs, "base.en");
    assert_eq!(views.len(), models.len());
    let base = views.iter().find(|v| v.id == "base.en").unwrap();
    assert!(base.installed && base.is_current);
    assert_eq!(base.install_status, "installed");
    assert!(views.iter().filter(|v| v.is_current).count() == 1);

    assert_eq!(check_download("nope", false, false).unwrap_err(), "Unknown model 'nope'.");
    assert_eq!(check_download("tiny", true, true).unwrap_err(), "Model 'tiny' is already installed.");
    assert!(check_download("tiny", true, false).is_ok());

    let mut dl = DownloadState::default();
    dl.begin("tiny").unwrap();
    assert_eq!(check_delete("tiny", true, &dl, true, "base.en").unwrap_err(), "Cannot delete a model while it is downloading.");
    assert_eq!(check_delete("small", true, &dl, false, "base.en").unwrap_err(), "Model 'small' is not installed.");
    assert_eq!(
        check_delete("base.en", true, &dl, true, "base.en").unwrap_err(),
        "Cannot delete the active model directly. Switch models first."
    );
    assert!(check_delete("small", true, &dl, true, "base.en").is_ok());

    assert!(should_emit_progress(100, Some(100), 0));
    assert!(!should_emit_progress(50, Some(100), 119));
    assert!(should_emit_progress(50, None, 120));
    assert!(clears_cache_after_download("tiny", "tiny", true));
    assert!(!clears_cache_after_download("tiny", "tiny", false));
    let done = model_done("tiny", &Err(SpielError::Download("canceled".into())));
    assert!(!done.ok);
    assert_eq!(done.error.as_deref(), Some("Download failed: canceled"));

    let old = Config::default();
    let mut new = Config::default();
    assert!(!needs_model_cache_reset(&old.model, false, &new));
    assert!(needs_model_cache_reset(&old.model, true, &new));
    new.keep_model_loaded = true;
    assert!(!needs_model_cache_reset(&old.model, true, &new));
    new.model = "base".into();
    assert!(needs_model_cache_reset(&old.model, false, &new));

    assert!(is_store_file("ggml-base.bin", false, true));
    assert!(is_store_file("ggml-base.bin.part", false, true));
    assert!(!is_store_file("ggml-base.bin.sha256", false, true));
    assert!(!is_store_file("ggml-base.bin", true, true));
    let mut s = StoreSummary::new();
    s.add(u64::MAX - 1);
    s.add(5);
    assert_eq!(s.total_bytes, u64::MAX);
    assert_eq!(s.file_count, 2);
}

#[test]
fn platform_settings() {
    assert_eq!(poll_interval_ms(Some("50")), 100);
    assert_eq!(poll_interval_ms(Some(" 300")), 250);
    assert_eq!(poll_interval_ms(Some("9000")), 5_000);
    assert_eq!(restore_delay_ms(Some(" 300 "), DEFAULT_FOCUS_RESTORE_DELAY_MS), 300);
    assert_eq!(restore_delay_ms(Some("5000"), DEFAULT_FOCUS_RESTORE_DELAY_MS), 2_000);
    assert_eq!(restore_delay_ms(None, DEFAULT_FOCUS_RESTORE_DELAY_MS), 140);
    assert_eq!(accessibility_poll_ms(None), 1_000);
    assert_eq!(accessibility_poll_ms(Some("10")), 250);
    assert_eq!(maintenance_poll_ms(Some("bad")), 900_000);
    assert_eq!(maintenance_poll_ms(Some("100000000")), 86_400_000);
    assert!(should_warm_up(true, None));
    assert!(should_warm_up(false, Some(" YES ")));
    assert!(!should_warm_up(false, Some("nope")));
    match invalid_hotkey_error("Cmd+?") {
        SpielError::Config(m) => assert!(m.starts_with("'Cmd+?' isn't a valid hotkey.")),
        _ => panic!("config error expected"),
    }
    assert_eq!(resident_set_bytes(Some("1000 250 30 1 0 200 0\n")), Some(250 * 4096));
    assert_eq!(resident_set_bytes(Some("1000")), None);
    assert_eq!(snapshot(None).rss_bytes, 0);
    assert_eq!(snapshot(Some("5 7")).source, "procfs");
}

#[test]
fn clipboard_and_app_state() {
    assert!(check_write("").is_err());
    assert!(check_write("x").is_ok());
    let s = SavedClipboard::from_read(Ok("prev".into()));
    assert!(s.had_text);
    assert_eq!(s.to_restore().map(|t| t.as_str()), Some("prev"));
    assert!(SavedClipboard::from_read(Ok(String::new())).text.is_none());
    assert!(SavedClipboard::from_read(Err("denied".into())).to_restore().is_none());
    let caps = capability_statuses();
    assert_eq!(caps.len(), 9);
    assert_eq!(caps[0].name, "ui_foundation");
    assert!(caps.iter().all(|c| c.status == "implemented"));
    assert_eq!(HotkeyState::default().shortcut, "Cmd+Shift+S");
    assert_eq!(RecordingStateData::default().state, RecordingState::Idle);
    let p = Paths { config_file: "/cfg/config.json".into(), model_dir: "/data/models".into() };
    assert_eq!(p.model_path("ggml-base.bin"), "/data/models/ggml-base.bin");
    assert_eq!(p.model_path("/abs.bin"), "/abs.bin");
}

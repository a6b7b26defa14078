use spiel::install_cache::ModelInstallCache;
use spiel::model::{InstallInfo, InstallStatus};
use spiel::state::{status_snapshot, DownloadState, Phase, StatusState};

fn info(bytes: u64) -> InstallInfo {
    InstallInfo { status: InstallStatus::Installed, bytes, modified_ms: Some(1), reason: String::new() }
}

#[test]
fn cache_serves_fresh_checks_only() {
    let mut c = ModelInstallCache::new();
    assert!(c.fresh("base.en", 0).is_none());
    c.store("base.en", info(7), 1_000);
    assert_eq!(c.fresh("base.en", 1_000).unwrap().bytes, 7);
    assert_eq!(c.fresh("base.en", 1_499).unwrap().bytes, 7);
    assert!(c.fresh("base.en", 1_500).is_none());
    // a clock reading before the check counts as no time passed
    assert_eq!(c.fresh("base.en", 10).unwrap().bytes, 7);
    assert!(c.fresh("tiny", 1_000).is_none());
    c.store("base.en", info(9), 2_000);
    assert_eq!(c.fresh("base.en", 2_100).unwrap().bytes, 9);
    c.store("tiny", info(3), 2_000);
    c.remove("base.en");
    assert!(c.fresh("base.en", 2_100).is_none());
    assert_eq!(c.fresh("tiny", 2_100).unwrap().bytes, 3);
    c.clear();
    assert!(c.fresh("tiny", 2_100).is_none());
}

#[test]
fn download_slot_is_exclusive() {
    let mut d = DownloadState::default();
    assert!(!d.active);
    assert!(d.begin("base.en").is_ok());
    assert!(d.active);
    assert!(d.is_downloading("base.en"));
    assert!(!d.is_downloading("tiny"));
    d.record_progress(10, Some(100));
    assert_eq!(d.begin("tiny"), Err("A download is already in progress.".to_string()));
    assert_eq!(d.downloaded, 10);
    assert_eq!(d.model_id.as_deref(), Some("base.en"));
    d.finish();
    assert!(!d.active);
    assert!(d.model_id.is_none());
    assert!(d.begin("tiny").is_ok());
    assert_eq!(d.downloaded, 0);
    assert_eq!(d.total, None);
}

#[test]
fn status_snapshot_copies_the_status() {
    let mut s = StatusState::default();
    assert_eq!(s.phase, Phase::Idle);
    s.needs_accessibility = true;
    s.set_phase(Phase::Error, Some("boom".into()));
    let snap = status_snapshot(&s, 1234, "base.en".into(), true, false, false);
    assert_eq!(snap.phase, Phase::Error);
    assert_eq!(snap.message.as_deref(), Some("boom"));
    // no Accessibility permission to hold
    assert!(snap.needs_accessibility);
    assert!(!snap.accessibility_trusted);
    assert!(!snap.accessibility_supported);
    // once the permission is granted, the prompt is no longer needed
    let granted = status_snapshot(&s, 1234, "base.en".into(), true, true, true);
    assert!(!granted.needs_accessibility);
    assert!(granted.accessibility_trusted && granted.accessibility_supported);
    assert_eq!(snap.recording_elapsed_ms, 1234);
    assert_eq!(snap.model_id, "base.en");
    assert!(snap.model_installed);
}

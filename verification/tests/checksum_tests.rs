use spiel::error::SpielError;
use spiel::model::{
    check_checksum, checksum_from_manifest, checksum_from_remote_sidecar, download_retry_step,
    expected_checksum, DownloadRetry,
    SidecarRead,
};

const UPPER: &str = "ABCDEF0123456789ABCDEF0123456789ABCDEF0123456789ABCDEF0123456789";
const LOWER: &str = "abcdef0123456789abcdef0123456789abcdef0123456789abcdef0123456789";

#[test]
fn override_checksum_is_lowercased() {
    let r = expected_checksum(Some(UPPER), "", &SidecarRead::Absent, "m.bin.sha256");
    assert_eq!(r.unwrap(), Some(LOWER.to_string()));
}

#[test]
fn pinned_checksum_is_lowercased_when_no_override() {
    let r = expected_checksum(None, UPPER, &SidecarRead::Absent, "m.bin.sha256");
    assert_eq!(r.unwrap(), Some(LOWER.to_string()));
}

#[test]
fn sidecar_checksum_takes_the_first_word() {
    let text = format!("{}  ggml-base.en.bin\n", UPPER);
    let r = expected_checksum(None, "", &SidecarRead::Text(text), "m.bin.sha256");
    assert_eq!(r.unwrap(), Some(LOWER.to_string()));
}

#[test]
fn sidecar_errors_name_the_file() {
    match expected_checksum(None, "", &SidecarRead::Text("   \n".into()), "m.sha256") {
        Err(SpielError::Model(m)) => assert_eq!(m, "checksum sidecar is empty: m.sha256"),
        other => panic!("unexpected {:?}", other),
    }
    match expected_checksum(None, "", &SidecarRead::Text("xyz".into()), "m.sha256") {
        Err(SpielError::Model(m)) => assert_eq!(m, "invalid checksum sidecar format: m.sha256"),
        other => panic!("unexpected {:?}", other),
    }
    match expected_checksum(None, "", &SidecarRead::Unreadable, "m.sha256") {
        Err(SpielError::Model(m)) => assert_eq!(m, "cannot read checksum sidecar: m.sha256"),
        other => panic!("unexpected {:?}", other),
    }
    assert!(matches!(
        expected_checksum(None, "", &SidecarRead::Absent, "m.sha256"),
        Ok(None)
    ));
}

#[test]
fn manifest_entry_is_normalized() {
    let body = format!("{{\"ggml-base.en.bin\": \" {} \", \"other.bin\": \"zz\"}}", UPPER);
    assert_eq!(
        checksum_from_manifest(&body, "ggml-base.en.bin").unwrap(),
        Some(LOWER.to_string())
    );
    assert_eq!(checksum_from_manifest(&body, "missing.bin").unwrap(), None);
    match checksum_from_manifest(&body, "other.bin") {
        Err(SpielError::Download(m)) => assert_eq!(m, "model manifest contains invalid checksum"),
        other => panic!("unexpected {:?}", other),
    }
}

#[test]
fn manifest_that_is_not_json_is_refused() {
    match checksum_from_manifest("not json", "a.bin") {
        Err(SpielError::Download(m)) => {
            assert!(m.starts_with("invalid model manifest JSON: "));
            assert!(m.len() > "invalid model manifest JSON: ".len());
        }
        other => panic!("unexpected {:?}", other),
    }
}

#[test]
fn remote_sidecar_first_word() {
    let body = format!("{} file.bin", UPPER);
    assert_eq!(checksum_from_remote_sidecar(&body).unwrap(), Some(LOWER.to_string()));
    assert_eq!(checksum_from_remote_sidecar("  ").unwrap(), None);
    match checksum_from_remote_sidecar("nothex file.bin") {
        Err(SpielError::Download(m)) => assert_eq!(m, "remote checksum sidecar is invalid"),
        other => panic!("unexpected {:?}", other),
    }
}

#[test]
fn checksum_comparison_ignores_case() {
    assert!(check_checksum(UPPER, LOWER, "m.bin").is_ok());
    match check_checksum(LOWER, "00", "m.bin") {
        Err(SpielError::Model(m)) => {
            assert_eq!(m, format!("m.bin checksum mismatch: expected {} but got 00", LOWER))
        }
        other => panic!("unexpected {:?}", other),
    }
}

#[test]
fn download_retries_are_bounded_and_stop_on_cancel() {
    let failed: Result<(), SpielError> = Err(SpielError::Download("timeout".into()));
    let canceled: Result<(), SpielError> = Err(SpielError::Download("canceled".into()));
    assert_eq!(download_retry_step(0, 2, &Ok(())), DownloadRetry::Done);
    assert_eq!(download_retry_step(0, 2, &failed), DownloadRetry::Retry { next_attempt: 1 });
    assert_eq!(download_retry_step(1, 2, &failed), DownloadRetry::Retry { next_attempt: 2 });
    assert_eq!(download_retry_step(2, 2, &failed), DownloadRetry::GiveUp);
    assert_eq!(download_retry_step(0, 2, &canceled), DownloadRetry::GiveUp);
    assert_eq!(download_retry_step(0, 0, &failed), DownloadRetry::GiveUp);
}

use spiel::error::SpielError;
use spiel::model::{
    checksum_after_manifest, checksum_after_sidecar, checksum_start, manifest_configured,
    should_remove_artifact, ChecksumNext, HttpReply,
};
use spiel::model_paths::{model_dir_parts_check, model_path_check, PathPart, PathProbe};

const SUM: &str = "abcdef0123456789abcdef0123456789abcdef0123456789abcdef0123456789";

#[test]
fn symlinked_model_paths_are_refused() {
    assert!(model_path_check("\"/m/a.bin\"", "model", PathProbe::Missing).is_ok());
    assert!(model_path_check("\"/m/a.bin\"", "model", PathProbe::NotSymlink).is_ok());
    match model_path_check("\"/m/a.bin\"", "target model file", PathProbe::Symlink) {
        Err(SpielError::Download(m)) => assert_eq!(m, "target model file path is a symlink; refusing overwrite"),
        other => panic!("unexpected {:?}", other),
    }
    match model_path_check("\"/m/a.bin\"", "model", PathProbe::Unreadable { error: "denied".into() }) {
        Err(SpielError::Download(m)) => assert_eq!(m, "cannot check model path \"/m/a.bin\": denied"),
        other => panic!("unexpected {:?}", other),
    }
}

fn other(prefix: &str, link: bool) -> PathPart {
    PathPart::Other { prefix: prefix.into(), prefix_is_symlink: link }
}

#[test]
fn model_dir_refuses_traversal_and_symlinked_prefixes() {
    assert!(model_dir_parts_check(&vec![]).is_ok());
    assert!(model_dir_parts_check(&vec![other("\"/\"", false), PathPart::CurDir, other("\"/m\"", false)]).is_ok());
    assert_eq!(
        model_dir_parts_check(&vec![other("\"/\"", false), PathPart::ParentDir, other("\"/x\"", true)]).unwrap_err(),
        "parent directory reference is not allowed in model path"
    );
    assert_eq!(
        model_dir_parts_check(&vec![other("\"/\"", false), other("\"/link\"", true), PathPart::ParentDir]).unwrap_err(),
        "model path component \"/link\" is a symlink"
    );
}

#[test]
fn checksum_sources_in_order() {
    assert!(matches!(checksum_start("ABC", Some("http://m"), "http://x/a.bin"),
        ChecksumNext::Done { result: Ok(Some(ref c)) } if c == "abc"));
    assert!(matches!(checksum_start("", Some("  http://m  "), "http://x/a.bin"),
        ChecksumNext::FetchManifest { ref url } if url == "http://m"));
    assert!(matches!(checksum_start("", Some("   "), "http://x/a.bin"),
        ChecksumNext::FetchSidecar { ref url } if url == "http://x/a.bin.sha256"));
    assert!(matches!(checksum_start("", None, "http://x/a.bin"),
        ChecksumNext::FetchSidecar { ref url } if url == "http://x/a.bin.sha256"));
    assert!(manifest_configured(Some(" u ")) && !manifest_configured(Some(" ")) && !manifest_configured(None));
}

#[test]
fn manifest_reply_decides_the_next_step() {
    let next = |reply| checksum_after_manifest(reply, "a.bin", "http://x/a.bin");
    assert!(matches!(next(HttpReply::SendFailed { error: "dns".into() }),
        ChecksumNext::Done { result: Err(SpielError::Download(ref m)) } if m == "could not fetch model manifest: dns"));
    assert!(matches!(next(HttpReply::Status { status: "404 Not Found".into() }),
        ChecksumNext::Done { result: Err(SpielError::Download(ref m)) } if m == "model manifest returned 404 Not Found"));
    assert!(matches!(next(HttpReply::ReadFailed { error: "reset".into() }),
        ChecksumNext::Done { result: Err(SpielError::Download(ref m)) } if m == "could not read model manifest: reset"));
    let body = format!("{{\"a.bin\": \"{}\"}}", SUM.to_uppercase());
    assert!(matches!(next(HttpReply::Body { text: body }),
        ChecksumNext::Done { result: Ok(Some(ref c)) } if c == SUM));
    assert!(matches!(next(HttpReply::Body { text: "{}".into() }),
        ChecksumNext::FetchSidecar { ref url } if url == "http://x/a.bin.sha256"));
    assert!(matches!(next(HttpReply::Body { text: "{\"a.bin\": \"zz\"}".into() }),
        ChecksumNext::Done { result: Err(SpielError::Download(ref m)) } if m == "model manifest contains invalid checksum"));
}

#[test]
fn sidecar_reply_gives_the_checksum() {
    assert!(matches!(checksum_after_sidecar(HttpReply::SendFailed { error: "x".into() }), Ok(None)));
    assert!(matches!(checksum_after_sidecar(HttpReply::Status { status: "404".into() }), Ok(None)));
    assert!(matches!(checksum_after_sidecar(HttpReply::ReadFailed { error: "reset".into() }),
        Err(SpielError::Download(ref m)) if m == "could not read checksum sidecar: reset"));
    assert_eq!(checksum_after_sidecar(HttpReply::Body { text: format!("{SUM}  a.bin") }).unwrap(), Some(SUM.to_string()));
}

#[test]
fn maintenance_never_removes_symlinks_or_directories() {
    assert!(!should_remove_artifact(false, true, false, Some(true), None));
    assert!(should_remove_artifact(true, true, false, None, None));
    assert!(should_remove_artifact(true, false, true, Some(false), Some(false)));
    assert!(!should_remove_artifact(true, false, true, Some(false), Some(true)));
}

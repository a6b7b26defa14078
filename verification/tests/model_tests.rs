use spiel::error::SpielError;
use spiel::model::{
    classify_download_error, ensure_complete_download, is_language_hint, is_language_supported,
    normalize_language_hint, parse_download_backoff_ms, parse_download_retries,
    parse_download_timeout_ms, parse_part_cleanup_ms, recommended_model_for_language, spec,
    GGML_MAGIC,
};
use std::time::Duration;

#[test]
fn registry_has_default() {
    assert!(spec("base.en").is_some());
}

#[test]
fn multilingual_registry_entries_exist() {
    assert!(spec("tiny").is_some());
    assert!(spec("base").is_some());
    assert!(spec("small").is_some());
}

#[test]
fn unknown_model_is_none() {
    assert!(spec("nope").is_none());
}

#[test]
fn language_hint_validation_prefers_sane_tags() {
    assert!(is_language_hint("en"));
    assert!(is_language_hint("auto"));
    assert!(is_language_hint("zh"));
    assert!(is_language_hint("en-US"));
    assert!(is_language_hint("pt_BR"));
    assert!(!is_language_hint("e"));
    assert!(!is_language_hint("eng"));
    assert!(!is_language_hint("en us"));
    assert!(!is_language_hint("zzzz"));
}

#[test]
fn english_model_rejects_non_english_hint() {
    let tiny_en = spec("tiny.en").expect("tiny.en exists");
    assert!(is_language_supported(&tiny_en, "en"));
    assert!(is_language_supported(&tiny_en, "auto"));
    assert!(!is_language_supported(&tiny_en, "es"));
    assert!(!is_language_supported(&tiny_en, "fr"));
}

#[test]
fn multilingual_model_accepts_extended_hint() {
    let tiny = spec("tiny").expect("tiny exists");
    assert!(is_language_supported(&tiny, "es"));
    assert!(is_language_supported(&tiny, "zh"));
    assert!(!is_language_supported(&tiny, "e"));
}

#[test]
fn normalizes_region_and_invalid_language_tags() {
    assert_eq!(normalize_language_hint(" en-US "), "en");
    assert_eq!(normalize_language_hint("fr_CA"), "fr");
    assert_eq!(normalize_language_hint(""), "auto");
    assert_eq!(normalize_language_hint("zzZZ"), "auto");
}

#[test]
fn recommends_multilingual_models_for_non_english_languages() {
    assert_eq!(recommended_model_for_language("en").0, "base.en");
    assert_eq!(recommended_model_for_language("auto").0, "base");
    assert_eq!(recommended_model_for_language("es").0, "base");
}

#[test]
fn download_timeouts_have_sane_defaults() {
    // The switch is not set: the default stands.
    assert_eq!(parse_download_timeout_ms(None, 10_000), 10_000);
}

#[test]
fn download_timeouts_respect_bounds() {
    assert_eq!(parse_download_timeout_ms(Some("500"), 10_000), 1000);
    assert_eq!(parse_download_timeout_ms(Some("1200000"), 10_000), 1200000);
    assert_eq!(parse_download_timeout_ms(Some("99999999"), 10_000), 86_400_000);
    assert_eq!(parse_download_timeout_ms(None, 10_000), 10_000);
}

#[test]
fn download_retry_controls_have_sane_defaults() {
    assert_eq!(parse_download_retries(None, 2), 2);
    assert_eq!(parse_download_retries(Some("4"), 2), 4);
    assert_eq!(parse_download_retries(Some("99"), 2), 8);
    assert_eq!(parse_download_retries(Some("bad"), 2), 2);
}

#[test]
fn download_retry_backoff_respects_bounds() {
    assert_eq!(parse_download_backoff_ms(Some("0"), 250), 100);
    assert_eq!(parse_download_backoff_ms(Some("40000"), 250), 30_000);
    assert_eq!(parse_download_backoff_ms(Some("75"), 250), 100);
    assert_eq!(parse_download_backoff_ms(None, 250), 250);
}

#[test]
fn parse_part_cleanup_ms_uses_default_on_missing_or_invalid() {
    assert_eq!(parse_part_cleanup_ms(None, 100), Duration::from_millis(100));
    assert_eq!(parse_part_cleanup_ms(Some("not-a-number"), 100), Duration::from_millis(100));
    assert_eq!(parse_part_cleanup_ms(Some("0"), 100), Duration::from_millis(0));
}

#[test]
fn ggml_magic_matches_real_on_disk_bytes() {
    // The real ggml-base.en.bin begins with `6c 6d 67 67`.
    let on_disk = [0x6c_u8, 0x6d, 0x67, 0x67];
    assert_eq!(u32::from_le_bytes(on_disk), GGML_MAGIC);
}

#[test]
fn detects_incomplete_download_when_length_known() {
    let err = ensure_complete_download(Some(100), 90).unwrap_err();
    assert!(err.message().contains("download incomplete"));
}

#[test]
fn allows_download_when_length_unknown() {
    assert!(ensure_complete_download(None, 90).is_ok());
}

#[test]
fn classifies_download_error_variants() {
    assert_eq!(classify_download_error(&SpielError::Download("canceled".into())), "canceled");
    assert_eq!(
        classify_download_error(&SpielError::Download("could not reach host".into())),
        "network"
    );
    assert_eq!(classify_download_error(&SpielError::Model("checksum mismatch".into())), "checksum");
}

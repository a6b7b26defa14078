use spiel::config::Config;

#[test]
fn unknown_model_falls_back_to_default() {
    let cfg = Config { model: "unknown-model".into(), ..Config::default() }.validated().unwrap();
    assert_eq!(cfg.model, Config::default().model);
}

#[test]
fn language_normalizes_and_falls_back_to_auto() {
    let cfg = Config { language: " en-US ".into(), ..Config::default() }.validated().unwrap();
    assert_eq!(cfg.language, "en");

    let cfg2 = Config { language: "zz-99".into(), ..Config::default() }.validated().unwrap();
    assert_eq!(cfg2.language, "en");
}

#[test]
fn english_only_models_force_english_language() {
    let cfg = Config { model: "tiny.en".into(), language: "es".into(), ..Config::default() }
        .validated()
        .unwrap();
    assert_eq!(cfg.language, "en");
}

#[test]
fn multilingual_models_allow_supported_language_hints() {
    let cfg = Config { model: "base".into(), language: "es-MX".into(), ..Config::default() }
        .validated()
        .unwrap();
    assert_eq!(cfg.language, "es");
}

#[test]
fn transcription_threads_is_clamped() {
    let cfg = Config { transcription_threads: 0, ..Config::default() }.validated().unwrap();
    assert_eq!(cfg.transcription_threads, 1);

    let cfg2 = Config { transcription_threads: 50, ..Config::default() }.validated().unwrap();
    assert_eq!(cfg2.transcription_threads, 8);
}

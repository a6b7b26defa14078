use spiel::whisper::{audio_context_for_samples, clean_output, thread_count_from};

#[test]
fn cleans_whitespace_and_joins() {
    assert_eq!(clean_output("  Hello\n  world  "), "Hello world");
}

#[test]
fn strips_non_speech_tags() {
    assert_eq!(clean_output("[BLANK_AUDIO]"), "");
    assert_eq!(clean_output("Hi\n[silence]\nthere"), "Hi there");
    assert_eq!(clean_output("[inaudible foreign language]"), "");
    assert_eq!(clean_output("(speaking foreign language)"), "");
}

#[test]
fn empty_stays_empty() {
    assert_eq!(clean_output("   \n  "), "");
}

#[test]
fn thread_count_is_bounded() {
    // No override set; the machine's parallelism unknown.
    let n = thread_count_from(None, 2, None);
    assert!((1..=8).contains(&n));
}

#[test]
fn audio_context_is_bounded_for_dictation_length() {
    assert_eq!(audio_context_for_samples(16_000), 150);
    assert_eq!(audio_context_for_samples(16_000 * 120), 1500);
    assert_eq!(audio_context_for_samples(16_000 * 600), 1500);
}

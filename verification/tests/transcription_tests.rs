use spiel::transcription::{
    run_transcription, EngineKind, MockEngine, TranscriptionEngine, TranscriptionRequest,
    TranscriptionResult, TranscriptionState, TranscriptionStatus, WhisperConfig,
};
use spiel::transcription_openai::{OpenAiTranscriptionEngine, SendFailure, UploadReply};
use spiel::transcription_whisper::{LocalWhisperEngine, ProcessRun, WhisperProbes};

fn request(path: &str) -> TranscriptionRequest {
    TranscriptionRequest { audio_file_path: path.to_string(), engine: EngineKind::Mock }
}

#[test]
fn engine_kinds_and_defaults() {
    assert_eq!(EngineKind::OpenAi.label(), "OpenAI (cloud)");
    assert!(EngineKind::LocalWhisper.is_implemented());
    let info = EngineKind::all_info();
    assert_eq!(info.len(), 3);
    assert_eq!(info[1].kind, EngineKind::LocalWhisper);
    assert_eq!(info[1].label, "Local Whisper");
    let st = TranscriptionState::default();
    assert_eq!(st.status, TranscriptionStatus::Idle);
    assert_eq!(st.available_engines.len(), 3);
}

#[test]
fn mock_engine_estimates_duration() {
    let m = MockEngine;
    let r = m.transcribe_probed(&request("/tmp/a.wav"), true, 882_000, "t0".into()).unwrap();
    assert!(r.is_mock);
    assert_eq!(r.duration_ms, 10_000);
    assert_eq!(r.engine_name, "Mock Engine");
    assert!(r.raw_text.starts_with("This is a mock transcript"));
    assert_eq!(r.created_at, "t0");
    let e = m.transcribe_probed(&request("/tmp/a.wav"), false, 0, "t0".into()).unwrap_err();
    assert_eq!(e, "Audio file not found: /tmp/a.wav. Record audio first, then try transcribing.");
}

struct Fixed;

impl TranscriptionEngine for Fixed {
    fn transcribe(&self, request: &TranscriptionRequest) -> Result<TranscriptionResult, String> {
        Err(format!("no engine for {}", request.audio_file_path))
    }

    fn name(&self) -> &str {
        "fixed"
    }

    fn kind(&self) -> EngineKind {
        EngineKind::Mock
    }
}

#[test]
fn run_transcription_hands_the_request_to_the_engine() {
    assert_eq!(run_transcription(&Fixed, &request("x")).unwrap_err(), "no engine for x");
}

#[test]
fn whisper_config_validation_order() {
    let mut c = WhisperConfig::default();
    assert!(c.validate(true, true, true, true).unwrap_err().starts_with("Whisper binary path is not configured"));
    c.binary_path = "/usr/bin/whisper".into();
    assert_eq!(
        c.validate(false, false, true, true).unwrap_err(),
        "Whisper binary not found at: /usr/bin/whisper. Please verify the path."
    );
    assert_eq!(c.validate(true, false, true, true).unwrap_err(), "Whisper binary path is not a file: /usr/bin/whisper");
    assert!(c.validate(true, true, true, true).unwrap_err().starts_with("Whisper model path is not configured"));
    c.model_path = "/m/ggml-base.en.bin".into();
    assert_eq!(
        c.validate(true, true, false, true).unwrap_err(),
        "Whisper model not found at: /m/ggml-base.en.bin. Please verify the path."
    );
    assert_eq!(
        c.validate(true, true, true, false).unwrap_err(),
        "Whisper model path is not a file: /m/ggml-base.en.bin"
    );
    assert!(c.validate(true, true, true, true).is_ok());
}

fn whisper_engine(lang: Option<&str>) -> LocalWhisperEngine {
    LocalWhisperEngine::new(WhisperConfig {
        binary_path: "/usr/bin/whisper".into(),
        model_path: "/models/ggml-base.en.bin".into(),
        language: lang.map(|l| l.to_string()),
    })
}

#[test]
fn whisper_arguments() {
    let e = whisper_engine(Some("  de "));
    assert_eq!(
        LocalWhisperEngine::build_args("/a.wav", &e.config),
        vec!["-m", "/models/ggml-base.en.bin", "-f", "/a.wav", "--output-txt", "--no-timestamps", "-l", "de"]
    );
    let e = whisper_engine(Some("   "));
    assert_eq!(LocalWhisperEngine::build_args("/a.wav", &e.config).len(), 6);
    let probes = WhisperProbes { binary_exists: true, binary_is_file: true, model_exists: true, model_is_file: true, audio_exists: false };
    assert_eq!(e.prepare(&request("/a.wav"), probes).unwrap_err(), "Audio file not found: /a.wav. Record audio first.");
    let probes = WhisperProbes { audio_exists: true, ..probes };
    assert_eq!(e.prepare(&request("/a.wav"), probes).unwrap().len(), 6);
}

#[test]
fn whisper_run_outcomes() {
    let e = whisper_engine(None);
    let r = e.finish(
        &request("/a.wav"),
        ProcessRun::Finished { success: true, exit_code: Some(0), stdout: "  hello there \n".into(), stderr: String::new() },
        42,
        "t".into(),
    );
    let t = r.unwrap();
    assert_eq!(t.raw_text, "hello there");
    assert_eq!(t.engine_name, "Local Whisper (ggml-base.en.bin)");
    assert_eq!(t.duration_ms, 42);
    assert!(!t.is_mock);
    let r = e.finish(
        &request("/a.wav"),
        ProcessRun::Finished { success: false, exit_code: Some(-3), stdout: String::new(), stderr: " bad model ".into() },
        1,
        "t".into(),
    );
    assert_eq!(r.unwrap_err(), "Whisper process exited with code -3. Error: bad model");
    let r = e.finish(
        &request("/a.wav"),
        ProcessRun::Finished { success: false, exit_code: None, stdout: String::new(), stderr: String::new() },
        1,
        "t".into(),
    );
    assert_eq!(r.unwrap_err(), "Whisper process exited with code -1. Error: ");
    let r = e.finish(
        &request("/a.wav"),
        ProcessRun::Finished { success: true, exit_code: Some(0), stdout: " \n".into(), stderr: "quiet".into() },
        1,
        "t".into(),
    );
    assert_eq!(r.unwrap_err(), "Whisper produced no output. The audio may be silent or too short. Details: quiet");
    let r = e.finish(&request("/a.wav"), ProcessRun::SpawnFailed { error: "No such file".into() }, 1, "t".into());
    assert_eq!(
        r.unwrap_err(),
        "Failed to run whisper binary '/usr/bin/whisper': No such file. Is whisper.cpp installed and in your PATH?"
    );
}

#[test]
fn openai_transcription_decisions() {
    let e = OpenAiTranscriptionEngine::new("sk-x".into(), None);
    assert_eq!(e.model(), "whisper-1");
    assert_eq!(e.api_key(), "sk-x");
    let r = request("/rec/clip.wav");
    assert!(e.check_upload(&r, true, &Ok(1024)).is_ok());
    assert_eq!(
        e.check_upload(&r, true, &Ok(30 * 1024 * 1024)).unwrap_err(),
        "Audio file is too large for OpenAI transcription (30 MB). Maximum is 25 MB. Try a shorter recording."
    );
    assert!(e.check_upload(&r, true, &Ok(25 * 1024 * 1024)).is_ok());
    assert_eq!(e.check_upload(&r, false, &Ok(1)).unwrap_err(), "Audio file not found: /rec/clip.wav. Record audio first.");
    assert_eq!(OpenAiTranscriptionEngine::upload_name(&r), "clip.wav");
    assert_eq!(OpenAiTranscriptionEngine::upload_name(&request("/")), "recording.wav");
    let ok = e.finish(&r, UploadReply::Success { body: Ok("Hi there\n".into()) }, 5, "t".into()).unwrap();
    assert_eq!(ok.raw_text, "Hi there\n");
    assert_eq!(ok.engine_kind, EngineKind::OpenAi);
    assert_eq!(
        e.finish(&r, UploadReply::ErrorStatus { status: 401, body: None }, 5, "t".into()).unwrap_err(),
        "OpenAI API key is invalid or expired. Check your API key in Settings."
    );
    assert_eq!(
        e.finish(&r, UploadReply::ErrorStatus { status: 500, body: Some("oops".into()) }, 5, "t".into()).unwrap_err(),
        "OpenAI returned error 500: oops"
    );
    assert_eq!(
        e.finish(&r, UploadReply::ErrorStatus { status: 503, body: None }, 5, "t".into()).unwrap_err(),
        "OpenAI returned error 503: Unknown error"
    );
    assert_eq!(
        e.finish(&r, UploadReply::SendFailed { failure: SendFailure::Other, error: "boom".into() }, 5, "t".into())
            .unwrap_err(),
        "OpenAI request failed: boom"
    );
    assert!(e.finish(&r, UploadReply::Success { body: Ok("  ".into()) }, 5, "t".into()).unwrap_err().starts_with("OpenAI returned an empty transcript"));
}

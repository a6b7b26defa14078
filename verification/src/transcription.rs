//! The transcription pipeline: engine kinds, requests and results, the engine
//! trait, and the decisions the engines make around their outside work.
use vstd::prelude::*;
use crate::text::{owned, trim};

verus! {

/// Kinds of transcription engines.
#[derive(Debug, Clone, Copy, PartialEq, Eq, Structural)]
pub enum EngineKind {
    /// Returns labeled placeholder text
    Mock,
    /// Local whisper.cpp binary
    LocalWhisper,
    /// OpenAI cloud transcription; optional, requires an API key
    OpenAi,
}

pub open spec fn engine_label(k: EngineKind) -> Seq<char> {
    match k {
        EngineKind::Mock => "Mock Engine"@,
        EngineKind::LocalWhisper => "Local Whisper"@,
        EngineKind::OpenAi => "OpenAI (cloud)"@,
    }
}

/// Every engine kind is implemented.
pub open spec fn engine_implemented(k: EngineKind) -> bool {
    k is Mock || k is LocalWhisper || k is OpenAi
}

impl EngineKind {
    /// Whether this engine is currently implemented.
    pub fn is_implemented(&self) -> (r: bool)
        ensures
            r == engine_implemented(*self),
    {
        match self {
            EngineKind::Mock | EngineKind::LocalWhisper | EngineKind::OpenAi => true,
        }
    }

    /// Human-readable label.
    pub fn label(&self) -> (r: &'static str)
        ensures
            r@ == engine_label(*self),
    {
        match self {
            EngineKind::Mock => "Mock Engine",
            EngineKind::LocalWhisper => "Local Whisper",
            EngineKind::OpenAi => "OpenAI (cloud)",
        }
    }

    /// Descriptors of every engine kind, in order.
    pub fn all_info() -> (r: Vec<EngineInfo>)
        ensures
            r@.len() == 3,
            describes_engine(r@[0], EngineKind::Mock),
            describes_engine(r@[1], EngineKind::LocalWhisper),
            describes_engine(r@[2], EngineKind::OpenAi),
    {
        vec![
            EngineInfo { kind: EngineKind::Mock, label: owned("Mock Engine"), implemented: true },
            EngineInfo {
                kind: EngineKind::LocalWhisper,
                label: owned("Local Whisper"),
                implemented: true,
            },
            EngineInfo { kind: EngineKind::OpenAi, label: owned("OpenAI (cloud)"), implemented: true },
        ]
    }
}

/// Engine descriptor for the frontend.
#[derive(Debug, Clone)]
pub struct EngineInfo {
    pub kind: EngineKind,
    pub label: String,
    pub implemented: bool,
}

pub open spec fn describes_engine(i: EngineInfo, k: EngineKind) -> bool {
    &&& i.kind == k
    &&& i.label@ == engine_label(k)
    &&& i.implemented == engine_implemented(k)
}

/// Current transcription status.
#[derive(Debug, Clone, Copy, PartialEq, Eq, Structural)]
pub enum TranscriptionStatus {
    Idle,
    Pending,
    Transcribing,
    Complete,
    Error,
}

/// Request to transcribe an audio file.
#[derive(Debug, Clone)]
pub struct TranscriptionRequest {
    pub audio_file_path: String,
    pub engine: EngineKind,
}

/// Result of a transcription.
#[derive(Debug, Clone)]
pub struct TranscriptionResult {
    pub raw_text: String,
    pub engine_name: String,
    pub engine_kind: EngineKind,
    pub audio_file_path: String,
    pub duration_ms: u64,
    pub is_mock: bool,
    pub created_at: String,
    pub error: Option<String>,
}

/// Status snapshot for the frontend.
#[derive(Debug, Clone)]
pub struct TranscriptionState {
    pub status: TranscriptionStatus,
    pub last_result: Option<TranscriptionResult>,
    pub error: Option<String>,
    pub available_engines: Vec<EngineInfo>,
}

impl Default for TranscriptionState {
    fn default() -> (r: Self)
        ensures
            r.status == TranscriptionStatus::Idle,
            r.last_result is None,
            r.error is None,
            r.available_engines@.len() == 3,
            describes_engine(r.available_engines@[0], EngineKind::Mock),
            describes_engine(r.available_engines@[1], EngineKind::LocalWhisper),
            describes_engine(r.available_engines@[2], EngineKind::OpenAi),
    {
        TranscriptionState {
            status: TranscriptionStatus::Idle,
            last_result: None,
            error: None,
            available_engines: EngineKind::all_info(),
        }
    }
}

/// A transcription engine. The engines that do file, process or network work
/// implement it around the verified decisions below.
pub trait TranscriptionEngine {
    /// Transcribe the given audio file.
    fn transcribe(&self, request: &TranscriptionRequest) -> Result<TranscriptionResult, String>;

    /// Human-readable name of this engine.
    fn name(&self) -> &str;

    /// The kind of this engine.
    fn kind(&self) -> EngineKind;
}

/// The message for an engine kind that is not implemented.
pub open spec fn not_implemented_message(k: EngineKind) -> Seq<char> {
    "The '"@ + engine_label(k)
        + "' engine is not implemented yet. Mock and Local Whisper engines are available in Phase 6."@
}

/// Run `request` through `engine`, refusing engine kinds that are not implemented;
/// otherwise the result is what `engine.transcribe(request)` returned.
pub fn run_transcription<E: TranscriptionEngine>(engine: &E, request: &TranscriptionRequest) -> (r:
    Result<TranscriptionResult, String>)
    ensures
        !engine_implemented(request.engine) ==> (r matches Err(m) && m@ == not_implemented_message(
            request.engine,
        )),
        engine_implemented(request.engine) ==> call_ensures(E::transcribe, (engine, request), r),
{
    if !request.engine.is_implemented() {
        let m = String::from_str("The '").concat(request.engine.label()).concat(
            "' engine is not implemented yet. Mock and Local Whisper engines are available in Phase 6.",
        );
        return Err(m);
    }
    engine.transcribe(request)
}

/// The placeholder transcript of the mock engine.
pub open spec fn mock_transcript() -> Seq<char> {
    "This is a mock transcript generated by Spiel's Phase 5 transcription abstraction. Real speech-to-text is not implemented yet.\n\nWhen real transcription engines are added (whisper.cpp, cloud), your actual spoken words will appear here."@
}

/// Duration estimate from the WAV size: 16-bit mono at 44.1 kHz is 88.2 bytes
/// per millisecond.
pub open spec fn estimated_ms(size_bytes: u64) -> nat {
    (size_bytes as nat * 5) / 441
}

/// The mock engine: no audio is read and no service is called.
pub struct MockEngine;

impl MockEngine {
    pub fn name(&self) -> (r: &'static str)
        ensures
            r@ == "Mock Engine"@,
    {
        "Mock Engine"
    }

    pub fn kind(&self) -> (r: EngineKind)
        ensures
            r == EngineKind::Mock,
    {
        EngineKind::Mock
    }

    /// The mock transcription of `request`, given whether its audio file
    /// exists, the file's size and the creation time stamp.
    pub fn transcribe_probed(
        &self,
        request: &TranscriptionRequest,
        file_exists: bool,
        size_bytes: u64,
        created_at: String,
    ) -> (r: Result<TranscriptionResult, String>)
        ensures
            !file_exists ==> (r matches Err(m) && m@ == "Audio file not found: "@
                + request.audio_file_path@ + ". Record audio first, then try transcribing."@),
            file_exists ==> (r matches Ok(t) && t.raw_text@ == mock_transcript() && t.engine_name@
                == "Mock Engine"@ && t.engine_kind == EngineKind::Mock && t.audio_file_path@
                == request.audio_file_path@ && t.duration_ms == estimated_ms(size_bytes)
                && t.is_mock && t.created_at == created_at && t.error is None),
    {
        if !file_exists {
            return Err(
                String::from_str("Audio file not found: ").concat(
                    request.audio_file_path.as_str(),
                ).concat(". Record audio first, then try transcribing."),
            );
        }
        let estimated = ((size_bytes as u128 * 5) / 441) as u64;
        Ok(
            TranscriptionResult {
                raw_text: owned(
                    "This is a mock transcript generated by Spiel's Phase 5 transcription abstraction. Real speech-to-text is not implemented yet.\n\nWhen real transcription engines are added (whisper.cpp, cloud), your actual spoken words will appear here.",
                ),
                engine_name: owned(self.name()),
                engine_kind: self.kind(),
                audio_file_path: request.audio_file_path.clone(),
                duration_ms: estimated,
                is_mock: true,
                created_at,
                error: None,
            },
        )
    }
}

/// Configuration for the local Whisper engine.
#[derive(Debug, Clone)]
pub struct WhisperConfig {
    /// Path to the whisper.cpp binary
    pub binary_path: String,
    /// Path to the GGML model file
    pub model_path: String,
    /// Optional language code (e.g., "en")
    pub language: Option<String>,
}

impl Default for WhisperConfig {
    fn default() -> (r: Self)
        ensures
            r.binary_path@ == Seq::<char>::empty(),
            r.model_path@ == Seq::<char>::empty(),
            r.language is None,
    {
        WhisperConfig { binary_path: String::new(), model_path: String::new(), language: None }
    }
}

/// Why a Whisper configuration is refused, given what was found on disk.
pub open spec fn whisper_config_error(
    c: WhisperConfig,
    binary_exists: bool,
    binary_is_file: bool,
    model_exists: bool,
    model_is_file: bool,
) -> Option<Seq<char>> {
    if trim(c.binary_path@).len() == 0 {
        Some(
            "Whisper binary path is not configured. Set the path to your local whisper.cpp binary."@,
        )
    } else if !binary_exists {
        Some("Whisper binary not found at: "@ + c.binary_path@ + ". Please verify the path."@)
    } else if !binary_is_file {
        Some("Whisper binary path is not a file: "@ + c.binary_path@)
    } else if trim(c.model_path@).len() == 0 {
        Some(
            "Whisper model path is not configured. Set the path to your GGML model file (e.g., ggml-base.en.bin)."@,
        )
    } else if !model_exists {
        Some("Whisper model not found at: "@ + c.model_path@ + ". Please verify the path."@)
    } else if !model_is_file {
        Some("Whisper model path is not a file: "@ + c.model_path@)
    } else {
        None
    }
}

impl WhisperConfig {
    /// Validate the configured paths, given whether the binary and the model
    /// exist and are files.
    pub fn validate(
        &self,
        binary_exists: bool,
        binary_is_file: bool,
        model_exists: bool,
        model_is_file: bool,
    ) -> (r: Result<(), String>)
        ensures
            match whisper_config_error(*self, binary_exists, binary_is_file, model_exists, model_is_file) {
                Some(m) => r matches Err(e) && e@ == m,
                None => r is Ok,
            },
    {
        if crate::text::str_is_blank(self.binary_path.as_str()) {
            return Err(
                String::from_str(
                    "Whisper binary path is not configured. Set the path to your local whisper.cpp binary.",
                ),
            );
        }
        if !binary_exists {
            return Err(
                String::from_str("Whisper binary not found at: ").concat(
                    self.binary_path.as_str(),
                ).concat(". Please verify the path."),
            );
        }
        if !binary_is_file {
            return Err(
                String::from_str("Whisper binary path is not a file: ").concat(
                    self.binary_path.as_str(),
                ),
            );
        }
        if crate::text::str_is_blank(self.model_path.as_str()) {
            return Err(
                String::from_str(
                    "Whisper model path is not configured. Set the path to your GGML model file (e.g., ggml-base.en.bin).",
                ),
            );
        }
        if !model_exists {
            return Err(
                String::from_str("Whisper model not found at: ").concat(
                    self.model_path.as_str(),
                ).concat(". Please verify the path."),
            );
        }
        if !model_is_file {
            return Err(
                String::from_str("Whisper model path is not a file: ").concat(
                    self.model_path.as_str(),
                ),
            );
        }
        Ok(())
    }
}

/// What `Path::file_name` gives for `path`, as text.
pub uninterp spec fn path_file_name(path: Seq<char>) -> Option<Seq<char>>;

/// `Path::new(path).file_name()` as a string, when it is valid Unicode.
#[verifier::external_body]
pub(crate) fn file_name_of(path: &str) -> (r: Option<String>)
    ensures
        match r {
            Some(n) => path_file_name(path@) == Some(n@),
            None => path_file_name(path@) is None,
        },
{
    std::path::Path::new(path).file_name().and_then(|n| n.to_str()).map(|n| n.to_string())
}

} // verus!

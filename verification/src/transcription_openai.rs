//! The OpenAI transcription engine: a WAV file sent to OpenAI's
//! speech-to-text API. This module decides whether a file may be sent, what is
//! sent, and what the reply means; the caller does the file and network work.
use vstd::prelude::*;
use crate::text::{dec_string, owned, push_decimal, string_of, trim};
use crate::transcription::{
    file_name_of, path_file_name, EngineKind, TranscriptionRequest, TranscriptionResult,
};

verus! {

/// Default OpenAI transcription model.
pub const DEFAULT_OPENAI_MODEL: &'static str = "whisper-1";

/// OpenAI transcription API endpoint.
pub const OPENAI_TRANSCRIPTION_URL: &'static str = "https://api.openai.com/v1/audio/transcriptions";

/// Largest file OpenAI accepts: 25 MiB.
pub const MAX_UPLOAD_BYTES: u64 = 26_214_400;

/// How sending a request failed.
#[derive(Debug, Clone, Copy, PartialEq, Eq, Structural)]
pub enum SendFailure {
    Timeout,
    Connect,
    Other,
}

/// How the upload went, from reading the file to reading the reply.
#[derive(Debug)]
pub enum UploadReply {
    /// The audio file could not be read.
    ReadFailed { error: String },
    /// The multipart part could not be built.
    PartFailed { error: String },
    /// The HTTP client could not be built.
    ClientFailed { error: String },
    /// The request could not be sent.
    SendFailed { failure: SendFailure, error: String },
    /// A status other than success, with the body when it could be read.
    ErrorStatus { status: u16, body: Option<String> },
    /// Success: the body text, or why it could not be read.
    Success { body: Result<String, String> },
}

/// OpenAI-powered transcription engine. Requires explicit opt-in: local-only
/// mode off and an API key configured.
pub struct OpenAiTranscriptionEngine {
    api_key: String,
    model: String,
}

/// Why a file may not be uploaded, given whether it exists and its size (or
/// why its size could not be read).
pub open spec fn upload_error(
    request: TranscriptionRequest,
    exists: bool,
    size: Result<u64, String>,
) -> Option<Seq<char>> {
    if !exists {
        Some("Audio file not found: "@ + request.audio_file_path@ + ". Record audio first."@)
    } else {
        match size {
            Err(e) => Some(
                "Cannot read audio file metadata: "@ + e@
                    + ". The file may have been moved or deleted."@,
            ),
            Ok(n) => if n > MAX_UPLOAD_BYTES {
                Some(
                    "Audio file is too large for OpenAI transcription ("@ + dec_string(
                        (n / 1_048_576) as nat,
                    )
                        + " MB). Maximum is 25 MB. Try a shorter recording."@,
                )
            } else {
                None
            },
        }
    }
}

/// The name the file is uploaded under.
pub open spec fn upload_file_name(path: Seq<char>) -> Seq<char> {
    match path_file_name(path) {
        Some(n) => n,
        None => "recording.wav"@,
    }
}

/// The message for a request that could not be sent.
pub open spec fn send_failure_message(f: SendFailure, error: Seq<char>) -> Seq<char> {
    match f {
        SendFailure::Timeout => "OpenAI request timed out after 120 seconds. Check your network connection or try a shorter recording."@,
        SendFailure::Connect => "Cannot connect to OpenAI API. Check your internet connection."@,
        SendFailure::Other => "OpenAI request failed: "@ + error,
    }
}

/// What the upload's outcome means.
pub open spec fn upload_outcome(
    request: TranscriptionRequest,
    reply: UploadReply,
    duration_ms: u64,
    created_at: String,
    r: Result<TranscriptionResult, String>,
) -> bool {
    match reply {
        UploadReply::ReadFailed { error } => r matches Err(m) && m@ == "Failed to read audio file: "@
            + error@,
        UploadReply::PartFailed { error } => r matches Err(m) && m@ == "Failed to build request: "@
            + error@,
        UploadReply::ClientFailed { error } => r matches Err(m) && m@
            == "Failed to create HTTP client: "@ + error@,
        UploadReply::SendFailed { failure, error } => r matches Err(m) && m@ == send_failure_message(
            failure,
            error@,
        ),
        UploadReply::ErrorStatus { status, body } => r matches Err(m) && m@ == if status == 401 {
            "OpenAI API key is invalid or expired. Check your API key in Settings."@
        } else if status == 429 {
            "OpenAI rate limit reached. Wait a moment and try again."@
        } else {
            "OpenAI returned error "@ + dec_string(status as nat) + ": "@ + match body {
                Some(b) => b@,
                None => "Unknown error"@,
            }
        },
        UploadReply::Success { body } => match body {
            Err(e) => r matches Err(m) && m@ == "Failed to read OpenAI response: "@ + e@,
            Ok(text) => if trim(text@).len() == 0 {
                r matches Err(m) && m@
                    == "OpenAI returned an empty transcript. The audio may have no detectable speech."@
            } else {
                r matches Ok(t) && t.raw_text == text && t.engine_name@ == "OpenAI Transcription"@
                    && t.engine_kind == EngineKind::OpenAi && t.audio_file_path@
                    == request.audio_file_path@ && t.duration_ms == duration_ms && !t.is_mock
                    && t.created_at == created_at && t.error is None
            },
        },
    }
}

impl OpenAiTranscriptionEngine {
    /// Create a new engine; the model defaults to `whisper-1`.
    pub fn new(api_key: String, model: Option<String>) -> (r: Self)
        ensures
            r.key()@ == api_key@,
            r.model_name()@ == match model {
                Some(m) => m@,
                None => "whisper-1"@,
            },
    {
        let model = match model {
            Some(m) => m,
            None => owned(DEFAULT_OPENAI_MODEL),
        };
        OpenAiTranscriptionEngine { api_key, model }
    }

    pub closed spec fn key(&self) -> String {
        self.api_key
    }

    pub closed spec fn model_name(&self) -> String {
        self.model
    }

    /// The API key, for the authorization header.
    pub fn api_key(&self) -> (r: &str)
        ensures
            r@ == self.key()@,
    {
        self.api_key.as_str()
    }

    /// The model named in the form.
    pub fn model(&self) -> (r: &str)
        ensures
            r@ == self.model_name()@,
    {
        self.model.as_str()
    }

    pub fn name(&self) -> (r: &'static str)
        ensures
            r@ == "OpenAI Transcription"@,
    {
        "OpenAI Transcription"
    }

    pub fn kind(&self) -> (r: EngineKind)
        ensures
            r == EngineKind::OpenAi,
    {
        EngineKind::OpenAi
    }

    /// Whether the file may be uploaded, given whether it exists and its size
    /// (or why the size could not be read).
    pub fn check_upload(&self, request: &TranscriptionRequest, exists: bool, size: &Result<u64, String>) -> (r:
        Result<(), String>)
        ensures
            match upload_error(*request, exists, *size) {
                Some(m) => r matches Err(e) && e@ == m,
                None => r is Ok,
            },
    {
        if !exists {
            return Err(
                String::from_str("Audio file not found: ").concat(
                    request.audio_file_path.as_str(),
                ).concat(". Record audio first."),
            );
        }
        match size {
            Err(e) => Err(
                String::from_str("Cannot read audio file metadata: ").concat(e.as_str()).concat(
                    ". The file may have been moved or deleted.",
                ),
            ),
            Ok(n) => {
                if *n > MAX_UPLOAD_BYTES {
                    let mut out = crate::text::chars_of(
                        "Audio file is too large for OpenAI transcription (",
                    );
                    push_decimal(&mut out, *n / 1_048_576);
                    crate::text::append_str(
                        &mut out,
                        " MB). Maximum is 25 MB. Try a shorter recording.",
                    );
                    Err(string_of(&out))
                } else {
                    Ok(())
                }
            },
        }
    }

    /// The file name the audio is uploaded under.
    pub fn upload_name(request: &TranscriptionRequest) -> (r: String)
        ensures
            r@ == upload_file_name(request.audio_file_path@),
    {
        match file_name_of(request.audio_file_path.as_str()) {
            Some(n) => n,
            None => owned("recording.wav"),
        }
    }

    /// The transcript, or why there is none, from how the upload went.
    pub fn finish(
        &self,
        request: &TranscriptionRequest,
        reply: UploadReply,
        duration_ms: u64,
        created_at: String,
    ) -> (r: Result<TranscriptionResult, String>)
        ensures
            upload_outcome(*request, reply, duration_ms, created_at, r),
    {
        match reply {
            UploadReply::ReadFailed { error } => Err(
                String::from_str("Failed to read audio file: ").concat(error.as_str()),
            ),
            UploadReply::PartFailed { error } => Err(
                String::from_str("Failed to build request: ").concat(error.as_str()),
            ),
            UploadReply::ClientFailed { error } => Err(
                String::from_str("Failed to create HTTP client: ").concat(error.as_str()),
            ),
            UploadReply::SendFailed { failure, error } => Err(
                match failure {
                    SendFailure::Timeout => owned(
                        "OpenAI request timed out after 120 seconds. Check your network connection or try a shorter recording.",
                    ),
                    SendFailure::Connect => owned(
                        "Cannot connect to OpenAI API. Check your internet connection.",
                    ),
                    SendFailure::Other => String::from_str("OpenAI request failed: ").concat(
                        error.as_str(),
                    ),
                },
            ),
            UploadReply::ErrorStatus { status, body } => {
                if status == 401 {
                    return Err(
                        owned(
                            "OpenAI API key is invalid or expired. Check your API key in Settings.",
                        ),
                    );
                }
                if status == 429 {
                    return Err(owned("OpenAI rate limit reached. Wait a moment and try again."));
                }
                let mut out = crate::text::chars_of("OpenAI returned error ");
                push_decimal(&mut out, status as u64);
                crate::text::append_str(&mut out, ": ");
                match &body {
                    Some(b) => crate::text::append_str(&mut out, b.as_str()),
                    None => crate::text::append_str(&mut out, "Unknown error"),
                }
                Err(string_of(&out))
            },
            UploadReply::Success { body } => match body {
                Err(e) => Err(
                    String::from_str("Failed to read OpenAI response: ").concat(e.as_str()),
                ),
                Ok(text) => {
                    if crate::text::str_is_blank(text.as_str()) {
                        return Err(
                            owned(
                                "OpenAI returned an empty transcript. The audio may have no detectable speech.",
                            ),
                        );
                    }
                    Ok(
                        TranscriptionResult {
                            raw_text: text,
                            engine_name: owned(self.name()),
                            engine_kind: self.kind(),
                            audio_file_path: request.audio_file_path.clone(),
                            duration_ms,
                            is_mock: false,
                            created_at,
                            error: None,
                        },
                    )
                },
            },
        }
    }
}

} // verus!

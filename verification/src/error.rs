//! The one error type of the backend, with a stable machine code per kind
//! and the message that the user sees.
use vstd::prelude::*;

verus! {

/// Every fallible operation of the backend reports one of these.
#[derive(Debug, Clone)]
pub enum SpielError {
    NoInputDevice,
    Audio(String),
    ModelMissing,
    Model(String),
    Transcription(String),
    Insertion(String),
    Download(String),
    Config(String),
    Other(String),
}

/// The machine code of each kind of error.
pub open spec fn error_code(e: SpielError) -> Seq<char> {
    match e {
        SpielError::NoInputDevice => "no_input_device"@,
        SpielError::Audio(_) => "audio"@,
        SpielError::ModelMissing => "model_missing"@,
        SpielError::Model(_) => "model"@,
        SpielError::Transcription(_) => "transcription"@,
        SpielError::Insertion(_) => "insertion"@,
        SpielError::Download(_) => "download"@,
        SpielError::Config(_) => "config"@,
        SpielError::Other(_) => "other"@,
    }
}

/// The message shown to the user for each error.
pub open spec fn error_message(e: SpielError) -> Seq<char> {
    match e {
        SpielError::NoInputDevice => "No microphone found. Connect an input device and try again."@,
        SpielError::Audio(s) => "Microphone access failed: "@ + s@
            + ". Grant microphone permission in System Settings → Privacy & Security → Microphone."@,
        SpielError::ModelMissing => "The speech model isn't ready yet. Download it from Spiel's settings window."@,
        SpielError::Model(s) => "Speech model error: "@ + s@,
        SpielError::Transcription(s) => "Transcription failed: "@ + s@,
        SpielError::Insertion(s) => "Couldn't insert text: "@ + s@,
        SpielError::Download(s) => "Download failed: "@ + s@,
        SpielError::Config(s) => "Settings error: "@ + s@,
        SpielError::Other(s) => s@,
    }
}

impl SpielError {
    /// A stable machine code the frontend can branch on without parsing prose.
    pub fn code(&self) -> (r: &'static str)
        ensures
            r@ == error_code(*self),
    {
        match self {
            SpielError::NoInputDevice => "no_input_device",
            SpielError::Audio(_) => "audio",
            SpielError::ModelMissing => "model_missing",
            SpielError::Model(_) => "model",
            SpielError::Transcription(_) => "transcription",
            SpielError::Insertion(_) => "insertion",
            SpielError::Download(_) => "download",
            SpielError::Config(_) => "config",
            SpielError::Other(_) => "other",
        }
    }

    /// The human-readable message of this error.
    pub fn message(&self) -> (r: String)
        ensures
            r@ == error_message(*self),
    {
        match self {
            SpielError::NoInputDevice => String::from_str(
                "No microphone found. Connect an input device and try again.",
            ),
            SpielError::Audio(s) => String::from_str("Microphone access failed: ").concat(
                s.as_str(),
            ).concat(
                ". Grant microphone permission in System Settings → Privacy & Security → Microphone.",
            ),
            SpielError::ModelMissing => String::from_str(
                "The speech model isn't ready yet. Download it from Spiel's settings window.",
            ),
            SpielError::Model(s) => String::from_str("Speech model error: ").concat(s.as_str()),
            SpielError::Transcription(s) => String::from_str("Transcription failed: ").concat(
                s.as_str(),
            ),
            SpielError::Insertion(s) => String::from_str("Couldn't insert text: ").concat(
                s.as_str(),
            ),
            SpielError::Download(s) => String::from_str("Download failed: ").concat(s.as_str()),
            SpielError::Config(s) => String::from_str("Settings error: ").concat(s.as_str()),
            SpielError::Other(s) => String::from_str(s.as_str()),
        }
    }
}

/// Command-layer helper: the human message of a typed error.
pub fn to_command_error(e: SpielError) -> (r: String)
    ensures
        r@ == error_message(e),
{
    e.message()
}

} // verus!

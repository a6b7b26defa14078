//! The cleanup pipeline: a raw transcript and a text mode go through a
//! cleanup provider and come out as final text.
use vstd::prelude::*;
use crate::modes::TextModeKind;
pub use crate::text::string_views;

verus! {

/// Kinds of cleanup providers available or planned.
#[derive(Debug, Clone, Copy, PartialEq, Eq, Structural)]
pub enum CleanupProviderKind {
    /// Basic deterministic cleanup — always available, local only
    Basic,
    /// Mock AI cleanup — simulates future AI behavior, clearly labeled
    MockAi,
    /// OpenAI-powered cleanup — optional, requires API key
    OpenAi,
    /// Local LLM cleanup — planned, not implemented
    LocalLlmPlanned,
}

pub open spec fn provider_implemented(k: CleanupProviderKind) -> bool {
    k is Basic || k is MockAi || k is OpenAi
}

pub open spec fn provider_label(k: CleanupProviderKind) -> Seq<char> {
    match k {
        CleanupProviderKind::Basic => "Basic (deterministic, local)"@,
        CleanupProviderKind::MockAi => "Mock AI (testing only)"@,
        CleanupProviderKind::OpenAi => "OpenAI (cloud)"@,
        CleanupProviderKind::LocalLlmPlanned => "Local LLM (planned — not available)"@,
    }
}

pub open spec fn provider_description(k: CleanupProviderKind) -> Seq<char> {
    match k {
        CleanupProviderKind::Basic => "Deterministic text cleanup. No AI. Runs entirely on your device."@,
        CleanupProviderKind::MockAi => "Simulates future AI cleanup for testing. Clearly labeled as mock. No real AI."@,
        CleanupProviderKind::OpenAi => "Cloud AI cleanup via OpenAI API. Sends text to api.openai.com. Requires API key."@,
        CleanupProviderKind::LocalLlmPlanned => "Local AI cleanup via on-device LLM. Not implemented yet."@,
    }
}

pub open spec fn all_providers_spec() -> Seq<CleanupProviderKind> {
    seq![
        CleanupProviderKind::Basic,
        CleanupProviderKind::MockAi,
        CleanupProviderKind::OpenAi,
        CleanupProviderKind::LocalLlmPlanned,
    ]
}

impl CleanupProviderKind {
    /// Whether this provider is currently implemented.
    pub fn is_implemented(&self) -> (r: bool)
        ensures
            r == provider_implemented(*self),
    {
        match self {
            CleanupProviderKind::Basic | CleanupProviderKind::MockAi | CleanupProviderKind::OpenAi => true,
            CleanupProviderKind::LocalLlmPlanned => false,
        }
    }

    /// Human-readable label.
    pub fn label(&self) -> (r: &'static str)
        ensures
            r@ == provider_label(*self),
    {
        match self {
            CleanupProviderKind::Basic => "Basic (deterministic, local)",
            CleanupProviderKind::MockAi => "Mock AI (testing only)",
            CleanupProviderKind::OpenAi => "OpenAI (cloud)",
            CleanupProviderKind::LocalLlmPlanned => "Local LLM (planned — not available)",
        }
    }

    /// Short description.
    pub fn description(&self) -> (r: &'static str)
        ensures
            r@ == provider_description(*self),
    {
        match self {
            CleanupProviderKind::Basic => "Deterministic text cleanup. No AI. Runs entirely on your device.",
            CleanupProviderKind::MockAi => "Simulates future AI cleanup for testing. Clearly labeled as mock. No real AI.",
            CleanupProviderKind::OpenAi => "Cloud AI cleanup via OpenAI API. Sends text to api.openai.com. Requires API key.",
            CleanupProviderKind::LocalLlmPlanned => "Local AI cleanup via on-device LLM. Not implemented yet.",
        }
    }

    /// All available providers.
    pub fn all_providers() -> (r: Vec<CleanupProviderKind>)
        ensures
            r@ == all_providers_spec(),
    {
        let r = vec![
            CleanupProviderKind::Basic,
            CleanupProviderKind::MockAi,
            CleanupProviderKind::OpenAi,
            CleanupProviderKind::LocalLlmPlanned,
        ];
        assert(r@ =~= all_providers_spec());
        r
    }
}

/// Available provider descriptors for the frontend.
#[derive(Debug, Clone)]
pub struct CleanupProviderInfo {
    pub kind: CleanupProviderKind,
    pub label: String,
    pub description: String,
    pub implemented: bool,
}

/// The descriptor of provider `k`.
pub open spec fn describes_provider(i: CleanupProviderInfo, k: CleanupProviderKind) -> bool {
    &&& i.kind == k
    &&& i.label@ == provider_label(k)
    &&& i.description@ == provider_description(k)
    &&& i.implemented == provider_implemented(k)
}

impl CleanupProviderInfo {
    /// Create info from a provider kind.
    pub fn from_kind(kind: &CleanupProviderKind) -> (r: Self)
        ensures
            describes_provider(r, *kind),
    {
        CleanupProviderInfo {
            kind: *kind,
            label: String::from_str(kind.label()),
            description: String::from_str(kind.description()),
            implemented: kind.is_implemented(),
        }
    }

    /// All provider infos, one per provider in order.
    pub fn all_infos() -> (r: Vec<CleanupProviderInfo>)
        ensures
            r.len() == all_providers_spec().len(),
            forall|i: int|
                0 <= i < r.len() ==> describes_provider(#[trigger] r@[i], all_providers_spec()[i]),
    {
        let kinds = CleanupProviderKind::all_providers();
        let mut out: Vec<CleanupProviderInfo> = Vec::new();
        let mut i: usize = 0;
        while i < kinds.len()
            invariant
                i <= kinds.len(),
                kinds@ == all_providers_spec(),
                out.len() == i,
                forall|j: int|
                    0 <= j < i ==> describes_provider(#[trigger] out@[j], all_providers_spec()[j]),
            decreases kinds.len() - i,
        {
            out.push(CleanupProviderInfo::from_kind(&kinds[i]));
            i += 1;
        }
        out
    }
}

/// Request to clean up a raw transcript.
#[derive(Debug, Clone)]
pub struct CleanupRequest {
    /// The raw transcript text to process
    pub raw_text: String,
    /// The text mode to apply
    pub mode: TextModeKind,
    /// The cleanup provider to use
    pub provider: CleanupProviderKind,
    /// Optional transcription ID for traceability
    pub source_transcription_id: Option<String>,
    /// ISO 8601 timestamp when request was created
    pub created_at: String,
}

/// Result of a cleanup operation.
#[derive(Debug, Clone)]
pub struct CleanupResult {
    /// The original raw text (trimmed)
    pub raw_text: String,
    /// The cleaned/prepared final text
    pub final_text: String,
    /// The mode that was applied
    pub mode: TextModeKind,
    /// The provider that processed it
    pub provider: CleanupProviderKind,
    /// Whether this result came from a mock provider
    pub is_mock: bool,
    /// Whether the text was actually changed
    pub changed: bool,
    /// ISO 8601 timestamp when cleanup started
    pub created_at: String,
    /// ISO 8601 timestamp when cleanup completed
    pub completed_at: String,
    /// Time spent cleaning in milliseconds
    pub duration_ms: u64,
    /// Human-readable warnings
    pub warnings: Vec<String>,
    /// Error if cleanup failed (None on success)
    pub error: Option<CleanupError>,
}

/// Structured error from a cleanup operation.
#[derive(Debug, Clone)]
pub struct CleanupError {
    /// Machine-readable error code
    pub code: String,
    /// Human-readable error message
    pub message: String,
    /// Whether this error is recoverable (user can fix input and retry)
    pub recoverable: bool,
    /// Additional details if safe to expose
    pub details: Option<String>,
}

/// Current cleanup status.
#[derive(Debug, Clone, Copy, PartialEq, Eq, Structural)]
pub enum CleanupStatus {
    Idle,
    WaitingForTranscript,
    Cleaning,
    Complete,
    Error,
    Canceled,
}

/// Application-level cleanup state.
#[derive(Debug, Clone)]
pub struct CleanupState {
    pub status: CleanupStatus,
    pub last_result: Option<CleanupResult>,
    pub error: Option<String>,
    pub selected_mode: Option<TextModeKind>,
    pub selected_provider: Option<CleanupProviderKind>,
}

impl Default for CleanupState {
    fn default() -> (r: Self)
        ensures
            r.status == CleanupStatus::Idle,
            r.last_result is None,
            r.error is None,
            r.selected_mode is None,
            r.selected_provider == Some(CleanupProviderKind::Basic),
    {
        CleanupState {
            status: CleanupStatus::Idle,
            last_result: None,
            error: None,
            selected_mode: None,
            selected_provider: Some(CleanupProviderKind::Basic),
        }
    }
}

/// Common interface of cleanup engines.
pub trait CleanupProvider {
    /// Clean up raw text using the requested mode.
    fn cleanup(&self, request: &CleanupRequest) -> Result<CleanupResult, CleanupError>;

    /// Human-readable name of this provider.
    fn name(&self) -> &str;

    /// The kind of this provider.
    fn kind(&self) -> CleanupProviderKind;

    /// Whether this provider is a mock.
    fn is_mock(&self) -> bool;
}


} // verus!

//! State of the settings window: hotkey, recording, and the capabilities the
//! app reports.
use vstd::prelude::*;
use crate::text::owned;

verus! {

/// The state of one capability of the app.
#[derive(Debug, Clone)]
pub struct CapabilityStatus {
    pub name: String,
    /// "implemented", "planned" or "placeholder"
    pub status: String,
}

/// Hotkey registration and status information.
#[derive(Debug, Clone)]
pub struct HotkeyState {
    pub shortcut: String,
    pub registered: bool,
    pub error: Option<String>,
    pub last_triggered: Option<String>,
    pub trigger_count: u32,
}

impl Default for HotkeyState {
    fn default() -> (r: Self)
        ensures
            r.shortcut@ == "Cmd+Shift+S"@,
            !r.registered,
            r.error is None,
            r.last_triggered is None,
            r.trigger_count == 0,
    {
        HotkeyState {
            shortcut: owned("Cmd+Shift+S"),
            registered: false,
            error: None,
            last_triggered: None,
            trigger_count: 0,
        }
    }
}

#[derive(Debug, Clone, Copy, PartialEq, Eq, Structural)]
pub enum RecordingState {
    Idle,
    Recording,
    Stopping,
    Complete,
    Error,
}

#[derive(Debug, Clone)]
pub struct RecordingStatus {
    pub state: RecordingState,
    pub elapsed_ms: u64,
    pub started_at: Option<String>,
    pub last_recording: Option<LastRecording>,
    pub error: Option<String>,
}

#[derive(Debug, Clone)]
pub struct LastRecording {
    pub file_path: String,
    pub filename: String,
    pub duration_ms: u64,
    pub sample_rate: u32,
    pub channels: u16,
    pub size_bytes: u64,
    pub created_at: String,
    pub device_name: Option<String>,
}

pub struct RecordingStateData {
    pub state: RecordingState,
    pub started_at: Option<String>,
    pub elapsed_ms: u64,
    pub last_recording: Option<LastRecording>,
    pub error: Option<String>,
}

impl Default for RecordingStateData {
    fn default() -> (r: Self)
        ensures
            r.state == RecordingState::Idle,
            r.started_at is None,
            r.elapsed_ms == 0,
            r.last_recording is None,
            r.error is None,
    {
        RecordingStateData {
            state: RecordingState::Idle,
            started_at: None,
            elapsed_ms: 0,
            last_recording: None,
            error: None,
        }
    }
}

/// The capabilities the app reports, in order.
pub open spec fn capability_names() -> Seq<Seq<char>> {
    seq![
        "ui_foundation"@,
        "global_hotkey"@,
        "audio_recording"@,
        "transcription"@,
        "clipboard_paste"@,
        "local_history"@,
        "text_modes"@,
        "settings_persistence"@,
        "cloud_providers"@,
    ]
}

/// Every capability of the app, all of them implemented.
pub fn capability_statuses() -> (r: Vec<CapabilityStatus>)
    ensures
        r@.len() == capability_names().len(),
        forall|i: int|
            0 <= i < r@.len() ==> (#[trigger] r@[i]).name@ == capability_names()[i] && r@[i].status@
                == "implemented"@,
{
    let names = [
        "ui_foundation",
        "global_hotkey",
        "audio_recording",
        "transcription",
        "clipboard_paste",
        "local_history",
        "text_modes",
        "settings_persistence",
        "cloud_providers",
    ];
    let mut out: Vec<CapabilityStatus> = Vec::new();
    let mut i: usize = 0;
    while i < names.len()
        invariant
            i <= names.len(),
            names@.len() == capability_names().len(),
            forall|j: int| 0 <= j < names@.len() ==> #[trigger] names@[j]@ == capability_names()[j],
            out@.len() == i,
            forall|j: int|
                0 <= j < i ==> (#[trigger] out@[j]).name@ == capability_names()[j] && out@[j].status@
                    == "implemented"@,
        decreases names.len() - i,
    {
        out.push(CapabilityStatus { name: owned(names[i]), status: owned("implemented") });
        i += 1;
    }
    out
}

} // verus!

//! The end-to-end workflow: record → transcribe → cleanup → insert → save.
use vstd::prelude::*;

verus! {

/// The current step in the workflow.
#[derive(Debug, Clone, Copy, PartialEq, Eq, Structural)]
pub enum WorkflowStep {
    Idle,
    Recording,
    RecordingStopping,
    RecordingComplete,
    Transcribing,
    TranscriptionComplete,
    Cleaning,
    CleanupComplete,
    Inserting,
    InsertAttempted,
    SavedToHistory,
    Canceled,
    Error,
}

pub open spec fn step_label(s: WorkflowStep) -> Seq<char> {
    match s {
        WorkflowStep::Idle => "Idle"@,
        WorkflowStep::Recording => "Recording"@,
        WorkflowStep::RecordingStopping => "Stopping"@,
        WorkflowStep::RecordingComplete => "Recording Complete"@,
        WorkflowStep::Transcribing => "Transcribing"@,
        WorkflowStep::TranscriptionComplete => "Transcription Complete"@,
        WorkflowStep::Cleaning => "Cleaning"@,
        WorkflowStep::CleanupComplete => "Cleanup Complete"@,
        WorkflowStep::Inserting => "Inserting"@,
        WorkflowStep::InsertAttempted => "Insertion Attempted"@,
        WorkflowStep::SavedToHistory => "Saved to History"@,
        WorkflowStep::Canceled => "Canceled"@,
        WorkflowStep::Error => "Error"@,
    }
}

impl WorkflowStep {
    pub fn label(&self) -> (r: &'static str)
        ensures
            r@ == step_label(*self),
    {
        match self {
            WorkflowStep::Idle => "Idle",
            WorkflowStep::Recording => "Recording",
            WorkflowStep::RecordingStopping => "Stopping",
            WorkflowStep::RecordingComplete => "Recording Complete",
            WorkflowStep::Transcribing => "Transcribing",
            WorkflowStep::TranscriptionComplete => "Transcription Complete",
            WorkflowStep::Cleaning => "Cleaning",
            WorkflowStep::CleanupComplete => "Cleanup Complete",
            WorkflowStep::Inserting => "Inserting",
            WorkflowStep::InsertAttempted => "Insertion Attempted",
            WorkflowStep::SavedToHistory => "Saved to History",
            WorkflowStep::Canceled => "Canceled",
            WorkflowStep::Error => "Error",
        }
    }
}

/// Full workflow state.
#[derive(Debug, Clone)]
pub struct WorkflowState {
    pub step: WorkflowStep,
    pub error: Option<String>,
    pub last_recording_filename: Option<String>,
    pub last_recording_duration_ms: Option<u64>,
    pub last_transcript_raw: Option<String>,
    pub last_final_text: Option<String>,
    pub last_history_entry_id: Option<i64>,
    pub insertion_attempted: bool,
    pub insertion_result_message: Option<String>,
}

/// The idle workflow with no transient data.
pub open spec fn is_idle_workflow(w: WorkflowState) -> bool {
    &&& w.step == WorkflowStep::Idle
    &&& w.error is None
    &&& w.last_recording_filename is None
    &&& w.last_recording_duration_ms is None
    &&& w.last_transcript_raw is None
    &&& w.last_final_text is None
    &&& w.last_history_entry_id is None
    &&& !w.insertion_attempted
    &&& w.insertion_result_message is None
}

impl Default for WorkflowState {
    fn default() -> (r: Self)
        ensures
            is_idle_workflow(r),
    {
        WorkflowState {
            step: WorkflowStep::Idle,
            error: None,
            last_recording_filename: None,
            last_recording_duration_ms: None,
            last_transcript_raw: None,
            last_final_text: None,
            last_history_entry_id: None,
            insertion_attempted: false,
            insertion_result_message: None,
        }
    }
}

impl WorkflowState {
    /// Reset to idle, clearing transient workflow data.
    pub fn reset(&mut self)
        ensures
            is_idle_workflow(*final(self)),
    {
        self.step = WorkflowStep::Idle;
        self.error = None;
        self.last_recording_filename = None;
        self.last_recording_duration_ms = None;
        self.last_transcript_raw = None;
        self.last_final_text = None;
        self.last_history_entry_id = None;
        self.insertion_attempted = false;
        self.insertion_result_message = None;
    }

    /// Move to the error step with a message; everything else is kept.
    pub fn set_error(&mut self, msg: String)
        ensures
            final(self).step == WorkflowStep::Error,
            final(self).error == Some(msg),
            final(self).last_recording_filename == old(self).last_recording_filename,
            final(self).last_recording_duration_ms == old(self).last_recording_duration_ms,
            final(self).last_transcript_raw == old(self).last_transcript_raw,
            final(self).last_final_text == old(self).last_final_text,
            final(self).last_history_entry_id == old(self).last_history_entry_id,
            final(self).insertion_attempted == old(self).insertion_attempted,
            final(self).insertion_result_message == old(self).insertion_result_message,
    {
        self.step = WorkflowStep::Error;
        self.error = Some(msg);
    }
}

} // verus!

//! The dictation loop: recording, transcription and insertion wired together.
//! The hotkey, the tray menu and the UI all toggle through the same decisions,
//! so behaviour cannot drift between entry points. This module decides each
//! step; the caller records, transcribes, inserts and updates the UI.
use vstd::prelude::*;
use crate::error::{error_message, SpielError};
use crate::insert::InsertOutcome;
use crate::state::{PerfSample, Phase};
use crate::text::{owned, str_is_blank, trim};

verus! {

/// What a toggle does in a given phase.
#[derive(Debug, Clone, Copy, PartialEq, Eq, Structural)]
pub enum ToggleAction {
    StopAndProcess,
    Start,
    /// A job is in flight; a stray keypress must not disturb it.
    Ignore,
}

/// Start recording when idle (or after an error), stop and process when
/// recording; busy phases are left alone.
pub fn toggle_action(phase: Phase) -> (r: ToggleAction)
    ensures
        r == match phase {
            Phase::Recording => ToggleAction::StopAndProcess,
            Phase::Idle | Phase::Error => ToggleAction::Start,
            Phase::Transcribing | Phase::Inserting => ToggleAction::Ignore,
        },
{
    match phase {
        Phase::Recording => ToggleAction::StopAndProcess,
        Phase::Idle | Phase::Error => ToggleAction::Start,
        Phase::Transcribing | Phase::Inserting => ToggleAction::Ignore,
    }
}

pub open spec fn tray_title_of(phase: Phase) -> Seq<char> {
    match phase {
        Phase::Recording => "● Rec"@,
        Phase::Transcribing => "… "@,
        Phase::Inserting => "↧ "@,
        _ => ""@,
    }
}

/// The menu-bar title for a phase.
pub fn tray_title(phase: Phase) -> (r: &'static str)
    ensures
        r@ == tray_title_of(phase),
{
    match phase {
        Phase::Recording => "● Rec",
        Phase::Transcribing => "… ",
        Phase::Inserting => "↧ ",
        _ => "",
    }
}

/// The phase and message the UI shows.
#[derive(Debug, Clone)]
pub struct PhaseChange {
    pub phase: Phase,
    pub message: Option<String>,
}

pub open spec fn is_change(c: PhaseChange, phase: Phase, message: Option<Seq<char>>) -> bool {
    &&& c.phase == phase
    &&& match message {
        Some(m) => c.message matches Some(x) && x@ == m,
        None => c.message is None,
    }
}

/// Refusing to record without a model: there would be nothing to transcribe.
pub fn model_missing_change() -> (r: PhaseChange)
    ensures
        is_change(r, Phase::Error, Some("Speech model not installed. Open Settings to download it."@)),
{
    PhaseChange {
        phase: Phase::Error,
        message: Some(owned("Speech model not installed. Open Settings to download it.")),
    }
}

/// The phase after trying to start the recorder.
pub fn started_change(result: &Result<(), SpielError>) -> (r: PhaseChange)
    ensures
        match result {
            Ok(()) => is_change(r, Phase::Recording, None),
            Err(e) => is_change(r, Phase::Error, Some(error_message(*e))),
        },
{
    match result {
        Ok(()) => PhaseChange { phase: Phase::Recording, message: None },
        Err(e) => PhaseChange { phase: Phase::Error, message: Some(e.message()) },
    }
}

/// The phase after stopping: idle without a recorder, an error when the
/// capture failed, transcribing otherwise.
pub fn stopped_change(had_recorder: bool, finished: &Result<(), SpielError>) -> (r: PhaseChange)
    ensures
        !had_recorder ==> is_change(r, Phase::Idle, None),
        had_recorder ==> match finished {
            Ok(()) => is_change(r, Phase::Transcribing, None),
            Err(e) => is_change(r, Phase::Error, Some(error_message(*e))),
        },
{
    if !had_recorder {
        return PhaseChange { phase: Phase::Idle, message: None };
    }
    match finished {
        Ok(()) => PhaseChange { phase: Phase::Transcribing, message: None },
        Err(e) => PhaseChange { phase: Phase::Error, message: Some(e.message()) },
    }
}

/// Where processing a capture is.
#[derive(Debug, Clone, Copy, PartialEq, Eq, Structural)]
pub enum CaptureStage {
    CheckingSilence,
    LoadingModel,
    Transcribing,
    Inserting,
    Done,
}

/// What the caller reports back. Every report carries the time since stop
/// was pressed.
#[derive(Debug)]
pub enum CaptureEvent {
    /// Whether the capture is effectively silent.
    Silence { silent: bool, total_ms: u64 },
    /// The model was made ready, or why not; time spent so far transcribing.
    ModelReady { result: Result<(), SpielError>, transcribe_ms: u64, total_ms: u64 },
    /// The transcript, or why there is none; time spent transcribing.
    Transcribed { result: Result<String, SpielError>, transcribe_ms: u64, total_ms: u64 },
    /// How inserting the text went; time spent inserting.
    Inserted { result: Result<InsertOutcome, SpielError>, insert_ms: u64, total_ms: u64 },
}

/// What the caller does next.
#[derive(Debug)]
pub enum CaptureAction {
    /// Make the transcription model ready.
    LoadModel,
    /// Transcribe the capture.
    Transcribe,
    /// Show the inserting phase, then insert the text; drop the cached model
    /// first when it is not kept loaded.
    Insert { text: String, clear_model_cache: bool, change: PhaseChange },
    /// Record the sample, show the phase; drop the cached model when asked;
    /// when the text was delivered, remember whether Accessibility is missing
    /// and announce the transcript.
    Finish {
        sample: PerfSample,
        change: PhaseChange,
        clear_model_cache: bool,
        delivered: Option<(String, InsertOutcome)>,
    },
}

/// Processing of one capture.
#[derive(Debug)]
pub struct CaptureRun {
    pub stage: CaptureStage,
    pub capture_ms: u64,
    pub sample_count: usize,
    pub keep_model_loaded: bool,
    pub transcribe_ms: u64,
    pub text_chars: usize,
    /// The transcript being inserted.
    pub text: Option<String>,
}

pub open spec fn capture_event_fits(stage: CaptureStage, e: CaptureEvent) -> bool {
    match stage {
        CaptureStage::CheckingSilence => e is Silence,
        CaptureStage::LoadingModel => e is ModelReady,
        CaptureStage::Transcribing => e is Transcribed,
        CaptureStage::Inserting => e is Inserted,
        CaptureStage::Done => false,
    }
}

/// A sample of this run with the given timings and outcome.
pub open spec fn sample_is(
    s: PerfSample,
    run: CaptureRun,
    transcribe_ms: u64,
    insert_ms: u64,
    total_ms: u64,
    text_chars: usize,
    outcome: Seq<char>,
) -> bool {
    &&& s.wall_time_ms == 0
    &&& s.capture_ms == run.capture_ms
    &&& s.transcribe_ms == transcribe_ms
    &&& s.insert_ms == insert_ms
    &&& s.total_ms == total_ms
    &&& s.audio_samples == run.sample_count
    &&& s.text_chars == text_chars
    &&& s.outcome@ == outcome
}

/// The phase, message and sample outcome after an insertion.
pub open spec fn inserted_change(r: Result<InsertOutcome, SpielError>) -> (Phase, Option<Seq<char>>, Seq<char>) {
    match r {
        Ok(o) => (
            Phase::Idle,
            if o.needs_accessibility {
                Some("Text copied. Grant Accessibility in Settings to auto-paste."@)
            } else if o.clipboard_only {
                Some("Text copied to clipboard. Press Cmd+V to paste."@)
            } else {
                None
            },
            if o.pasted {
                "pasted"@
            } else if o.clipboard_only {
                "clipboard_only"@
            } else {
                "insert_ok"@
            },
        ),
        Err(e) => (Phase::Error, Some(error_message(e)), "insert_error"@),
    }
}

/// One step of processing a capture.
pub open spec fn capture_next(run: CaptureRun, e: CaptureEvent, next: CaptureRun, a: CaptureAction) -> bool {
    &&& next.capture_ms == run.capture_ms
    &&& next.sample_count == run.sample_count
    &&& next.keep_model_loaded == run.keep_model_loaded
    &&& match e {
        CaptureEvent::Silence { silent, total_ms } => if silent {
            next.stage == CaptureStage::Done && (a matches CaptureAction::Finish {
                sample,
                change,
                clear_model_cache,
                delivered,
            } && sample_is(sample, run, 0, 0, total_ms, 0, "silent"@) && is_change(
                change,
                Phase::Idle,
                Some("No speech detected."@),
            ) && !clear_model_cache && delivered is None)
        } else {
            next.stage == CaptureStage::LoadingModel && a is LoadModel
        },
        CaptureEvent::ModelReady { result, transcribe_ms, total_ms } => match result {
            Ok(()) => next.stage == CaptureStage::Transcribing && a is Transcribe,
            Err(err) => next.stage == CaptureStage::Done && (a matches CaptureAction::Finish {
                sample,
                change,
                clear_model_cache,
                delivered,
            } && sample_is(sample, run, transcribe_ms, 0, total_ms, 0, "model_load_error"@)
                && is_change(change, Phase::Error, Some(error_message(err))) && !clear_model_cache
                && delivered is None),
        },
        CaptureEvent::Transcribed { result, transcribe_ms, total_ms } => match result {
            Err(err) => next.stage == CaptureStage::Done && (a matches CaptureAction::Finish {
                sample,
                change,
                clear_model_cache,
                delivered,
            } && sample_is(sample, run, transcribe_ms, 0, total_ms, 0, "transcription_error"@)
                && is_change(change, Phase::Error, Some(error_message(err))) && !clear_model_cache
                && delivered is None),
            Ok(text) => if trim(text@).len() == 0 {
                next.stage == CaptureStage::Done && (a matches CaptureAction::Finish {
                    sample,
                    change,
                    clear_model_cache,
                    delivered,
                } && sample_is(sample, run, transcribe_ms, 0, total_ms, 0, "empty"@) && is_change(
                    change,
                    Phase::Idle,
                    Some("No speech detected."@),
                ) && clear_model_cache == !run.keep_model_loaded && delivered is None)
            } else {
                next.stage == CaptureStage::Inserting && next.transcribe_ms == transcribe_ms
                    && next.text_chars == text@.len() && next.text == Some(text) && (a matches CaptureAction::Insert {
                    text: t,
                    clear_model_cache,
                    change,
                } && t == text && clear_model_cache == !run.keep_model_loaded && is_change(
                    change,
                    Phase::Inserting,
                    None,
                ))
            },
        },
        CaptureEvent::Inserted { result, insert_ms, total_ms } => {
            let (phase, message, outcome) = inserted_change(result);
            next.stage == CaptureStage::Done && (a matches CaptureAction::Finish {
                sample,
                change,
                clear_model_cache,
                delivered,
            } && sample_is(sample, run, run.transcribe_ms, insert_ms, total_ms, run.text_chars, outcome)
                && is_change(change, phase, message) && !clear_model_cache && match result {
                Ok(o) => delivered matches Some(d) && Some(d.0) == run.text && d.1 == o,
                Err(_) => delivered is None,
            })
        },
    }
}

pub open spec fn capture_wf(run: CaptureRun) -> bool {
    run.stage == CaptureStage::Inserting ==> run.text is Some
}

fn sample(
    capture_ms: u64,
    transcribe_ms: u64,
    insert_ms: u64,
    total_ms: u64,
    audio_samples: usize,
    text_chars: usize,
    outcome: &str,
) -> (r: PerfSample)
    ensures
        r.wall_time_ms == 0,
        r.capture_ms == capture_ms,
        r.transcribe_ms == transcribe_ms,
        r.insert_ms == insert_ms,
        r.total_ms == total_ms,
        r.audio_samples == audio_samples,
        r.text_chars == text_chars,
        r.outcome@ == outcome@,
{
    PerfSample {
        wall_time_ms: 0,
        capture_ms,
        transcribe_ms,
        insert_ms,
        total_ms,
        audio_samples,
        text_chars,
        outcome: owned(outcome),
    }
}

fn no_speech() -> (r: PhaseChange)
    ensures
        is_change(r, Phase::Idle, Some("No speech detected."@)),
{
    PhaseChange { phase: Phase::Idle, message: Some(owned("No speech detected.")) }
}

impl CaptureRun {
    /// Start processing a capture of `sample_count` samples that took
    /// `capture_ms` to finish; first check it for silence.
    pub fn begin(capture_ms: u64, sample_count: usize, keep_model_loaded: bool) -> (r: CaptureRun)
        ensures
            r.stage == CaptureStage::CheckingSilence,
            r.capture_ms == capture_ms,
            r.sample_count == sample_count,
            r.keep_model_loaded == keep_model_loaded,
            r.text is None,
    {
        CaptureRun {
            stage: CaptureStage::CheckingSilence,
            capture_ms,
            sample_count,
            keep_model_loaded,
            transcribe_ms: 0,
            text_chars: 0,
            text: None,
        }
    }

    /// Take in what the caller reports and decide the next step.
    pub fn advance(self, event: CaptureEvent) -> (r: (CaptureRun, CaptureAction))
        requires
            capture_event_fits(self.stage, event),
            capture_wf(self),
        ensures
            capture_next(self, event, r.0, r.1),
            capture_wf(r.0),
    {
        let CaptureRun {
            stage,
            capture_ms,
            sample_count,
            keep_model_loaded,
            transcribe_ms: t_ms,
            text_chars: t_chars,
            text: t_text,
        } = self;
        match event {
            CaptureEvent::Silence { silent, total_ms } => {
                if silent {
                    (
                        CaptureRun {
                            stage: CaptureStage::Done,
                            capture_ms,
                            sample_count,
                            keep_model_loaded,
                            transcribe_ms: t_ms,
                            text_chars: t_chars,
                            text: t_text,
                        },
                        CaptureAction::Finish {
                            sample: sample(capture_ms, 0, 0, total_ms, sample_count, 0, "silent"),
                            change: no_speech(),
                            clear_model_cache: false,
                            delivered: None,
                        },
                    )
                } else {
                    (
                        CaptureRun {
                            stage: CaptureStage::LoadingModel,
                            capture_ms,
                            sample_count,
                            keep_model_loaded,
                            transcribe_ms: t_ms,
                            text_chars: t_chars,
                            text: t_text,
                        },
                        CaptureAction::LoadModel,
                    )
                }
            },
            CaptureEvent::ModelReady { result, transcribe_ms, total_ms } => match result {
                Ok(()) => (
                    CaptureRun {
                        stage: CaptureStage::Transcribing,
                        capture_ms,
                        sample_count,
                        keep_model_loaded,
                        transcribe_ms: t_ms,
                        text_chars: t_chars,
                        text: t_text,
                    },
                    CaptureAction::Transcribe,
                ),
                Err(err) => (
                    CaptureRun {
                        stage: CaptureStage::Done,
                        capture_ms,
                        sample_count,
                        keep_model_loaded,
                        transcribe_ms: t_ms,
                        text_chars: t_chars,
                        text: t_text,
                    },
                    CaptureAction::Finish {
                        sample: sample(
                            capture_ms,
                            transcribe_ms,
                            0,
                            total_ms,
                            sample_count,
                            0,
                            "model_load_error",
                        ),
                        change: PhaseChange { phase: Phase::Error, message: Some(err.message()) },
                        clear_model_cache: false,
                        delivered: None,
                    },
                ),
            },
            CaptureEvent::Transcribed { result, transcribe_ms, total_ms } => match result {
                Err(err) => (
                    CaptureRun {
                        stage: CaptureStage::Done,
                        capture_ms,
                        sample_count,
                        keep_model_loaded,
                        transcribe_ms: t_ms,
                        text_chars: t_chars,
                        text: t_text,
                    },
                    CaptureAction::Finish {
                        sample: sample(
                            capture_ms,
                            transcribe_ms,
                            0,
                            total_ms,
                            sample_count,
                            0,
                            "transcription_error",
                        ),
                        change: PhaseChange { phase: Phase::Error, message: Some(err.message()) },
                        clear_model_cache: false,
                        delivered: None,
                    },
                ),
                Ok(text) => {
                    if str_is_blank(text.as_str()) {
                        return (
                            CaptureRun {
                                stage: CaptureStage::Done,
                                capture_ms,
                                sample_count,
                                keep_model_loaded,
                                transcribe_ms: t_ms,
                                text_chars: t_chars,
                                text: t_text,
                            },
                            CaptureAction::Finish {
                                sample: sample(
                                    capture_ms,
                                    transcribe_ms,
                                    0,
                                    total_ms,
                                    sample_count,
                                    0,
                                    "empty",
                                ),
                                change: no_speech(),
                                clear_model_cache: !keep_model_loaded,
                                delivered: None,
                            },
                        );
                    }
                    let chars = crate::text::chars_of(text.as_str()).len();
                    let t = text.clone();
                    (
                        CaptureRun {
                            stage: CaptureStage::Inserting,
                            capture_ms,
                            sample_count,
                            keep_model_loaded,
                            transcribe_ms,
                            text_chars: chars,
                            text: Some(text),
                        },
                        CaptureAction::Insert {
                            text: t,
                            clear_model_cache: !keep_model_loaded,
                            change: PhaseChange { phase: Phase::Inserting, message: None },
                        },
                    )
                },
            },
            CaptureEvent::Inserted { result, insert_ms, total_ms } => {
                let text = match t_text {
                    Some(t) => t,
                    None => String::new(),
                };
                let (change, outcome_label, delivered) = match result {
                    Ok(o) => {
                        let message = if o.needs_accessibility {
                            Some(owned("Text copied. Grant Accessibility in Settings to auto-paste."))
                        } else if o.clipboard_only {
                            Some(owned("Text copied to clipboard. Press Cmd+V to paste."))
                        } else {
                            None
                        };
                        let label = if o.pasted {
                            "pasted"
                        } else if o.clipboard_only {
                            "clipboard_only"
                        } else {
                            "insert_ok"
                        };
                        (PhaseChange { phase: Phase::Idle, message }, label, Some((text.clone(), o)))
                    },
                    Err(err) => (
                        PhaseChange { phase: Phase::Error, message: Some(err.message()) },
                        "insert_error",
                        None,
                    ),
                };
                (
                    CaptureRun {
                        stage: CaptureStage::Done,
                        capture_ms,
                        sample_count,
                        keep_model_loaded,
                        transcribe_ms: t_ms,
                        text_chars: t_chars,
                        text: Some(text),
                    },
                    CaptureAction::Finish {
                        sample: sample(
                            capture_ms,
                            t_ms,
                            insert_ms,
                            total_ms,
                            sample_count,
                            t_chars,
                            outcome_label,
                        ),
                        change,
                        clear_model_cache: false,
                        delivered,
                    },
                )
            },
        }
    }
}

/// Every run that finishes records exactly one sample, and ends in the error
/// phase exactly when its outcome is one of the errors.
pub proof fn law_capture_outcome_matches_phase(run: CaptureRun, e: CaptureEvent, next: CaptureRun, a: CaptureAction)
    requires
        capture_wf(run),
        capture_event_fits(run.stage, e),
        capture_next(run, e, next, a),
    ensures
        a matches CaptureAction::Finish { sample, change, clear_model_cache, delivered } ==> (
        (change.phase == Phase::Error) == (sample.outcome@ == "model_load_error"@
            || sample.outcome@ == "transcription_error"@ || sample.outcome@ == "insert_error"@)),
        a is Finish <==> next.stage == CaptureStage::Done,
{
    reveal_strlit("model_load_error");
    reveal_strlit("transcription_error");
    reveal_strlit("insert_error");
    reveal_strlit("silent");
    reveal_strlit("empty");
    reveal_strlit("pasted");
    reveal_strlit("clipboard_only");
    reveal_strlit("insert_ok");
    let errs = seq!["model_load_error"@, "transcription_error"@, "insert_error"@];
    let fine = seq!["silent"@, "empty"@, "pasted"@, "clipboard_only"@, "insert_ok"@];
    assert forall|i: int, j: int| 0 <= i < 3 && 0 <= j < 5 implies #[trigger] errs[i] != #[trigger] fine[j] by {
        assert(errs[i].len() != fine[j].len());
    }
    assert(errs[0] != fine[0] && errs[1] != fine[0] && errs[2] != fine[0]);
    assert(errs[0] != fine[1] && errs[1] != fine[1] && errs[2] != fine[1]);
    assert(errs[0] != fine[2] && errs[1] != fine[2] && errs[2] != fine[2]);
    assert(errs[0] != fine[3] && errs[1] != fine[3] && errs[2] != fine[3]);
    assert(errs[0] != fine[4] && errs[1] != fine[4] && errs[2] != fine[4]);
}

} // verus!

//! Delivering transcribed text to wherever the cursor is.
//!
//! The flow: save the current clipboard, put the text on it, synthesize the
//! paste keystroke so it lands in the focused app, then restore the previous
//! clipboard. Without the Accessibility permission the text stays on the
//! clipboard and the caller is told. The text is never lost: at worst it sits
//! on the clipboard, ready for a manual paste.
//!
//! This module decides each step; the caller touches the clipboard, waits and
//! posts the keystroke.
use vstd::prelude::*;
use crate::error::SpielError;
use crate::text::owned;

verus! {

#[derive(Debug, Clone, Copy, PartialEq, Eq, Structural)]
pub struct InsertOutcome {
    /// The paste keystroke was sent and the text should be at the cursor.
    pub pasted: bool,
    /// The text is on the clipboard but was not pasted (manual paste needed).
    pub clipboard_only: bool,
    /// The previous clipboard contents were put back after pasting.
    pub restored_previous: bool,
    /// Pasting was requested but the Accessibility permission is missing.
    pub needs_accessibility: bool,
}

impl Default for InsertOutcome {
    fn default() -> (r: Self)
        ensures
            !r.pasted && !r.clipboard_only && !r.restored_previous && !r.needs_accessibility,
    {
        InsertOutcome {
            pasted: false,
            clipboard_only: false,
            restored_previous: false,
            needs_accessibility: false,
        }
    }
}

/// Where an insertion is.
#[derive(Debug, Clone, Copy, PartialEq, Eq, Structural)]
pub enum InsertStage {
    OpeningClipboard,
    ReadingPrevious,
    Writing,
    CheckingTrust,
    Pasting,
    Restoring,
    Done,
}

/// What the caller reports back.
#[derive(Debug)]
pub enum InsertEvent {
    /// The clipboard was opened, or why not.
    Opened { result: Result<(), String> },
    /// The text on the clipboard before, when there was text.
    PreviousRead { text: Option<String> },
    /// The text was put on the clipboard, or why not.
    Written { result: Result<(), String> },
    /// Whether the app holds the Accessibility permission.
    Trust { trusted: bool },
    /// The paste keystroke was sent, or why not.
    Pasted { result: Result<(), SpielError> },
    /// Whether putting the previous text back worked.
    Restored { ok: bool },
}

/// What the caller does next.
#[derive(Debug)]
pub enum InsertAction {
    OpenClipboard,
    ReadClipboard,
    WriteClipboard { text: String },
    /// Check whether the app holds the Accessibility permission.
    CheckTrust,
    /// Wait this long (so the clipboard write settles), then send the paste keystroke.
    Paste { wait_ms: u64 },
    /// Wait this long (so the focused app reads the paste), then put this text back.
    Restore { wait_ms: u64, text: String },
    Finish { result: Result<InsertOutcome, SpielError> },
}

/// An insertion of `text` in progress.
#[derive(Debug)]
pub struct Insertion {
    pub text: String,
    pub auto_paste: bool,
    pub restore_clipboard: bool,
    /// The text to put back afterwards (only non-empty text is kept).
    pub previous: Option<String>,
    pub outcome: InsertOutcome,
    pub stage: InsertStage,
    /// Whether the text is on the clipboard.
    pub written: bool,
}

/// Whether `e` is the event that answers the action of `stage`.
pub open spec fn event_fits(stage: InsertStage, e: InsertEvent) -> bool {
    match stage {
        InsertStage::OpeningClipboard => e is Opened,
        InsertStage::ReadingPrevious => e is PreviousRead,
        InsertStage::Writing => e is Written,
        InsertStage::CheckingTrust => e is Trust,
        InsertStage::Pasting => e is Pasted,
        InsertStage::Restoring => e is Restored,
        InsertStage::Done => false,
    }
}

/// `r` is an insertion error with message `m`.
pub open spec fn insertion_error(r: Result<InsertOutcome, SpielError>, m: Seq<char>) -> bool {
    r matches Err(SpielError::Insertion(s)) && s@ == m
}

/// The state and first action of inserting `text`.
pub open spec fn insert_start(
    text: Seq<char>,
    auto_paste: bool,
    restore: bool,
    i: Insertion,
    a: InsertAction,
) -> bool {
    &&& i.text@ == text
    &&& i.auto_paste == auto_paste
    &&& i.restore_clipboard == restore
    &&& i.previous is None
    &&& !i.written
    &&& i.outcome == InsertOutcome {
        pasted: false,
        clipboard_only: false,
        restored_previous: false,
        needs_accessibility: false,
    }
    &&& if text.len() == 0 {
        i.stage == InsertStage::Done && (a matches InsertAction::Finish { result } && insertion_error(
            result,
            "nothing to insert"@,
        ))
    } else {
        i.stage == InsertStage::OpeningClipboard && a is OpenClipboard
    }
}

/// One step of an insertion.
pub open spec fn insert_next(i: Insertion, e: InsertEvent, j: Insertion, a: InsertAction) -> bool {
    &&& j.text == i.text
    &&& j.auto_paste == i.auto_paste
    &&& j.restore_clipboard == i.restore_clipboard
    &&& match e {
        InsertEvent::Opened { result } => match result {
            Err(m) => j.stage == InsertStage::Done && j.written == i.written && j.previous
                == i.previous && j.outcome == i.outcome && (a matches InsertAction::Finish {
                result,
            } && insertion_error(result, "clipboard unavailable: "@ + m@)),
            Ok(()) => j.stage == InsertStage::ReadingPrevious && j.written == i.written && j.previous
                == i.previous && j.outcome == i.outcome && a is ReadClipboard,
        },
        InsertEvent::PreviousRead { text } => j.stage == InsertStage::Writing && j.written
            == i.written && j.outcome == i.outcome && j.previous == (match text {
            Some(t) => if t@.len() > 0 {
                Some(t)
            } else {
                None
            },
            None => None,
        }) && (a matches InsertAction::WriteClipboard { text } && text == i.text),
        InsertEvent::Written { result } => match result {
            Err(m) => j.stage == InsertStage::Done && !j.written && j.previous == i.previous
                && j.outcome == i.outcome && (a matches InsertAction::Finish { result }
                && insertion_error(result, "could not set clipboard: "@ + m@)),
            Ok(()) => j.written && j.previous == i.previous && if !i.auto_paste {
                j.stage == InsertStage::Done && j.outcome == InsertOutcome {
                    clipboard_only: true,
                    ..i.outcome
                } && (a matches InsertAction::Finish { result } && result == Ok::<
                    InsertOutcome,
                    SpielError,
                >(j.outcome))
            } else {
                j.stage == InsertStage::CheckingTrust && j.outcome == i.outcome && a is CheckTrust
            },
        },
        InsertEvent::Trust { trusted } => j.written == i.written && j.previous == i.previous
            && if !trusted {
            j.stage == InsertStage::Done && j.outcome == InsertOutcome {
                clipboard_only: true,
                needs_accessibility: true,
                ..i.outcome
            } && (a matches InsertAction::Finish { result } && result == Ok::<
                InsertOutcome,
                SpielError,
            >(j.outcome))
        } else {
            j.stage == InsertStage::Pasting && j.outcome == i.outcome && (a matches InsertAction::Paste {
                wait_ms,
            } && wait_ms == 120)
        },
        InsertEvent::Pasted { result } => j.written == i.written && j.previous == i.previous
            && match result {
            Err(err) => j.stage == InsertStage::Done && j.outcome == i.outcome && (a matches InsertAction::Finish {
                result,
            } && result == Err::<InsertOutcome, SpielError>(err)),
            Ok(()) => j.outcome == InsertOutcome { pasted: true, ..i.outcome } && match i.previous {
                Some(p) => if i.restore_clipboard {
                    j.stage == InsertStage::Restoring && (a matches InsertAction::Restore {
                        wait_ms,
                        text,
                    } && wait_ms == 500 && text == p)
                } else {
                    j.stage == InsertStage::Done && (a matches InsertAction::Finish { result }
                        && result == Ok::<InsertOutcome, SpielError>(j.outcome))
                },
                None => j.stage == InsertStage::Done && (a matches InsertAction::Finish { result }
                    && result == Ok::<InsertOutcome, SpielError>(j.outcome)),
            },
        },
        InsertEvent::Restored { ok } => j.written == i.written && j.previous == i.previous
            && j.stage == InsertStage::Done && j.outcome == InsertOutcome {
            restored_previous: ok,
            ..i.outcome
        } && (a matches InsertAction::Finish { result } && result == Ok::<InsertOutcome, SpielError>(
            j.outcome,
        )),
    }
}

/// The facts an insertion keeps: past the write, the text is on the clipboard;
/// pasting only happens when asked for and allowed.
pub open spec fn insertion_wf(i: Insertion) -> bool {
    &&& (i.stage == InsertStage::CheckingTrust || i.stage == InsertStage::Pasting || i.stage
        == InsertStage::Restoring) ==> i.written && i.auto_paste
    &&& (i.stage == InsertStage::OpeningClipboard || i.stage == InsertStage::ReadingPrevious
        || i.stage == InsertStage::Writing) ==> !i.written
    &&& i.stage == InsertStage::Restoring ==> i.previous is Some && i.restore_clipboard
        && i.outcome.pasted
}

impl Insertion {
    /// Start inserting `text`; `auto_paste` and `restore_clipboard` come from
    /// the settings.
    pub fn begin(text: &str, auto_paste: bool, restore_clipboard: bool) -> (r: (Insertion, InsertAction))
        ensures
            insert_start(text@, auto_paste, restore_clipboard, r.0, r.1),
            insertion_wf(r.0),
    {
        let empty = text.is_empty();
        let i = Insertion {
            text: owned(text),
            auto_paste,
            restore_clipboard,
            previous: None,
            outcome: InsertOutcome::default(),
            stage: if empty {
                InsertStage::Done
            } else {
                InsertStage::OpeningClipboard
            },
            written: false,
        };
        if empty {
            (i, InsertAction::Finish { result: Err(SpielError::Insertion(owned("nothing to insert"))) })
        } else {
            (i, InsertAction::OpenClipboard)
        }
    }

    /// Take in what the caller reports and decide the next step.
    pub fn advance(self, event: InsertEvent) -> (r: (Insertion, InsertAction))
        requires
            event_fits(self.stage, event),
            insertion_wf(self),
        ensures
            insert_next(self, event, r.0, r.1),
            insertion_wf(r.0),
    {
        let Insertion { text, auto_paste, restore_clipboard, previous, outcome, stage, written } =
            self;
        match event {
            InsertEvent::Opened { result } => match result {
                Err(m) => {
                    let msg = String::from_str("clipboard unavailable: ").concat(m.as_str());
                    (
                        Insertion {
                            text,
                            auto_paste,
                            restore_clipboard,
                            previous,
                            outcome,
                            stage: InsertStage::Done,
                            written,
                        },
                        InsertAction::Finish { result: Err(SpielError::Insertion(msg)) },
                    )
                },
                Ok(()) => (
                    Insertion {
                        text,
                        auto_paste,
                        restore_clipboard,
                        previous,
                        outcome,
                        stage: InsertStage::ReadingPrevious,
                        written,
                    },
                    InsertAction::ReadClipboard,
                ),
            },
            InsertEvent::PreviousRead { text: prev } => {
                let kept = match prev {
                    Some(t) => if t.as_str().is_empty() {
                        None
                    } else {
                        Some(t)
                    },
                    None => None,
                };
                let to_write = text.clone();
                (
                    Insertion {
                        text,
                        auto_paste,
                        restore_clipboard,
                        previous: kept,
                        outcome,
                        stage: InsertStage::Writing,
                        written,
                    },
                    InsertAction::WriteClipboard { text: to_write },
                )
            },
            InsertEvent::Written { result } => match result {
                Err(m) => {
                    let msg = String::from_str("could not set clipboard: ").concat(m.as_str());
                    (
                        Insertion {
                            text,
                            auto_paste,
                            restore_clipboard,
                            previous,
                            outcome,
                            stage: InsertStage::Done,
                            written: false,
                        },
                        InsertAction::Finish { result: Err(SpielError::Insertion(msg)) },
                    )
                },
                Ok(()) => {
                    if !auto_paste {
                        let o = InsertOutcome { clipboard_only: true, ..outcome };
                        return (
                            Insertion {
                                text,
                                auto_paste,
                                restore_clipboard,
                                previous,
                                outcome: o,
                                stage: InsertStage::Done,
                                written: true,
                            },
                            InsertAction::Finish { result: Ok(o) },
                        );
                    }
                    (
                        Insertion {
                            text,
                            auto_paste,
                            restore_clipboard,
                            previous,
                            outcome,
                            stage: InsertStage::CheckingTrust,
                            written: true,
                        },
                        InsertAction::CheckTrust,
                    )
                },
            },
            InsertEvent::Trust { trusted } => {
                if !trusted {
                    let o = InsertOutcome { clipboard_only: true, needs_accessibility: true, ..outcome };
                    return (
                        Insertion {
                            text,
                            auto_paste,
                            restore_clipboard,
                            previous,
                            outcome: o,
                            stage: InsertStage::Done,
                            written,
                        },
                        InsertAction::Finish { result: Ok(o) },
                    );
                }
                (
                    Insertion {
                        text,
                        auto_paste,
                        restore_clipboard,
                        previous,
                        outcome,
                        stage: InsertStage::Pasting,
                        written,
                    },
                    InsertAction::Paste { wait_ms: 120 },
                )
            },
            InsertEvent::Pasted { result } => match result {
                Err(err) => (
                    Insertion {
                        text,
                        auto_paste,
                        restore_clipboard,
                        previous,
                        outcome,
                        stage: InsertStage::Done,
                        written,
                    },
                    InsertAction::Finish { result: Err(err) },
                ),
                Ok(()) => {
                    let o = InsertOutcome { pasted: true, ..outcome };
                    match &previous {
                        Some(p) => {
                            if restore_clipboard {
                                let back = p.clone();
                                return (
                                    Insertion {
                                        text,
                                        auto_paste,
                                        restore_clipboard,
                                        previous,
                                        outcome: o,
                                        stage: InsertStage::Restoring,
                                        written,
                                    },
                                    InsertAction::Restore { wait_ms: 500, text: back },
                                );
                            }
                        },
                        None => {},
                    }
                    (
                        Insertion {
                            text,
                            auto_paste,
                            restore_clipboard,
                            previous,
                            outcome: o,
                            stage: InsertStage::Done,
                            written,
                        },
                        InsertAction::Finish { result: Ok(o) },
                    )
                },
            },
            InsertEvent::Restored { ok } => {
                let o = InsertOutcome { restored_previous: ok, ..outcome };
                (
                    Insertion {
                        text,
                        auto_paste,
                        restore_clipboard,
                        previous,
                        outcome: o,
                        stage: InsertStage::Done,
                        written,
                    },
                    InsertAction::Finish { result: Ok(o) },
                )
            },
        }
    }
}

/// An insertion that succeeds leaves the text on the clipboard or at the
/// cursor: it never finishes successfully before the text was written.
pub proof fn law_success_keeps_text(i: Insertion, e: InsertEvent, j: Insertion, a: InsertAction)
    requires
        insertion_wf(i),
        event_fits(i.stage, e),
        insert_next(i, e, j, a),
        a matches InsertAction::Finish { result } && result is Ok,
    ensures
        j.written,
{
}

/// The paste keystroke is only sent when pasting was asked for, the text is
/// on the clipboard, and the Accessibility permission was just found to be
/// there.
pub proof fn law_paste_only_when_allowed(i: Insertion, e: InsertEvent, j: Insertion, a: InsertAction)
    requires
        insertion_wf(i),
        event_fits(i.stage, e),
        insert_next(i, e, j, a),
    ensures
        a is Paste ==> i.auto_paste && (e matches InsertEvent::Trust { trusted } && trusted) && j.written,
{
}

/// Sending the paste keystroke: only macOS has it.
pub fn paste_via_cmd_v() -> (r: Result<(), SpielError>)
    ensures
        insertion_error_unit(r, "auto-paste is only implemented on macOS"@),
{
    Err(SpielError::Insertion(owned("auto-paste is only implemented on macOS")))
}

pub open spec fn insertion_error_unit(r: Result<(), SpielError>, m: Seq<char>) -> bool {
    r matches Err(SpielError::Insertion(s)) && s@ == m
}

} // verus!

use spiel::dictation::{
    toggle_action, tray_title, CaptureAction, CaptureEvent, CaptureRun, CaptureStage, ToggleAction,
};
use spiel::error::SpielError;
use spiel::hotkey_update::{HotkeyAction, HotkeyStep, HotkeyUpdate};
use spiel::insert::{InsertAction, InsertEvent, InsertOutcome, Insertion};
use spiel::state::Phase;

#[test]
fn toggles_by_phase() {
    assert_eq!(toggle_action(Phase::Recording), ToggleAction::StopAndProcess);
    assert_eq!(toggle_action(Phase::Error), ToggleAction::Start);
    assert_eq!(toggle_action(Phase::Inserting), ToggleAction::Ignore);
    assert_eq!(tray_title(Phase::Recording), "● Rec");
    assert_eq!(tray_title(Phase::Idle), "");
}

#[test]
fn hotkey_machine_rolls_back_after_failed_save() {
    let (u, a) = HotkeyUpdate::begin("A", "B");
    assert!(matches!(a, HotkeyAction::Register { ref hotkey } if hotkey == "B"));
    let (u, a) = u.advance(Ok(()));
    assert!(matches!(a, HotkeyAction::Save));
    let (u, a) = u.advance(Err(SpielError::Config("disk full".into())));
    assert!(matches!(a, HotkeyAction::Register { ref hotkey } if hotkey == "A"));
    let (u, a) = u.advance(Ok(()));
    assert_eq!(u.step, HotkeyStep::Finished);
    assert_eq!(u.requested, "A");
    assert!(!u.saved);
    assert!(matches!(a, HotkeyAction::Finish { result: Err(SpielError::Config(ref m)) } if m == "disk full"));
}

#[test]
fn insertion_without_paste_leaves_text_on_clipboard() {
    let (i, a) = Insertion::begin("hello", true, true);
    assert!(matches!(a, InsertAction::OpenClipboard));
    let (i, a) = i.advance(InsertEvent::Opened { result: Ok(()) });
    assert!(matches!(a, InsertAction::ReadClipboard));
    let (i, a) = i.advance(InsertEvent::PreviousRead { text: Some(String::new()) });
    assert!(i.previous.is_none());
    assert!(matches!(a, InsertAction::WriteClipboard { ref text } if text == "hello"));
    let (i, a) = i.advance(InsertEvent::Written { result: Ok(()) });
    assert!(i.written);
    assert!(matches!(a, InsertAction::CheckTrust));
    let (i, a) = i.advance(InsertEvent::Trust { trusted: false });
    assert!(i.written);
    match a {
        InsertAction::Finish { result: Ok(o) } => {
            // auto-paste was asked for, but there is no Accessibility permission here
            assert_eq!(
                o,
                InsertOutcome { pasted: false, clipboard_only: true, restored_previous: false, needs_accessibility: true }
            );
        },
        _ => panic!("expected a finished insertion"),
    }
}

#[test]
fn trusted_insertion_pastes_then_restores() {
    let (i, _) = Insertion::begin("hello", true, true);
    let (i, _) = i.advance(InsertEvent::Opened { result: Ok(()) });
    let (i, _) = i.advance(InsertEvent::PreviousRead { text: Some("old".into()) });
    let (i, _) = i.advance(InsertEvent::Written { result: Ok(()) });
    let (i, a) = i.advance(InsertEvent::Trust { trusted: true });
    assert!(matches!(a, InsertAction::Paste { wait_ms: 120 }));
    let (i, a) = i.advance(InsertEvent::Pasted { result: Ok(()) });
    assert!(matches!(a, InsertAction::Restore { wait_ms: 500, ref text } if text == "old"));
    let (_, a) = i.advance(InsertEvent::Restored { ok: true });
    assert!(matches!(
        a,
        InsertAction::Finish { result: Ok(InsertOutcome { pasted: true, clipboard_only: false, restored_previous: true, needs_accessibility: false }) }
    ));
}

#[test]
fn insertion_errors() {
    let (_, a) = Insertion::begin("", true, true);
    assert!(matches!(a, InsertAction::Finish { result: Err(SpielError::Insertion(ref m)) } if m == "nothing to insert"));
    let (i, _) = Insertion::begin("x", false, false);
    let (_, a) = i.advance(InsertEvent::Opened { result: Err("busy".into()) });
    assert!(matches!(a, InsertAction::Finish { result: Err(SpielError::Insertion(ref m)) } if m == "clipboard unavailable: busy"));
    let (i, _) = Insertion::begin("x", false, false);
    let (i, _) = i.advance(InsertEvent::Opened { result: Ok(()) });
    let (i, _) = i.advance(InsertEvent::PreviousRead { text: None });
    let (_, a) = i.advance(InsertEvent::Written { result: Err("denied".into()) });
    assert!(matches!(a, InsertAction::Finish { result: Err(SpielError::Insertion(ref m)) } if m == "could not set clipboard: denied"));
    let (i, _) = Insertion::begin("x", false, false);
    let (i, _) = i.advance(InsertEvent::Opened { result: Ok(()) });
    let (i, _) = i.advance(InsertEvent::PreviousRead { text: Some("old".into()) });
    let (_, a) = i.advance(InsertEvent::Written { result: Ok(()) });
    assert!(matches!(a, InsertAction::Finish { result: Ok(InsertOutcome { clipboard_only: true, needs_accessibility: false, .. }) }));
    assert!(spiel::insert::paste_via_cmd_v().is_err());
}

#[test]
fn capture_run_paths() {
    let run = CaptureRun::begin(30, 100, false);
    let (_, a) = run.advance(CaptureEvent::Silence { silent: true, total_ms: 40 });
    match a {
        CaptureAction::Finish { sample, change, .. } => {
            assert_eq!(sample.outcome, "silent");
            assert_eq!(sample.total_ms, 40);
            assert_eq!(change.phase, Phase::Idle);
            assert_eq!(change.message.as_deref(), Some("No speech detected."));
        },
        _ => panic!("silent capture should finish"),
    }

    let run = CaptureRun::begin(30, 50_000, false);
    let (run, a) = run.advance(CaptureEvent::Silence { silent: false, total_ms: 40 });
    assert!(matches!(a, CaptureAction::LoadModel));
    let (run, a) = run.advance(CaptureEvent::ModelReady { result: Ok(()), transcribe_ms: 5, total_ms: 45 });
    assert!(matches!(a, CaptureAction::Transcribe));
    let (run, a) = run.advance(CaptureEvent::Transcribed { result: Ok("héllo".into()), transcribe_ms: 80, total_ms: 120 });
    match a {
        CaptureAction::Insert { text, clear_model_cache, change } => {
            assert_eq!(text, "héllo");
            assert!(clear_model_cache);
            assert_eq!(change.phase, Phase::Inserting);
        },
        _ => panic!("expected insert"),
    }
    assert_eq!(run.stage, CaptureStage::Inserting);
    let outcome = InsertOutcome { pasted: true, clipboard_only: false, restored_previous: true, needs_accessibility: false };
    let (run, a) = run.advance(CaptureEvent::Inserted { result: Ok(outcome), insert_ms: 9, total_ms: 140 });
    assert_eq!(run.stage, CaptureStage::Done);
    match a {
        CaptureAction::Finish { sample, change, delivered, .. } => {
            assert_eq!(sample.outcome, "pasted");
            assert_eq!(sample.text_chars, 5);
            assert_eq!(sample.transcribe_ms, 80);
            assert_eq!(sample.insert_ms, 9);
            assert_eq!(change.phase, Phase::Idle);
            assert!(change.message.is_none());
            assert_eq!(delivered.unwrap().0, "héllo");
        },
        _ => panic!("expected finish"),
    }

    let run = CaptureRun::begin(1, 50_000, true);
    let (run, _) = run.advance(CaptureEvent::Silence { silent: false, total_ms: 2 });
    let (_, a) = run.advance(CaptureEvent::ModelReady { result: Err(SpielError::ModelMissing), transcribe_ms: 3, total_ms: 4 });
    match a {
        CaptureAction::Finish { sample, change, .. } => {
            assert_eq!(sample.outcome, "model_load_error");
            assert_eq!(change.phase, Phase::Error);
            assert_eq!(change.message.unwrap(), SpielError::ModelMissing.message());
        },
        _ => panic!("expected finish"),
    }
}

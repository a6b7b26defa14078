//! Remembering the app that had focus before Spiel was clicked, so that
//! dictation started from the tray still pastes back where the user was typing.
//!
//! Finding and activating the frontmost app only exists on macOS; on the other
//! platforms this library is built for, there is no frontmost app to find and
//! activation does nothing.
use vstd::prelude::*;
use crate::model::{clamp, parse_trimmed_u64, parsed_trimmed};
use crate::text::{chars_of, parse_u64, parse_unsigned};

verus! {

#[derive(Debug, Clone, Copy, PartialEq, Eq, Structural)]
pub struct FocusTarget {
    pub pid: i32,
}

/// Pause after re-activating the previous app, before pasting.
pub const DEFAULT_FOCUS_RESTORE_DELAY_MS: u64 = 140;

/// Whether the app is part of the system UI (menu bar, dock, control centre).
pub open spec fn system_ui(target: FocusTarget) -> bool {
    false
}

pub fn is_system_ui(target: FocusTarget) -> (r: bool)
    ensures
        r == system_ui(target),
{
    false
}

/// The app that owns focus now, when the platform can tell.
pub fn frontmost_target() -> (r: Option<FocusTarget>)
    ensures
        r is None,
{
    None
}

/// Bring `target` to the front; whether that happened.
pub fn activate(target: FocusTarget) -> (r: bool)
    ensures
        !r,
{
    false
}

/// Whether a frontmost app is worth remembering: a real process other than
/// Spiel itself, and not part of the system UI.
pub fn should_remember(target: FocusTarget, own_pid: i32) -> (r: bool)
    ensures
        r == (target.pid > 0 && target.pid != own_pid && !system_ui(target)),
{
    target.pid > 0 && target.pid != own_pid && !is_system_ui(target)
}

/// How often the tracker polls, from `SPIEL_FOCUS_POLL_MS` when set: the
/// number (not trimmed) kept within 100 ..= 5000, or 250.
pub fn poll_interval_ms(raw: Option<&str>) -> (r: u64)
    ensures
        r == match raw {
            Some(s) => match parse_unsigned(s@, u64::MAX as nat) {
                Some(v) => clamp(v, 100, 5_000),
                None => 250,
            },
            None => 250,
        },
{
    match raw {
        Some(s) => match parse_u64(&chars_of(s)) {
            Some(v) => if v < 100 {
                100
            } else if v > 5_000 {
                5_000
            } else {
                v
            },
            None => 250,
        },
        None => 250,
    }
}

/// The pause before pasting, from `SPIEL_FOCUS_RESTORE_DELAY_MS` when set:
/// the trimmed number kept within 0 ..= 2000, or `default`.
pub fn restore_delay_ms(raw: Option<&str>, default: u64) -> (r: u64)
    ensures
        r == match parsed_trimmed(raw, u64::MAX as nat) {
            Some(v) => clamp(v, 0, 2_000),
            None => default as nat,
        },
{
    match parse_trimmed_u64(raw) {
        Some(v) => if v > 2_000 {
            2_000
        } else {
            v
        },
        None => default,
    }
}

} // verus!

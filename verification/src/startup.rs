//! Settings read once at startup, and the errors around the global hotkey.
use vstd::prelude::*;
use crate::error::SpielError;
use crate::model::clamp;
use crate::state::profile_switch_on;
use crate::text::{chars_of, parse_u64, parse_unsigned, str_eq, trim_vec, string_of};

verus! {

/// A number of milliseconds from an environment switch (the number as
/// written, not trimmed), kept within `lo ..= hi`, or `default`.
pub open spec fn interval_from(raw: Option<&str>, lo: nat, hi: nat, default: nat) -> nat {
    match raw {
        Some(s) => match parse_unsigned(s@, u64::MAX as nat) {
            Some(v) => clamp(v, lo, hi),
            None => default,
        },
        None => default,
    }
}

fn interval_ms(raw: Option<&str>, lo: u64, hi: u64, default: u64) -> (r: u64)
    requires
        lo <= hi,
    ensures
        r == interval_from(raw, lo as nat, hi as nat, default as nat),
{
    match raw {
        Some(s) => match parse_u64(&chars_of(s)) {
            Some(v) => if v < lo {
                lo
            } else if v > hi {
                hi
            } else {
                v
            },
            None => default,
        },
        None => default,
    }
}

/// How often the Accessibility permission is polled (`SPIEL_ACCESSIBILITY_POLL_MS`).
pub fn accessibility_poll_ms(raw: Option<&str>) -> (r: u64)
    ensures
        r == interval_from(raw, 250, 30_000, 1_000),
{
    interval_ms(raw, 250, 30_000, 1_000)
}

/// How often stale download files are swept (`SPIEL_MAINTENANCE_POLL_MS`).
pub fn maintenance_poll_ms(raw: Option<&str>) -> (r: u64)
    ensures
        r == interval_from(raw, 60_000, 86_400_000, 900_000),
{
    interval_ms(raw, 60_000, 86_400_000, 900_000)
}

/// Whether the model is loaded at startup: when it is kept loaded, or when
/// `SPIEL_WARMUP_ON_START` is switched on.
pub fn should_warm_up(keep_model_loaded: bool, raw: Option<&str>) -> (r: bool)
    ensures
        r == (keep_model_loaded || profile_switch_on(raw)),
{
    if keep_model_loaded {
        return true;
    }
    match raw {
        Some(v) => {
            let t = string_of(&trim_vec(&chars_of(v)));
            let s = t.as_str();
            str_eq(s, "1") || str_eq(s, "true") || str_eq(s, "TRUE") || str_eq(s, "yes") || str_eq(
                s,
                "YES",
            )
        },
        None => false,
    }
}

pub open spec fn invalid_hotkey_text(spec: Seq<char>) -> Seq<char> {
    "'"@ + spec
        + "' isn't a valid hotkey. Use one or more modifiers plus a key — for example Cmd+Alt+D, Cmd+Shift+Space, or CmdOrCtrl+Shift+K. Letters and named keys work; punctuation like '?' does not."@
}

/// The error for a hotkey that does not parse.
pub fn invalid_hotkey_error(spec: &str) -> (r: SpielError)
    ensures
        r matches SpielError::Config(m) && m@ == invalid_hotkey_text(spec@),
{
    SpielError::Config(
        String::from_str("'").concat(spec).concat(
            "' isn't a valid hotkey. Use one or more modifiers plus a key — for example Cmd+Alt+D, Cmd+Shift+Space, or CmdOrCtrl+Shift+K. Letters and named keys work; punctuation like '?' does not.",
        ),
    )
}

/// The error for a hotkey the system refused to register.
pub fn hotkey_register_error(spec: &str, error: &str) -> (r: SpielError)
    ensures
        r matches SpielError::Config(m) && m@ == "Could not register hotkey '"@ + spec@ + "': "@
            + error@ + ". It may already be in use by another app."@,
{
    SpielError::Config(
        String::from_str("Could not register hotkey '").concat(spec).concat("': ").concat(
            error,
        ).concat(". It may already be in use by another app."),
    )
}

} // verus!

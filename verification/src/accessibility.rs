//! Accessibility permission, which synthesizing the paste keystroke needs.
//!
//! Only macOS has such a permission, and on macOS the check asks the
//! system. On the other platforms this library is built for, there is nothing
//! to grant: the permission is reported unsupported and never trusted, and the
//! prompt and the settings pane do nothing.
use vstd::prelude::*;

verus! {

/// Whether this platform has an Accessibility permission to ask for.
pub open spec fn platform_supported() -> bool {
    false
}

/// Whether the app holds the Accessibility permission on this platform.
pub open spec fn platform_trusted() -> bool {
    false
}

/// Is the app currently trusted for Accessibility (i.e. can post key events)?
pub fn is_trusted() -> (r: bool)
    ensures
        r == platform_trusted(),
{
    false
}

/// Check trust and, if missing, trigger the system prompt once; returns the trust.
pub fn prompt_if_needed() -> (r: bool)
    ensures
        r == platform_trusted(),
{
    false
}

/// Open the system settings at the Accessibility pane, where there is one.
pub fn open_settings_pane() {
}

/// Whether this platform has an Accessibility permission at all.
pub fn is_supported() -> (r: bool)
    ensures
        r == platform_supported(),
{
    false
}

} // verus!

//! Saving and restoring the text clipboard around a write. The caller does
//! the clipboard access; this module decides what is kept and what is refused.
use vstd::prelude::*;
use crate::text::owned;

verus! {

/// Holds saved clipboard state for later restoration.
#[derive(Debug, Clone)]
pub struct SavedClipboard {
    /// Whether the previous clipboard contained plain text
    pub had_text: bool,
    /// The saved text, if available
    pub text: Option<String>,
}

impl SavedClipboard {
    /// An empty saved state (no previous text).
    pub fn empty() -> (r: Self)
        ensures
            !r.had_text,
            r.text is None,
    {
        SavedClipboard { had_text: false, text: None }
    }

    /// What is kept from reading the clipboard before a write: non-empty text,
    /// and nothing when the read failed or found none.
    pub fn from_read(read: Result<String, String>) -> (r: Self)
        ensures
            match read {
                Ok(t) => if t@.len() > 0 {
                    r.had_text && r.text == Some(t)
                } else {
                    !r.had_text && r.text is None
                },
                Err(_) => !r.had_text && r.text is None,
            },
    {
        match read {
            Ok(t) => if t.as_str().is_empty() {
                SavedClipboard { had_text: false, text: None }
            } else {
                SavedClipboard { had_text: true, text: Some(t) }
            },
            Err(_) => SavedClipboard::empty(),
        }
    }

    /// The text to put back, if any.
    pub fn to_restore(&self) -> (r: Option<&String>)
        ensures
            match self.text {
                Some(t) => r == Some(&t),
                None => r is None,
            },
    {
        match &self.text {
            Some(t) => Some(t),
            None => None,
        }
    }
}

/// Whether `text` may be written: empty text is refused.
pub fn check_write(text: &str) -> (r: Result<(), String>)
    ensures
        text@.len() == 0 ==> (r matches Err(m) && m@ == "Cannot write empty text to clipboard."@),
        text@.len() > 0 ==> r is Ok,
{
    if text.is_empty() {
        return Err(owned("Cannot write empty text to clipboard."));
    }
    Ok(())
}

pub fn read_failed(error: &str) -> (r: String)
    ensures
        r@ == "Failed to read clipboard: "@ + error@,
{
    String::from_str("Failed to read clipboard: ").concat(error)
}

pub fn write_failed(error: &str) -> (r: String)
    ensures
        r@ == "Failed to write clipboard: "@ + error@,
{
    String::from_str("Failed to write clipboard: ").concat(error)
}

} // verus!

//! The five text modes that turn a raw transcript into final text.
use vstd::prelude::*;

verus! {

/// Kinds of text processing modes.
#[derive(Debug, Clone, Copy, PartialEq, Eq, Structural)]
pub enum TextModeKind {
    /// Raw dictation — minimal cleanup, preserve wording
    RawDictation,
    /// Clean notes — readable notes with basic cleanup
    CleanNotes,
    /// AI Prompt — deterministic template wrapper
    AiPrompt,
    /// Developer Review — structured review template
    DeveloperReview,
    /// Thought Piece — structured essay template
    ThoughtPiece,
}

pub open spec fn mode_label(k: TextModeKind) -> Seq<char> {
    match k {
        TextModeKind::RawDictation => "Raw Dictation"@,
        TextModeKind::CleanNotes => "Clean Notes"@,
        TextModeKind::AiPrompt => "AI Prompt"@,
        TextModeKind::DeveloperReview => "Developer Review"@,
        TextModeKind::ThoughtPiece => "Thought Piece"@,
    }
}

pub open spec fn mode_description(k: TextModeKind) -> Seq<char> {
    match k {
        TextModeKind::RawDictation => "Use the transcript with minimal cleanup. Preserves wording — no summarization or rewriting."@,
        TextModeKind::CleanNotes => "Turn spoken thoughts into readable notes. Basic punctuation/spacing cleanup, normalize whitespace, split into paragraphs."@,
        TextModeKind::AiPrompt => "Wrap transcript as a clear prompt for an AI assistant. Deterministic template — no AI rewrite."@,
        TextModeKind::DeveloperReview => "Prepare spoken engineering feedback as structured review notes with headings."@,
        TextModeKind::ThoughtPiece => "Prepare longer spoken thoughts for essay, memo, or article drafting with structure."@,
    }
}

/// Every mode, in the order the UI lists them.
pub open spec fn all_modes_spec() -> Seq<TextModeKind> {
    seq![
        TextModeKind::RawDictation,
        TextModeKind::CleanNotes,
        TextModeKind::AiPrompt,
        TextModeKind::DeveloperReview,
        TextModeKind::ThoughtPiece,
    ]
}

impl TextModeKind {
    /// Human-readable label for this mode.
    pub fn label(&self) -> (r: &'static str)
        ensures
            r@ == mode_label(*self),
    {
        match self {
            TextModeKind::RawDictation => "Raw Dictation",
            TextModeKind::CleanNotes => "Clean Notes",
            TextModeKind::AiPrompt => "AI Prompt",
            TextModeKind::DeveloperReview => "Developer Review",
            TextModeKind::ThoughtPiece => "Thought Piece",
        }
    }

    /// Short description of what this mode does.
    pub fn description(&self) -> (r: &'static str)
        ensures
            r@ == mode_description(*self),
    {
        match self {
            TextModeKind::RawDictation => "Use the transcript with minimal cleanup. Preserves wording — no summarization or rewriting.",
            TextModeKind::CleanNotes => "Turn spoken thoughts into readable notes. Basic punctuation/spacing cleanup, normalize whitespace, split into paragraphs.",
            TextModeKind::AiPrompt => "Wrap transcript as a clear prompt for an AI assistant. Deterministic template — no AI rewrite.",
            TextModeKind::DeveloperReview => "Prepare spoken engineering feedback as structured review notes with headings.",
            TextModeKind::ThoughtPiece => "Prepare longer spoken thoughts for essay, memo, or article drafting with structure.",
        }
    }

    /// Whether this mode is implemented: every mode is.
    pub fn is_implemented(&self) -> (r: bool)
        ensures
            r,
    {
        true
    }

    /// All available modes.
    pub fn all_modes() -> (r: Vec<TextModeKind>)
        ensures
            r@ == all_modes_spec(),
    {
        let r = vec![
            TextModeKind::RawDictation,
            TextModeKind::CleanNotes,
            TextModeKind::AiPrompt,
            TextModeKind::DeveloperReview,
            TextModeKind::ThoughtPiece,
        ];
        assert(r@ =~= all_modes_spec());
        r
    }
}

/// Display-friendly mode definition for the frontend.
#[derive(Debug, Clone)]
pub struct ModeDefinition {
    pub kind: TextModeKind,
    pub label: String,
    pub description: String,
    pub implemented: bool,
}

/// The definition that describes mode `k`.
pub open spec fn describes_mode(d: ModeDefinition, k: TextModeKind) -> bool {
    &&& d.kind == k
    &&& d.label@ == mode_label(k)
    &&& d.description@ == mode_description(k)
    &&& d.implemented
}

impl ModeDefinition {
    /// Create a definition from a mode kind.
    pub fn from_kind(kind: &TextModeKind) -> (r: Self)
        ensures
            describes_mode(r, *kind),
    {
        ModeDefinition {
            kind: *kind,
            label: String::from_str(kind.label()),
            description: String::from_str(kind.description()),
            implemented: kind.is_implemented(),
        }
    }

    /// All mode definitions for the frontend, one per mode in order.
    pub fn all_definitions() -> (r: Vec<ModeDefinition>)
        ensures
            r.len() == all_modes_spec().len(),
            forall|i: int| 0 <= i < r.len() ==> describes_mode(#[trigger] r@[i], all_modes_spec()[i]),
    {
        let modes = TextModeKind::all_modes();
        let mut out: Vec<ModeDefinition> = Vec::new();
        let mut i: usize = 0;
        while i < modes.len()
            invariant
                i <= modes.len(),
                modes@ == all_modes_spec(),
                out.len() == i,
                forall|j: int| 0 <= j < i ==> describes_mode(#[trigger] out@[j], all_modes_spec()[j]),
            decreases modes.len() - i,
        {
            out.push(ModeDefinition::from_kind(&modes[i]));
            i += 1;
        }
        out
    }
}

} // verus!

//! The OpenAI cleanup provider: a transcript sent to OpenAI chat completions
//! with a mode-specific system prompt. This module decides what is sent and
//! what the reply means; the caller does the network work.
use vstd::prelude::*;
use crate::cleanup::{CleanupError, CleanupProviderKind, CleanupRequest, CleanupResult};
use crate::model::hex_digit;
use crate::modes::TextModeKind;
use crate::text::{dec_string, owned, push_decimal, string_of, string_views, trim, trim_string};
use crate::transcription_openai::SendFailure;

verus! {

/// Default OpenAI cleanup model (fast, cost-effective).
pub const DEFAULT_OPENAI_CLEANUP_MODEL: &'static str = "gpt-4o-mini";

/// OpenAI chat completions API endpoint.
pub const OPENAI_CHAT_URL: &'static str = "https://api.openai.com/v1/chat/completions";

/// System prompt prefix applied to all modes.
pub const OPENAI_SYSTEM_PREFIX: &'static str = "You are a text cleanup assistant for Spiel, a dictation app. Your job is to transform raw spoken dictation into polished text. Preserve the user's meaning. Do not invent facts. Do not add unsupported claims. Do not remove important constraints. Keep the user's voice where practical. Return only the final transformed text. Do not include explanations or metadata.";

/// OpenAI-powered cleanup provider. Requires explicit opt-in: local-only mode
/// off and an API key configured.
pub struct OpenAiCleanupProvider {
    api_key: String,
    model: String,
}

/// How the chat request went.
#[derive(Debug)]
pub enum ChatReply {
    /// The HTTP client could not be built.
    ClientFailed { error: String },
    /// The request could not be sent.
    SendFailed { failure: SendFailure, error: String },
    /// A status other than success, with the body when it could be read.
    ErrorStatus { status: u16, body: Option<String> },
    /// Success: the body bytes, or why they could not be read.
    Success { body: Result<Vec<u8>, String> },
}

/// A chat request ready to send.
#[derive(Debug, Clone)]
pub struct ChatRequest {
    /// The transcript, trimmed, as sent.
    pub raw_trimmed: String,
    /// The JSON body.
    pub body: String,
}

pub open spec fn mode_prompt_text(mode: TextModeKind) -> Seq<char> {
    match mode {
        TextModeKind::RawDictation => "Mode: Raw Dictation. Apply light punctuation and paragraph cleanup. Preserve wording as much as possible. Do not summarize. Fix obvious typos and add periods/commas where needed."@,
        TextModeKind::CleanNotes => "Mode: Clean Notes. Make spoken notes readable and organized. Remove filler words (um, uh, like, you know, etc.). Split into paragraphs or bullet points if helpful. Preserve all details. Do not over-summarize."@,
        TextModeKind::AiPrompt => "Mode: AI Prompt. Turn spoken notes into a clear, well-structured prompt for an AI assistant or coding agent. Preserve requirements, constraints, decisions, and open questions. Do not invent missing requirements. Format for clarity and actionability."@,
        TextModeKind::DeveloperReview => "Mode: Developer Review. Turn spoken engineering feedback into structured review notes. Use this format for each issue:\n## Issue\n(describe the problem)\n## Why it matters\n(explain the impact)\n## Suggested fix\n(propose a solution)\n## Acceptance criteria\n(define what done looks like)\nUse 'Not specified' when details are missing."@,
        TextModeKind::ThoughtPiece => "Mode: Thought Piece. Turn long spoken thoughts into a structured draft or outline. Preserve the user's voice and perspective. Improve clarity and organization. Do not introduce unsupported facts or arguments. Structure with clear sections and logical flow."@,
    }
}

/// The full system prompt for a mode.
pub open spec fn system_prompt(mode: TextModeKind) -> Seq<char> {
    OPENAI_SYSTEM_PREFIX@ + "\n\n"@ + mode_prompt_text(mode)
}

/// How `serde_json` writes one character inside a string: `"` and `\` are
/// escaped with a backslash, the control characters backspace, tab, line
/// feed, form feed and carriage return get their short escapes, the other
/// characters below U+0020 are written `\u00XX` in lowercase hex, and every
/// other character stands as it is.
pub open spec fn json_char_escape(c: char) -> Seq<char> {
    let n = c as u32;
    if c == '"' {
        seq!['\\', '"']
    } else if c == '\\' {
        seq!['\\', '\\']
    } else if n == 8 {
        seq!['\\', 'b']
    } else if n == 9 {
        seq!['\\', 't']
    } else if n == 10 {
        seq!['\\', 'n']
    } else if n == 12 {
        seq!['\\', 'f']
    } else if n == 13 {
        seq!['\\', 'r']
    } else if n < 32 {
        seq!['\\', 'u', '0', '0', hex_digit((n / 16) as nat), hex_digit((n % 16) as nat)]
    } else {
        seq![c]
    }
}

/// The escaped characters of a string, in order.
pub open spec fn json_escaped(s: Seq<char>) -> Seq<char>
    decreases s.len(),
{
    if s.len() == 0 {
        Seq::empty()
    } else {
        json_escaped(s.drop_last()) + json_char_escape(s.last())
    }
}

/// The JSON text of a string (quoted and escaped) as `serde_json` writes it.
pub open spec fn json_string_literal(s: Seq<char>) -> Seq<char> {
    seq!['"'] + json_escaped(s) + seq!['"']
}

/// `serde_json::to_string` of a string slice, which cannot fail: the string
/// quoted, with the escapes of `json_char_escape`.
#[verifier::external_body]
fn json_quote(s: &str) -> (r: String)
    ensures
        r@ == json_string_literal(s@),
{
    serde_json::to_string(s).unwrap_or_default()
}

/// The chat completion body: the model, the system and user messages, a
/// temperature of 0.3 and at most 4096 tokens, with keys in the sorted order
/// in which `serde_json` writes an object.
pub open spec fn chat_body(model: Seq<char>, mode: TextModeKind, text: Seq<char>) -> Seq<char> {
    "{\"max_tokens\":4096,\"messages\":[{\"content\":"@ + json_string_literal(system_prompt(mode))
        + ",\"role\":\"system\"},{\"content\":"@ + json_string_literal(text)
        + ",\"role\":\"user\"}],\"model\":"@ + json_string_literal(model)
        + ",\"temperature\":0.3}"@
}

/// What a chat completion reply body holds at `choices[0].message.content`:
/// `None` when the body is not JSON, `Some(None)` when that is not a string.
pub uninterp spec fn chat_reply_content(body: Seq<u8>) -> Option<Option<Seq<char>>>;

/// Parse a reply body with `serde_json` and pick `choices[0].message.content`.
#[verifier::external_body]
fn chat_content(body: &[u8]) -> (r: Option<Option<String>>)
    ensures
        match r {
            None => chat_reply_content(body@) is None,
            Some(None) => chat_reply_content(body@) == Some(None::<Seq<char>>),
            Some(Some(c)) => chat_reply_content(body@) == Some(Some(c@)),
        },
{
    match serde_json::from_slice::<serde_json::Value>(body) {
        Err(_) => None,
        Ok(v) => Some(v["choices"][0]["message"]["content"].as_str().map(|c| c.to_string())),
    }
}

/// `e` is a recoverable cleanup error with this code, message and details.
pub open spec fn cleanup_error_is(
    e: CleanupError,
    code: Seq<char>,
    message: Seq<char>,
    details: Option<Seq<char>>,
) -> bool {
    &&& e.code@ == code
    &&& e.message@ == message
    &&& e.recoverable
    &&& match details {
        Some(d) => e.details matches Some(x) && x@ == d,
        None => e.details is None,
    }
}

/// The message for a request that could not be sent.
pub open spec fn chat_send_failure_message(f: SendFailure, error: Seq<char>) -> Seq<char> {
    match f {
        SendFailure::Timeout => "OpenAI request timed out after 120 seconds. Check your network connection."@,
        SendFailure::Connect => "Cannot connect to OpenAI API. Check your internet connection."@,
        SendFailure::Other => "OpenAI request failed: "@ + error,
    }
}

/// The warnings of a successful cleanup.
pub open spec fn openai_warnings(changed: bool) -> Seq<Seq<char>> {
    seq!["Text was sent to OpenAI (api.openai.com) for cloud AI cleanup."@] + if changed {
        seq![]
    } else {
        seq!["OpenAI returned text identical to the input. No cleanup was applied."@]
    }
}

/// What the reply to a chat request for `request` means.
pub open spec fn chat_outcome(
    request: CleanupRequest,
    raw_trimmed: Seq<char>,
    reply: ChatReply,
    duration_ms: u64,
    completed_at: String,
    r: Result<CleanupResult, CleanupError>,
) -> bool {
    match reply {
        ChatReply::ClientFailed { error } => r matches Err(e) && cleanup_error_is(
            e,
            "http_client_error"@,
            "Failed to create HTTP client: "@ + error@,
            None,
        ),
        ChatReply::SendFailed { failure, error } => r matches Err(e) && cleanup_error_is(
            e,
            "network_error"@,
            chat_send_failure_message(failure, error@),
            None,
        ),
        ChatReply::ErrorStatus { status, body } => {
            let b = match body {
                Some(b) => b@,
                None => "Unknown error"@,
            };
            r matches Err(e) && if status == 401 {
                cleanup_error_is(
                    e,
                    "invalid_api_key"@,
                    "OpenAI API key is invalid or expired. Check your API key in Settings."@,
                    Some(b),
                )
            } else if status == 429 {
                cleanup_error_is(
                    e,
                    "rate_limited"@,
                    "OpenAI rate limit reached. Wait a moment and try again."@,
                    Some(b),
                )
            } else {
                cleanup_error_is(
                    e,
                    "openai_error"@,
                    "OpenAI returned error "@ + dec_string(status as nat) + ": "@ + b,
                    Some(b),
                )
            }
        },
        ChatReply::Success { body } => match body {
            Err(msg) => r matches Err(e) && cleanup_error_is(
                e,
                "parse_error"@,
                "Failed to parse OpenAI response: "@ + msg@,
                None,
            ),
            Ok(bytes) => match chat_reply_content(bytes@) {
                None => r matches Err(e) && cleanup_error_is(
                    e,
                    "parse_error"@,
                    "Failed to parse OpenAI response: error decoding response body"@,
                    None,
                ),
                Some(c) => {
                    let text = trim(
                        match c {
                            Some(t) => t,
                            None => Seq::empty(),
                        },
                    );
                    if text.len() == 0 {
                        r matches Err(e) && cleanup_error_is(
                            e,
                            "empty_response"@,
                            "OpenAI returned an empty response. Try again or use Basic cleanup."@,
                            Some(
                                "The model produced no output text. The input may need adjustment."@,
                            ),
                        )
                    } else {
                        r matches Ok(res) && res.raw_text@ == raw_trimmed && res.final_text@ == text
                            && res.provider == CleanupProviderKind::OpenAi && res.mode
                            == request.mode && res.duration_ms == duration_ms && res.changed == (
                        text != raw_trimmed) && !res.is_mock && res.created_at@
                            == request.created_at@ && res.completed_at == completed_at
                            && string_views(res.warnings@) == openai_warnings(text != raw_trimmed)
                            && res.error is None
                    }
                },
            },
        },
    }
}

fn cleanup_error(code: &str, message: String, details: Option<String>) -> (e: CleanupError)
    ensures
        e.code@ == code@,
        e.message == message,
        e.recoverable,
        e.details == details,
{
    CleanupError { code: owned(code), message, recoverable: true, details }
}

impl OpenAiCleanupProvider {
    /// Create a new provider; the model defaults to `gpt-4o-mini`.
    pub fn new(api_key: String, model: Option<String>) -> (r: Self)
        ensures
            r.key()@ == api_key@,
            r.model_name()@ == match model {
                Some(m) => m@,
                None => "gpt-4o-mini"@,
            },
    {
        let model = match model {
            Some(m) => m,
            None => owned(DEFAULT_OPENAI_CLEANUP_MODEL),
        };
        OpenAiCleanupProvider { api_key, model }
    }

    pub closed spec fn key(&self) -> String {
        self.api_key
    }

    pub closed spec fn model_name(&self) -> String {
        self.model
    }

    /// The API key, for the authorization header.
    pub fn api_key(&self) -> (r: &str)
        ensures
            r@ == self.key()@,
    {
        self.api_key.as_str()
    }

    /// The model named in the request.
    pub fn model(&self) -> (r: &str)
        ensures
            r@ == self.model_name()@,
    {
        self.model.as_str()
    }

    pub fn name(&self) -> (r: &'static str)
        ensures
            r@ == "OpenAI Cleanup"@,
    {
        "OpenAI Cleanup"
    }

    pub fn kind(&self) -> (r: CleanupProviderKind)
        ensures
            r == CleanupProviderKind::OpenAi,
    {
        CleanupProviderKind::OpenAi
    }

    pub fn is_mock(&self) -> (r: bool)
        ensures
            !r,
    {
        false
    }

    /// The mode-specific part of the system prompt.
    pub fn mode_prompt(mode: TextModeKind) -> (r: &'static str)
        ensures
            r@ == mode_prompt_text(mode),
    {
        match mode {
            TextModeKind::RawDictation => "Mode: Raw Dictation. Apply light punctuation and paragraph cleanup. Preserve wording as much as possible. Do not summarize. Fix obvious typos and add periods/commas where needed.",
            TextModeKind::CleanNotes => "Mode: Clean Notes. Make spoken notes readable and organized. Remove filler words (um, uh, like, you know, etc.). Split into paragraphs or bullet points if helpful. Preserve all details. Do not over-summarize.",
            TextModeKind::AiPrompt => "Mode: AI Prompt. Turn spoken notes into a clear, well-structured prompt for an AI assistant or coding agent. Preserve requirements, constraints, decisions, and open questions. Do not invent missing requirements. Format for clarity and actionability.",
            TextModeKind::DeveloperReview => "Mode: Developer Review. Turn spoken engineering feedback into structured review notes. Use this format for each issue:\n## Issue\n(describe the problem)\n## Why it matters\n(explain the impact)\n## Suggested fix\n(propose a solution)\n## Acceptance criteria\n(define what done looks like)\nUse 'Not specified' when details are missing.",
            TextModeKind::ThoughtPiece => "Mode: Thought Piece. Turn long spoken thoughts into a structured draft or outline. Preserve the user's voice and perspective. Improve clarity and organization. Do not introduce unsupported facts or arguments. Structure with clear sections and logical flow.",
        }
    }

    /// The chat request for `request`, or the error for an empty transcript.
    pub fn prepare(&self, request: &CleanupRequest) -> (r: Result<ChatRequest, CleanupError>)
        ensures
            trim(request.raw_text@).len() == 0 ==> (r matches Err(e) && cleanup_error_is(
                e,
                "empty_raw_text"@,
                "Cannot clean up empty text. Provide a transcript first."@,
                None,
            )),
            trim(request.raw_text@).len() > 0 ==> (r matches Ok(c) && c.raw_trimmed@ == trim(
                request.raw_text@,
            ) && c.body@ == chat_body(self.model_name()@, request.mode, trim(request.raw_text@))),
    {
        let raw_trimmed = trim_string(request.raw_text.as_str());
        if raw_trimmed.as_str().is_empty() {
            return Err(
                cleanup_error(
                    "empty_raw_text",
                    owned("Cannot clean up empty text. Provide a transcript first."),
                    None,
                ),
            );
        }
        let system = String::from_str(OPENAI_SYSTEM_PREFIX).concat("\n\n").concat(
            Self::mode_prompt(request.mode),
        );
        let body = String::from_str("{\"max_tokens\":4096,\"messages\":[{\"content\":").concat(
            json_quote(system.as_str()).as_str(),
        ).concat(",\"role\":\"system\"},{\"content\":").concat(
            json_quote(raw_trimmed.as_str()).as_str(),
        ).concat(",\"role\":\"user\"}],\"model\":").concat(
            json_quote(self.model.as_str()).as_str(),
        ).concat(",\"temperature\":0.3}");
        Ok(ChatRequest { raw_trimmed, body })
    }

    /// The cleanup result, or the error, from how the chat request went.
    pub fn finish(
        &self,
        request: &CleanupRequest,
        raw_trimmed: String,
        reply: ChatReply,
        duration_ms: u64,
        completed_at: String,
    ) -> (r: Result<CleanupResult, CleanupError>)
        ensures
            chat_outcome(*request, raw_trimmed@, reply, duration_ms, completed_at, r),
    {
        match reply {
            ChatReply::ClientFailed { error } => Err(
                cleanup_error(
                    "http_client_error",
                    String::from_str("Failed to create HTTP client: ").concat(error.as_str()),
                    None,
                ),
            ),
            ChatReply::SendFailed { failure, error } => {
                let message = match failure {
                    SendFailure::Timeout => owned(
                        "OpenAI request timed out after 120 seconds. Check your network connection.",
                    ),
                    SendFailure::Connect => owned(
                        "Cannot connect to OpenAI API. Check your internet connection.",
                    ),
                    SendFailure::Other => String::from_str("OpenAI request failed: ").concat(
                        error.as_str(),
                    ),
                };
                Err(cleanup_error("network_error", message, None))
            },
            ChatReply::ErrorStatus { status, body } => {
                let b = match body {
                    Some(b) => b,
                    None => owned("Unknown error"),
                };
                if status == 401 {
                    Err(
                        cleanup_error(
                            "invalid_api_key",
                            owned(
                                "OpenAI API key is invalid or expired. Check your API key in Settings.",
                            ),
                            Some(b),
                        ),
                    )
                } else if status == 429 {
                    Err(
                        cleanup_error(
                            "rate_limited",
                            owned("OpenAI rate limit reached. Wait a moment and try again."),
                            Some(b),
                        ),
                    )
                } else {
                    let mut out = crate::text::chars_of("OpenAI returned error ");
                    push_decimal(&mut out, status as u64);
                    crate::text::append_str(&mut out, ": ");
                    crate::text::append_str(&mut out, b.as_str());
                    Err(cleanup_error("openai_error", string_of(&out), Some(b)))
                }
            },
            ChatReply::Success { body } => match body {
                Err(msg) => Err(
                    cleanup_error(
                        "parse_error",
                        String::from_str("Failed to parse OpenAI response: ").concat(msg.as_str()),
                        None,
                    ),
                ),
                Ok(bytes) => match chat_content(bytes.as_slice()) {
                    None => Err(
                        cleanup_error(
                            "parse_error",
                            owned("Failed to parse OpenAI response: error decoding response body"),
                            None,
                        ),
                    ),
                    Some(c) => {
                        let final_text = match c {
                            Some(t) => trim_string(t.as_str()),
                            None => {
                                let empty = String::new();
                                trim_string(empty.as_str())
                            },
                        };
                        if final_text.as_str().is_empty() {
                            return Err(
                                cleanup_error(
                                    "empty_response",
                                    owned(
                                        "OpenAI returned an empty response. Try again or use Basic cleanup.",
                                    ),
                                    Some(
                                        owned(
                                            "The model produced no output text. The input may need adjustment.",
                                        ),
                                    ),
                                ),
                            );
                        }
                        let changed = !crate::text::str_eq(
                            final_text.as_str(),
                            raw_trimmed.as_str(),
                        );
                        let mut warnings: Vec<String> = Vec::new();
                        warnings.push(
                            owned("Text was sent to OpenAI (api.openai.com) for cloud AI cleanup."),
                        );
                        if !changed {
                            warnings.push(
                                owned(
                                    "OpenAI returned text identical to the input. No cleanup was applied.",
                                ),
                            );
                        }
                        assert(string_views(warnings@) =~= openai_warnings(changed));
                        Ok(
                            CleanupResult {
                                raw_text: raw_trimmed,
                                final_text,
                                mode: request.mode,
                                provider: CleanupProviderKind::OpenAi,
                                is_mock: false,
                                changed,
                                created_at: request.created_at.clone(),
                                completed_at,
                                duration_ms,
                                warnings,
                                error: None,
                            },
                        )
                    },
                },
            },
        }
    }
}

} // verus!

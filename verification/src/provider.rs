//! Chat messages sent to the language model, and the clean-up applied to a
//! model's answer before it is read as JSON.
use vstd::prelude::*;
use crate::text::{strip_prefix_all, strip_suffix_all, trim, trim_end_matches, trim_seq,
    trim_start_matches};

verus! {

/// Role of a chat message.
#[derive(Debug, Clone, Copy, PartialEq, Eq, Structural)]
pub enum LlmRole {
    System,
    User,
    Assistant,
}

/// One chat message.
#[derive(Debug, Clone)]
pub struct LlmMessage {
    pub role: LlmRole,
    pub content: String,
}

impl LlmMessage {
    /// A system message.
    pub fn system(content: &str) -> (r: Self)
        ensures
            r.role == LlmRole::System,
            r.content@ == content@,
    {
        LlmMessage { role: LlmRole::System, content: content.to_owned() }
    }

    /// A user message.
    pub fn user(content: &str) -> (r: Self)
        ensures
            r.role == LlmRole::User,
            r.content@ == content@,
    {
        LlmMessage { role: LlmRole::User, content: content.to_owned() }
    }

    /// An assistant message.
    pub fn assistant(content: &str) -> (r: Self)
        ensures
            r.role == LlmRole::Assistant,
            r.content@ == content@,
    {
        LlmMessage { role: LlmRole::Assistant, content: content.to_owned() }
    }
}

/// The JSON text inside a model answer: trimmed, leading "```json" and
/// "```" fences and trailing "```" fences removed, trimmed again.
pub open spec fn json_body_spec(raw: Seq<char>) -> Seq<char> {
    trim_seq(
        strip_suffix_all(
            strip_prefix_all(strip_prefix_all(trim_seq(raw), "```json"@), "```"@),
            "```"@,
        ),
    )
}

/// Strips markdown code fences that a model may wrap its JSON answer in.
pub fn json_body(raw: &str) -> (r: String)
    ensures
        r@ == json_body_spec(raw@),
{
    let a = trim(raw);
    let b = trim_start_matches(a.as_str(), "```json");
    let c = trim_start_matches(b.as_str(), "```");
    let d = trim_end_matches(c.as_str(), "```");
    trim(d.as_str())
}

} // verus!

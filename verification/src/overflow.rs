//! Recognising responses that failed because the context window overflowed.
use vstd::prelude::*;

use crate::ai_types::{AssistantMessage, StopReason};

verus! {

/// What `regex::Regex::new(pattern)` followed by `is_match(text)` gives:
/// `None` where the pattern does not compile, else whether it matches.
pub uninterp spec fn regex_match(pattern: Seq<char>, text: Seq<char>) -> Option<bool>;

/// `regex::Regex::new` and `Regex::is_match`. The contract claims only that
/// the outcome is the named match of the pattern on the text.
#[verifier::external_body]
pub(crate) fn regex_is_match(pattern: &str, text: &str) -> (r: Option<bool>)
    ensures
        r == regex_match(pattern@, text@),
{
    match regex::Regex::new(pattern) {
        Ok(re) => Some(re.is_match(text)),
        Err(_) => None,
    }
}

/// The error texts of providers that report an overflowing context, as
/// case-insensitive patterns.
pub open spec fn overflow_patterns() -> Seq<Seq<char>> {
    seq![
        "(?i)prompt is too long"@,
        "(?i)input is too long for requested model"@,
        "(?i)exceeds the context window"@,
        "(?i)input token count.*exceeds the maximum"@,
        "(?i)maximum prompt length is \\d+"@,
        "(?i)reduce the length of the messages"@,
        "(?i)maximum context length is \\d+ tokens"@,
        "(?i)exceeds the limit of \\d+"@,
        "(?i)exceeds the available context size"@,
        "(?i)greater than the context length"@,
        "(?i)context window exceeds limit"@,
        "(?i)exceeded model token limit"@,
        "(?i)context[_ ]length[_ ]exceeded"@,
        "(?i)too many tokens"@,
        "(?i)token limit exceeded"@,
        "(?i)^4(00|13)\\s*(status code)?\\s*\\(no body\\)"@,
    ]
}

fn overflow_pattern_list() -> (r: Vec<&'static str>)
    ensures
        r@.map_values(|p: &str| p@) == overflow_patterns(),
{
    let v: Vec<&'static str> = vec![
        "(?i)prompt is too long",
        "(?i)input is too long for requested model",
        "(?i)exceeds the context window",
        "(?i)input token count.*exceeds the maximum",
        "(?i)maximum prompt length is \\d+",
        "(?i)reduce the length of the messages",
        "(?i)maximum context length is \\d+ tokens",
        "(?i)exceeds the limit of \\d+",
        "(?i)exceeds the available context size",
        "(?i)greater than the context length",
        "(?i)context window exceeds limit",
        "(?i)exceeded model token limit",
        "(?i)context[_ ]length[_ ]exceeded",
        "(?i)too many tokens",
        "(?i)token limit exceeded",
        "(?i)^4(00|13)\\s*(status code)?\\s*\\(no body\\)",
    ];
    assert(v@.map_values(|p: &str| p@) =~= overflow_patterns());
    v
}

/// Whether an error text matches one of the overflow patterns.
pub open spec fn error_text_overflows(text: Seq<char>) -> bool {
    exists|i: int| 0 <= i < overflow_patterns().len() && regex_match(overflow_patterns()[i], text) == Some(true)
}

/// A response that failed with an error text matching any of the providers'
/// overflow messages (Anthropic's "prompt is too long", Gemini's "input token
/// count ... exceeds the maximum", OpenAI's "maximum context length is N
/// tokens", an empty 400 or 413 reply, and the others listed here) is an
/// overflow, whatever its token counts and context window.
pub proof fn lemma_provider_messages_overflow(text: Seq<char>, input_tokens: int, context_window: Option<u64>)
    requires
        regex_match("(?i)prompt is too long"@, text) == Some(true) || regex_match(
            "(?i)input is too long for requested model"@,
            text,
        ) == Some(true) || regex_match("(?i)exceeds the context window"@, text) == Some(true) || regex_match(
            "(?i)input token count.*exceeds the maximum"@,
            text,
        ) == Some(true) || regex_match("(?i)maximum prompt length is \\d+"@, text) == Some(true) || regex_match(
            "(?i)reduce the length of the messages"@,
            text,
        ) == Some(true) || regex_match("(?i)maximum context length is \\d+ tokens"@, text) == Some(true)
            || regex_match("(?i)exceeds the limit of \\d+"@, text) == Some(true) || regex_match(
            "(?i)exceeds the available context size"@,
            text,
        ) == Some(true) || regex_match("(?i)greater than the context length"@, text) == Some(true) || regex_match(
            "(?i)context window exceeds limit"@,
            text,
        ) == Some(true) || regex_match("(?i)exceeded model token limit"@, text) == Some(true) || regex_match(
            "(?i)context[_ ]length[_ ]exceeded"@,
            text,
        ) == Some(true) || regex_match("(?i)too many tokens"@, text) == Some(true) || regex_match(
            "(?i)token limit exceeded"@,
            text,
        ) == Some(true) || regex_match("(?i)^4(00|13)\\s*(status code)?\\s*\\(no body\\)"@, text) == Some(true),
    ensures
        error_text_overflows(text),
        spec_overflow(StopReason::Error, true, error_text_overflows(text), input_tokens, context_window),
{
    let ps = overflow_patterns();
    if regex_match(ps[0], text) == Some(true) {
        assert(0 <= 0 < ps.len());
    } else if regex_match(ps[1], text) == Some(true) {
        assert(0 <= 1 < ps.len());
    } else if regex_match(ps[2], text) == Some(true) {
        assert(0 <= 2 < ps.len());
    } else if regex_match(ps[3], text) == Some(true) {
        assert(0 <= 3 < ps.len());
    } else if regex_match(ps[4], text) == Some(true) {
        assert(0 <= 4 < ps.len());
    } else if regex_match(ps[5], text) == Some(true) {
        assert(0 <= 5 < ps.len());
    } else if regex_match(ps[6], text) == Some(true) {
        assert(0 <= 6 < ps.len());
    } else if regex_match(ps[7], text) == Some(true) {
        assert(0 <= 7 < ps.len());
    } else if regex_match(ps[8], text) == Some(true) {
        assert(0 <= 8 < ps.len());
    } else if regex_match(ps[9], text) == Some(true) {
        assert(0 <= 9 < ps.len());
    } else if regex_match(ps[10], text) == Some(true) {
        assert(0 <= 10 < ps.len());
    } else if regex_match(ps[11], text) == Some(true) {
        assert(0 <= 11 < ps.len());
    } else if regex_match(ps[12], text) == Some(true) {
        assert(0 <= 12 < ps.len());
    } else if regex_match(ps[13], text) == Some(true) {
        assert(0 <= 13 < ps.len());
    } else if regex_match(ps[14], text) == Some(true) {
        assert(0 <= 14 < ps.len());
    } else if regex_match(ps[15], text) == Some(true) {
        assert(0 <= 15 < ps.len());
    }
}

/// The decision, given whether the error text matched a pattern: a response
/// that failed with an error text that matched, or one that stopped normally
/// after an input (with cache reads) larger than the context window.
pub open spec fn spec_overflow(
    stop_reason: StopReason,
    has_error_text: bool,
    error_matched: bool,
    input_tokens: int,
    context_window: Option<u64>,
) -> bool {
    (stop_reason == StopReason::Error && has_error_text && error_matched) || (match context_window {
        Some(cw) => stop_reason == StopReason::Stop && input_tokens > cw,
        None => false,
    })
}

/// Decides overflow for a response, given whether its error text matched an
/// overflow pattern.
pub fn overflow_decision(message: &AssistantMessage, context_window: Option<u64>, error_matched: bool) -> (r: bool)
    ensures
        r == spec_overflow(
            message.stop_reason,
            message.error_message is Some,
            error_matched,
            message.usage.input + message.usage.cache_read,
            context_window,
        ),
{
    if message.stop_reason == StopReason::Error && message.error_message.is_some() && error_matched {
        return true;
    }
    match context_window {
        Some(cw) => {
            if message.stop_reason == StopReason::Stop {
                let input: u128 = message.usage.input as u128 + message.usage.cache_read as u128;
                input > cw as u128
            } else {
                false
            }
        },
        None => false,
    }
}

/// Whether a response failed because its context overflowed: an error whose
/// text matches a provider's overflow message, or a normal stop after more
/// input than the context window holds.
pub fn is_context_overflow(message: &AssistantMessage, context_window: Option<u64>) -> (r: bool)
    ensures
        r == spec_overflow(
            message.stop_reason,
            message.error_message is Some,
            match message.error_message {
                Some(t) => error_text_overflows(t@),
                None => false,
            },
            message.usage.input + message.usage.cache_read,
            context_window,
        ),
{
    let mut matched = false;
    if message.stop_reason == StopReason::Error {
        if let Some(text) = &message.error_message {
            let patterns = overflow_pattern_list();
            let mut i: usize = 0;
            while i < patterns.len()
                invariant
                    i <= patterns@.len(),
                    patterns@.map_values(|p: &str| p@) == overflow_patterns(),
                    matched == exists|j: int| 0 <= j < i && regex_match(overflow_patterns()[j], text@) == Some(true),
                decreases patterns@.len() - i,
            {
                let hit = regex_is_match(patterns[i], text.as_str());
                proof {
                    assert(patterns@[i as int]@ == overflow_patterns()[i as int]);
                }
                if hit == Some(true) {
                    matched = true;
                }
                i = i + 1;
            }
        }
    }
    overflow_decision(message, context_window, matched)
}

} // verus!

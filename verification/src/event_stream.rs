//! How a response stream ends.
use vstd::prelude::*;

use crate::ai_types::{AssistantMessage, AssistantMessageEvent, AssistantView, StopReason, Usage};

verus! {

/// Whether a stop reason ends a stream with an error.
pub open spec fn ends_in_error(reason: StopReason) -> bool {
    reason == StopReason::Error || reason == StopReason::Aborted
}

/// The last event of a stream for its final message: `Error` where the
/// message stopped with an error or was aborted, else `Done`; either carries
/// the stop reason and a copy of the message.
pub fn finish_event(message: &AssistantMessage) -> (r: AssistantMessageEvent)
    ensures
        ends_in_error(message.stop_reason) ==> (r matches AssistantMessageEvent::Error { reason, error }
            && reason == message.stop_reason && error@ == message@),
        !ends_in_error(message.stop_reason) ==> (r matches AssistantMessageEvent::Done { reason, message: m }
            && reason == message.stop_reason && m@ == message@),
{
    let reason = message.stop_reason;
    match reason {
        StopReason::Error | StopReason::Aborted => AssistantMessageEvent::Error { reason, error: message.copy() },
        _ => AssistantMessageEvent::Done { reason, message: message.copy() },
    }
}

/// The message of a request that failed before any response: no content, no
/// usage, an `Error` stop with the failure's text.
pub fn failed_message(api: &str, provider: &str, model: &str, error: String, now: u64) -> (r: AssistantMessage)
    ensures
        r@ == (AssistantView {
            content: Seq::empty(),
            api: api@,
            provider: provider@,
            model: model@,
            usage: Usage::zero_spec(),
            stop_reason: StopReason::Error,
            error_message: Some(error@),
            timestamp: now,
        }),
{
    let mut m = AssistantMessage::empty();
    m.api = api.to_owned();
    m.provider = provider.to_owned();
    m.model = model.to_owned();
    m.stop_reason = StopReason::Error;
    m.error_message = Some(error);
    m.timestamp = now;
    assert(m@.content =~= Seq::<crate::ai_types::BlockView>::empty());
    m
}

} // verus!

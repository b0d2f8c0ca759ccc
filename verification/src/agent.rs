//! The state an agent keeps between runs: its settings, its history and
//! whether a run is under way.
use vstd::prelude::*;

use crate::agent_types::AgentThinkingLevel;
use crate::ai_types::{Message, Model, UserContent, UserMessage};
use crate::data::DataValue;
use crate::errors::AgentError;

verus! {

pub struct Agent {
    pub system_prompt: Option<String>,
    pub model: Model,
    pub thinking_level: AgentThinkingLevel,
    /// The sampling temperature, as the JSON number it is sent as.
    pub temperature: Option<DataValue>,
    pub max_tokens: Option<u32>,
    pub messages: Vec<Message>,
    pub is_streaming: bool,
}

impl Agent {
    /// A new agent with an empty history, not streaming; thinking is off
    /// unless a level is given.
    pub fn new(
        system_prompt: Option<String>,
        model: Model,
        thinking_level: Option<AgentThinkingLevel>,
        temperature: Option<DataValue>,
        max_tokens: Option<u32>,
    ) -> (r: Agent)
        ensures
            r.system_prompt == system_prompt,
            r.model == model,
            r.thinking_level == (match thinking_level {
                Some(l) => l,
                None => AgentThinkingLevel::Off,
            }),
            r.temperature == temperature,
            r.max_tokens == max_tokens,
            r.messages@.len() == 0,
            !r.is_streaming,
    {
        let level = match thinking_level {
            Some(l) => l,
            None => AgentThinkingLevel::Off,
        };
        Agent {
            system_prompt,
            model,
            thinking_level: level,
            temperature,
            max_tokens,
            messages: Vec::new(),
            is_streaming: false,
        }
    }

    /// Starts a run on a prompt: refused while a run is under way; else the
    /// prompt joins the history as a user message of that time and the agent
    /// is streaming.
    pub fn prompt(&mut self, text: &str, now: u64) -> (r: Result<(), AgentError>)
        ensures
            old(self).is_streaming ==> (r matches Err(AgentError::AlreadyStreaming)),
            old(self).is_streaming ==> *final(self) == *old(self),
            !old(self).is_streaming ==> {
                &&& r is Ok
                &&& final(self).is_streaming
                &&& final(self).messages@.len() == old(self).messages@.len() + 1
                &&& final(self).messages@.take(old(self).messages@.len() as int) == old(self).messages@
                &&& final(self).messages@.last() matches Message::User(
                    UserMessage { content: UserContent::Text(t), timestamp },
                ) && t@ == text@ && timestamp == now
                &&& final(self).model == old(self).model
                &&& final(self).system_prompt == old(self).system_prompt
                &&& final(self).thinking_level == old(self).thinking_level
            },
    {
        if self.is_streaming {
            return Err(AgentError::AlreadyStreaming);
        }
        let ghost before = self.messages@;
        self.messages.push(
            Message::User(UserMessage { content: UserContent::Text(text.to_owned()), timestamp: now }),
        );
        assert(self.messages@.take(before.len() as int) =~= before);
        self.is_streaming = true;
        Ok(())
    }

    /// Ends a run: its history replaces the agent's, and the agent is idle.
    pub fn finish_run(&mut self, messages: Vec<Message>)
        ensures
            final(self).messages == messages,
            !final(self).is_streaming,
            final(self).model == old(self).model,
            final(self).system_prompt == old(self).system_prompt,
            final(self).thinking_level == old(self).thinking_level,
    {
        self.messages = messages;
        self.is_streaming = false;
    }

    pub fn set_model(&mut self, model: Model)
        ensures
            final(self).model == model,
            final(self).messages == old(self).messages,
            final(self).system_prompt == old(self).system_prompt,
            final(self).thinking_level == old(self).thinking_level,
            final(self).is_streaming == old(self).is_streaming,
    {
        self.model = model;
    }

    pub fn set_system_prompt(&mut self, prompt: Option<String>)
        ensures
            final(self).system_prompt == prompt,
            final(self).messages == old(self).messages,
            final(self).model == old(self).model,
            final(self).thinking_level == old(self).thinking_level,
            final(self).is_streaming == old(self).is_streaming,
    {
        self.system_prompt = prompt;
    }

    pub fn set_thinking_level(&mut self, level: AgentThinkingLevel)
        ensures
            final(self).thinking_level == level,
            final(self).messages == old(self).messages,
            final(self).model == old(self).model,
            final(self).system_prompt == old(self).system_prompt,
            final(self).is_streaming == old(self).is_streaming,
    {
        self.thinking_level = level;
    }
}

} // verus!

//! Data model of the chat-completions wire format: requests, streamed answers,
//! their deltas and usage figures.
use vstd::prelude::*;

use crate::chat::ProviderRouting;
use crate::tool::spec::ToolSpec;

verus! {

/// Author of a message.
#[derive(Debug, Clone, Copy, PartialEq, Eq, Structural)]
pub enum Role {
    System,
    User,
    Assistant,
    Tool,
}

/// One message, or one streamed delta of a message.
#[derive(Debug)]
pub struct Message {
    pub role: Option<Role>,
    pub content: Option<String>,
    pub reasoning: Option<String>,
    pub tool_calls: Option<Vec<ToolCall>>,
}

/// A (possibly partial) tool call as it appears in a streamed delta.
#[derive(Debug)]
pub struct ToolCall {
    pub id: Option<String>,
    pub type_: Option<String>,
    pub index: usize,
    pub function: ToolCallFunction,
}

/// The function part of a streamed tool call.
#[derive(Debug)]
pub struct ToolCallFunction {
    pub name: Option<String>,
    pub arguments: Option<String>,
}

impl Message {
    /// A message with a role and content, and nothing else.
    pub fn create(role: Role, content: String) -> (res: Self)
        ensures
            res.role == Some(role),
            res.content == Some(content),
            res.reasoning is None,
            res.tool_calls is None,
    {
        Self { role: Some(role), content: Some(content), reasoning: None, tool_calls: None }
    }
}

/// A chat-completions request.
pub struct Chat {
    pub model: String,
    pub provider: ProviderRouting,
    pub reasoning_effort: ReasoningEffortOpenAI,
    pub messages: Vec<Message>,
    pub stream: bool,
    pub tools: Option<Vec<ToolSpec>>,
    pub tool_choice: ToolChoice,
}

/// Reasoning effort levels understood by OpenAI-style endpoints.
#[derive(Debug, Clone, Copy, PartialEq, Eq, Structural)]
pub enum ReasoningEffortOpenAI {
    NoReasoning,
    Low,
    Medium,
    High,
    Xhigh,
}

/// Whether the model may call tools.
#[derive(Debug, Clone, Copy, PartialEq, Eq, Structural)]
pub enum ToolChoice {
    NoTools,
    Auto,
}

/// Placeholder for a function description.
#[derive(Debug, Clone, Copy, PartialEq, Eq, Structural)]
pub struct Function {}

/// One streamed chunk of an answer.
pub struct Answer {
    pub choices: Vec<Choice>,
    pub created: u64,
    pub id: String,
    pub model: String,
    pub object: String,
    pub usage: Option<Usage>,
}

/// One choice of a streamed chunk.
pub struct Choice {
    pub finish_reason: Option<FinishReason>,
    pub index: usize,
    pub message: Option<Message>,
    pub delta: Message,
    pub logprobs: Option<()>,
}

/// Why the model stopped.
#[derive(Debug, Clone, Copy, PartialEq, Eq, Structural)]
pub enum FinishReason {
    Stop,
    ToolCalls,
}

/// Token figures reported with an answer.
#[derive(Debug, Clone, Copy, PartialEq, Eq, Structural)]
pub struct Usage {
    pub completion_tokens: u64,
    pub prompt_tokens: u64,
    pub total_tokens: u64,
    pub prompt_tokens_details: PromptTokensDetails,
}

/// Details of the prompt tokens.
#[derive(Debug, Clone, Copy, PartialEq, Eq, Structural)]
pub struct PromptTokensDetails {
    pub cached_tokens: u64,
}

impl Default for PromptTokensDetails {
    fn default() -> (res: Self)
        ensures
            res.cached_tokens == 0,
    {
        PromptTokensDetails { cached_tokens: 0 }
    }
}

} // verus!

//! The request body of a chat: the model, its settings and the messages exchanged so far.
use vstd::prelude::*;
use vstd::std_specs::convert::FromSpecImpl;
use vstd::string::StringExecFns;

use crate::assembler;
use crate::tool::spec::ToolSpec;

verus! {

/// The tool choice that lets the model decide.
pub const TOOL_CHOICE_AUTO: &'static str = "auto";

/// Provider routing preferences sent with a request: the providers to try, in order,
/// and whether others may be used when they fail.
pub struct ProviderRouting {
    pub order: Vec<String>,
    pub allow_fallbacks: bool,
}

/// A chat request.
pub struct Chat {
    pub model: String,
    pub providers: Option<ProviderRouting>,
    pub reasoning_effort: Option<String>,
    pub tools: Option<Vec<ToolSpec>>,
    pub tool_choice: &'static str,
    pub stream: bool,
    pub messages: Vec<Message>,
}

/// A message of the conversation, tagged with its role.
pub enum Message {
    System(SimpleMessage),
    User(SimpleMessage),
    Assistant(AssistantMessage),
    Tool(Tool),
}

/// A message that is only text.
#[derive(Debug)]
pub struct SimpleMessage {
    pub content: String,
}

/// What the assistant said: text, tool calls, or both.
#[derive(Debug)]
pub struct AssistantMessage {
    pub content: Option<String>,
    pub tool_calls: Vec<ToolCall>,
}

/// A tool call the assistant made.
#[derive(Debug)]
pub struct ToolCall {
    pub id: String,
    pub type_: String,
    pub index: usize,
    pub function: ToolCallFunction,
}

/// The function a tool call names, with its arguments as JSON text.
#[derive(Debug)]
pub struct ToolCallFunction {
    pub name: String,
    pub arguments: String,
}

/// The result of a tool call, sent back under the call's id.
#[derive(Debug)]
pub struct Tool {
    pub tool_call_id: String,
    pub content: String,
}

impl Chat {
    /// A streaming chat whose tool choice is left to the model, opened with a system
    /// message and a user message.
    pub fn new(
        model: &str,
        providers: Option<ProviderRouting>,
        reasoning_effort: Option<String>,
        tools: Option<Vec<ToolSpec>>,
        system: &str,
        user: &str,
    ) -> (res: Self)
        ensures
            res.model@ == model@,
            res.providers == providers,
            res.reasoning_effort == reasoning_effort,
            res.tools == tools,
            res.tool_choice@ == TOOL_CHOICE_AUTO@,
            res.stream,
            res.messages@.len() == 2,
            res.messages@[0] matches Message::System(m) && m.content@ == system@,
            res.messages@[1] matches Message::User(m) && m.content@ == user@,
    {
        let system_message = SimpleMessage::new(system);
        let user_message = SimpleMessage::new(user);
        let mut messages: Vec<Message> = Vec::new();
        messages.push(Message::System(system_message));
        messages.push(Message::User(user_message));
        Self {
            model: String::from_str(model),
            providers,
            reasoning_effort,
            tools,
            tool_choice: TOOL_CHOICE_AUTO,
            stream: true,
            messages,
        }
    }
}

impl SimpleMessage {
    /// A message of text.
    pub fn new(content: &str) -> (res: Self)
        ensures
            res.content@ == content@,
    {
        Self { content: String::from_str(content) }
    }
}

impl AssistantMessage {
    /// What the assistant said.
    pub fn new(content: Option<String>, tool_calls: Vec<ToolCall>) -> (res: Self)
        ensures
            res.content == content,
            res.tool_calls == tool_calls,
    {
        Self { content, tool_calls }
    }
}

impl From<&assembler::ToolCall> for ToolCall {
    fn from(value: &assembler::ToolCall) -> (res: Self) {
        Self {
            id: value.id.clone(),
            type_: value.type_.clone(),
            index: value.index,
            function: ToolCallFunction {
                name: value.function.clone(),
                arguments: value.arguments.clone(),
            },
        }
    }
}

impl FromSpecImpl<&assembler::ToolCall> for ToolCall {
    open spec fn obeys_from_spec() -> bool {
        true
    }

    open spec fn from_spec(value: &assembler::ToolCall) -> ToolCall {
        ToolCall {
            id: value.id,
            type_: value.type_,
            index: value.index,
            function: ToolCallFunction { name: value.function, arguments: value.arguments },
        }
    }
}

impl Tool {
    /// The result of the tool call with id `tool_call_id`.
    pub fn new(tool_call_id: String, content: String) -> (res: Self)
        ensures
            res.tool_call_id == tool_call_id,
            res.content == content,
    {
        Self { tool_call_id, content }
    }
}

} // verus!

//! Typed payloads for the chat-completion endpoint: the conversation
//! messages, the tool descriptions the model may call, the request with its
//! sampling knobs, and the typed response.
//!
//! These are the field definitions that the dispatch pipeline treats as an
//! external collaborator; serialization to the wire format happens outside
//! the verified core, which only fixes the endpoint path and the constructor
//! invariants here.

use vstd::prelude::*;

verus! {

/// The JSON value type of the outside JSON library; carried opaquely for a
/// tool function's parameter schema.
#[verifier::external_type_specification]
#[verifier::external_body]
pub struct ExValue(serde_json::Value);

/// Controls which (if any) tool function the model calls: no tool at all
/// (serialized as "none"), the model's own choice, or one named function.
#[derive(Debug)]
pub enum ToolChoice {
    NoTool,
    Auto,
    Function { name: String },
}

/// The type of a tool; only functions are supported.
#[derive(Debug, Clone, Copy, PartialEq, Eq, Structural)]
pub enum ToolType {
    Function,
}

/// Description of one function the model may call.
#[derive(Debug)]
pub struct FunctionInfo {
    /// What the function does; the model uses this to choose when to call it.
    pub description: String,
    /// The function's name: a-z, A-Z, 0-9, underscores and dashes.
    pub name: String,
    /// The parameters the function accepts, as a JSON Schema object.
    pub parameters: serde_json::Value,
}

/// One tool the model may use.
#[derive(Debug)]
pub struct Tool {
    pub typ: ToolType,
    pub function: FunctionInfo,
}

impl Tool {
    /// A function tool with the given name, description and JSON Schema for
    /// its parameters. The schema is produced outside the verified core and
    /// carried through unchanged.
    pub fn new_function(name: String, description: String, parameters: serde_json::Value) -> (t:
        Tool)
        ensures
            t.typ == ToolType::Function,
            t.function.name@ == name@,
            t.function.description@ == description@,
            t.function.parameters == parameters,
    {
        Tool { typ: ToolType::Function, function: FunctionInfo { description, name, parameters } }
    }
}

/// Asks the model for plain text or guaranteed-JSON output.
#[derive(Debug, Clone, Copy, PartialEq, Eq, Structural)]
pub enum ChatResponseFormat {
    Json,
    Text,
}

/// Wrapper object carrying the response format on the wire.
#[derive(Debug, Clone, Copy, PartialEq, Eq, Structural)]
pub struct ChatResponseFormatObject {
    pub typ: ChatResponseFormat,
}

/// A message from the system role.
#[derive(Debug)]
pub struct SystemMessage {
    pub content: String,
    /// Optional participant name, to tell participants of one role apart.
    pub name: Option<String>,
}

impl SystemMessage {
    /// A system message with no participant name.
    pub fn new(content: String) -> (m: SystemMessage)
        ensures
            m.content@ == content@,
            m.name is None,
    {
        SystemMessage { content, name: None }
    }
}

/// A message from the user role.
#[derive(Debug)]
pub struct UserMessage {
    pub content: String,
    pub name: Option<String>,
}

/// The type of a tool call; only functions are supported.
#[derive(Debug, Clone, Copy, PartialEq, Eq, Structural)]
pub enum ToolCallType {
    Function,
}

/// The function a tool call names, with its model-generated arguments.
#[derive(Debug)]
pub struct Function {
    pub name: String,
    /// JSON-encoded arguments; the model may produce invalid JSON, so
    /// callers validate before use.
    pub arguments: String,
}

/// One tool call generated by the model.
#[derive(Debug)]
pub struct ToolCall {
    pub id: String,
    pub typ: ToolCallType,
    pub function: Function,
}

/// A message from the assistant role.
#[derive(Debug)]
pub struct AssistantMessage {
    pub content: Option<String>,
    pub name: Option<String>,
    pub tool_calls: Vec<ToolCall>,
}

/// A message reporting a tool's result.
#[derive(Debug)]
pub struct ToolMessage {
    pub content: String,
    /// The tool call this message answers.
    pub tool_call_id: String,
}

/// One message of the conversation, tagged by role.
#[derive(Debug)]
pub enum ChatCompletionMessage {
    System(SystemMessage),
    User(UserMessage),
    Assistant(AssistantMessage),
    Tool(ToolMessage),
}

impl ChatCompletionMessage {
    /// An optional participant name: empty means none.
    pub fn get_name(name: &str) -> (r: Option<String>)
        ensures
            name@.len() == 0 ==> r is None,
            name@.len() > 0 ==> (r matches Some(s) && s@ == name@),
    {
        if name.is_empty() {
            None
        } else {
            Some(name.to_owned())
        }
    }

    /// A system message; an empty `name` means no participant name.
    pub fn new_system(content: &str, name: &str) -> (m: ChatCompletionMessage)
        ensures
            m matches ChatCompletionMessage::System(s) && s.content@ == content@ && (name@.len()
                == 0 ==> s.name is None) && (name@.len() > 0 ==> (s.name matches Some(n) && n@
                == name@)),
    {
        ChatCompletionMessage::System(
            SystemMessage { content: content.to_owned(), name: Self::get_name(name) },
        )
    }

    /// A user message; an empty `name` means no participant name.
    pub fn new_user(content: &str, name: &str) -> (m: ChatCompletionMessage)
        ensures
            m matches ChatCompletionMessage::User(u) && u.content@ == content@ && (name@.len() == 0
                ==> u.name is None) && (name@.len() > 0 ==> (u.name matches Some(n) && n@
                == name@)),
    {
        ChatCompletionMessage::User(
            UserMessage { content: content.to_owned(), name: Self::get_name(name) },
        )
    }
}

/// The chat models this SDK knows.
#[derive(Debug, Clone, Copy, PartialEq, Eq, Structural)]
pub enum ChatCompletionModel {
    Gpt3Turbo,
    Gpt3TurboInstruct,
    Gpt4Turbo,
    Gpt4TurboVision,
}

impl ChatCompletionModel {
    /// The model's wire name.
    pub open spec fn spec_str(self) -> Seq<char> {
        match self {
            ChatCompletionModel::Gpt3Turbo => "gpt-3.5-turbo"@,
            ChatCompletionModel::Gpt3TurboInstruct => "gpt-3.5-turbo-instruct"@,
            ChatCompletionModel::Gpt4Turbo => "gpt-4-1106-preview"@,
            ChatCompletionModel::Gpt4TurboVision => "gpt-4-1106-vision-preview"@,
        }
    }

    /// The model's wire name.
    pub fn as_str(&self) -> (s: &'static str)
        ensures
            s@ == self.spec_str(),
    {
        match self {
            ChatCompletionModel::Gpt3Turbo => "gpt-3.5-turbo",
            ChatCompletionModel::Gpt3TurboInstruct => "gpt-3.5-turbo-instruct",
            ChatCompletionModel::Gpt4Turbo => "gpt-4-1106-preview",
            ChatCompletionModel::Gpt4TurboVision => "gpt-4-1106-vision-preview",
        }
    }
}

/// A chat-completion request. Sampling knobs that the provider reads as
/// decimal numbers (`frequency_penalty`, `presence_penalty`, `temperature`,
/// `top_p`) are carried as their decimal text, exactly as sent on the wire.
#[derive(Debug)]
pub struct ChatCompletionRequest {
    /// The conversation so far.
    pub messages: Vec<ChatCompletionMessage>,
    pub model: ChatCompletionModel,
    /// Number between -2.0 and 2.0, as decimal text.
    pub frequency_penalty: Option<String>,
    /// Upper bound on generated tokens.
    pub max_tokens: Option<usize>,
    /// How many choices to generate.
    pub n: Option<usize>,
    /// Number between -2.0 and 2.0, as decimal text.
    pub presence_penalty: Option<String>,
    pub response_format: Option<ChatResponseFormatObject>,
    pub seed: Option<usize>,
    /// Stop sequence.
    pub stop: Option<String>,
    pub stream: Option<bool>,
    /// Sampling temperature between 0 and 2, as decimal text.
    pub temperature: Option<String>,
    /// Nucleus-sampling mass between 0 and 1, as decimal text.
    pub top_p: Option<String>,
    /// Tools the model may call.
    pub tools: Vec<Tool>,
    pub tool_choice: Option<ToolChoice>,
    /// End-user identifier for abuse monitoring.
    pub user: Option<String>,
}

impl ChatCompletionRequest {
    /// A request for the default model with everything else unset.
    pub fn new(messages: Vec<ChatCompletionMessage>) -> (r: ChatCompletionRequest)
        ensures
            r.messages == messages,
            r.model == ChatCompletionModel::Gpt3Turbo,
            r.frequency_penalty is None,
            r.max_tokens is None,
            r.n is None,
            r.presence_penalty is None,
            r.response_format is None,
            r.seed is None,
            r.stop is None,
            r.stream is None,
            r.temperature is None,
            r.top_p is None,
            r.tools@.len() == 0,
            r.tool_choice is None,
            r.user is None,
    {
        ChatCompletionRequest {
            messages,
            model: ChatCompletionModel::Gpt3Turbo,
            frequency_penalty: None,
            max_tokens: None,
            n: None,
            presence_penalty: None,
            response_format: None,
            seed: None,
            stop: None,
            stream: None,
            temperature: None,
            top_p: None,
            tools: Vec::new(),
            tool_choice: None,
            user: None,
        }
    }

    /// The endpoint this request is sent to, under the given base URL.
    pub fn url(base_url: &str) -> (u: String)
        ensures
            u@ == base_url@ + "/chat/completions"@,
    {
        String::from_str(base_url).concat("/chat/completions")
    }
}

/// Why the model stopped generating.
#[derive(Debug, Clone, Copy, PartialEq, Eq, Structural)]
pub enum FinishReason {
    Stop,
    Length,
    ContentFilter,
    ToolCalls,
}

/// Token usage of one completion.
#[derive(Debug, Clone, Copy, PartialEq, Eq, Structural)]
pub struct ChatCompletionUsage {
    pub completion_tokens: usize,
    pub prompt_tokens: usize,
    pub total_tokens: usize,
}

/// One generated choice.
#[derive(Debug)]
pub struct ChatCompletionChoice {
    pub finish_reason: FinishReason,
    pub index: usize,
    pub message: AssistantMessage,
}

/// The typed response of the chat-completion endpoint.
#[derive(Debug)]
pub struct ChatCompletionResponse {
    pub id: String,
    pub choices: Vec<ChatCompletionChoice>,
    /// Unix timestamp (seconds) of creation.
    pub created: usize,
    pub model: String,
    pub system_fingerprint: Option<String>,
    /// Always "chat.completion".
    pub object: String,
    pub usage: ChatCompletionUsage,
}

} // verus!

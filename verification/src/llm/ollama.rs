//! The Ollama provider.

use crate::llm::open_ai::{
    create_request_tools, request_views, requests_for, RequestTool, Role,
};
use crate::llm::endpoint::{clone_url, endpoint, fits, text, url_path, url_text, url_with_path};
use crate::llm::{LlmError, ToolCall};
use crate::tool::{meta_views, ToolMeta};
use url::Url;
use vstd::prelude::*;
use vstd::string::*;

verus! {

/// An Ollama LLM API configuration.
#[derive(Debug)]
pub struct OllamaConfig {
    pub base_url: Url,
    pub model: String,
}

impl Clone for OllamaConfig {
    fn clone(&self) -> (copy: Self)
        ensures
            copy == *self,
    {
        OllamaConfig { base_url: clone_url(&self.base_url), model: self.model.clone() }
    }
}

/// An Ollama API client.
pub struct OllamaClient {
    config: OllamaConfig,
}

impl OllamaClient {
    /// The settings of the client.
    pub closed spec fn config(&self) -> OllamaConfig {
        self.config
    }

    /// Creates a client with these settings.
    pub fn new(config: OllamaConfig) -> (client: Self)
        ensures
            client.config() == config,
    {
        OllamaClient { config }
    }

    /// Creates a boxed client with these settings.
    pub fn new_boxed(config: OllamaConfig) -> (client: Box<Self>)
        ensures
            client.config() == config,
    {
        Box::new(OllamaClient { config })
    }

    /// The base URL that requests go to, written out.
    pub fn base_url(&self) -> (url: &str)
        ensures
            url@ == url_text(&self.config().base_url),
    {
        text(&self.config.base_url)
    }

    /// The address of the chat endpoint: the base URL with `api/chat` behind
    /// its path.
    pub fn chat_url(&self) -> (res: Result<Url, LlmError>)
        ensures
            fits(&self.config().base_url, "api/chat"@) ==> res == Ok::<Url, LlmError>(
                url_with_path(
                    &self.config().base_url,
                    url_path(&self.config().base_url) + "api/chat"@,
                ),
            ),
            !fits(&self.config().base_url, "api/chat"@) ==> (res matches Err(
                LlmError::MalformedConfig(what),
            ) && what@ == "base url too long"@),
    {
        endpoint(&self.config.base_url, "api/chat")
    }

    /// The request that asks the model to derive a call of one of `tools`
    /// from `query`: a single message from the user, not streamed.
    pub fn request(&self, tools: Vec<ToolMeta>, query: String) -> (request: ChatRequestPayload)
        ensures
            request.model@ == self.config().model@,
            request.stream == false,
            request.messages@.len() == 1,
            request.messages@[0].role == Role::User,
            request.messages@[0].content == query,
            request.messages@[0].tool_calls@.len() == 0,
            request_views(request.tools@) == requests_for(meta_views(tools@)),
    {
        let mut messages: Vec<Message> = Vec::new();
        messages.push(Message { role: Role::User, content: query, tool_calls: Vec::new() });
        ChatRequestPayload {
            model: self.config.model.clone(),
            messages,
            stream: false,
            tools: create_request_tools(tools),
        }
    }

    /// The tool call that a response proposes, if it proposes exactly one.
    pub fn derive_tool_call(&self, response: ChatResponsePayload) -> (call: Option<ToolCall>)
        ensures
            call == proposed_call(response),
    {
        create_tool_call(response)
    }
}

/// A chat request.
#[derive(Debug)]
pub struct ChatRequestPayload {
    pub model: String,
    pub messages: Vec<Message>,
    pub stream: bool,
    pub tools: Vec<RequestTool>,
}

/// A message of a chat.
#[derive(Debug)]
pub struct Message {
    pub role: Role,
    pub content: String,
    /// The tool calls that the message proposes; none where it says nothing
    /// of any.
    pub tool_calls: Vec<ResponseToolCall>,
}

/// A chat response.
#[derive(Debug)]
pub struct ChatResponsePayload {
    pub message: Message,
}

/// A tool call that a response proposes.
#[derive(Debug)]
pub struct ResponseToolCall {
    pub function: ResponseToolCallFunction,
}

/// The function that a proposed tool call names, and its arguments.
#[derive(Debug)]
pub struct ResponseToolCallFunction {
    pub name: String,
    /// The arguments, as JSON text.
    pub arguments: String,
}

/// The call that a response proposes: the single call of its message. A
/// message with no call proposes none, and neither does one with several.
pub open spec fn proposed_call(response: ChatResponsePayload) -> Option<ToolCall> {
    if response.message.tool_calls@.len() == 1 {
        let function = response.message.tool_calls@[0].function;
        Some(ToolCall { tool: function.name, params: function.arguments })
    } else {
        None
    }
}

/// Takes the tool call out of a response.
///
/// A response that proposes no call, or more than one, yields no call: none
/// is picked.
pub fn create_tool_call(response: ChatResponsePayload) -> (call: Option<ToolCall>)
    ensures
        call == proposed_call(response),
{
    let mut calls = response.message.tool_calls;
    if calls.len() == 1 {
        let call = calls.remove(0);
        Some(ToolCall { tool: call.function.name, params: call.function.arguments })
    } else {
        None
    }
}

} // verus!

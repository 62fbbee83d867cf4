//! The OpenAI provider, and what compatible providers share with it.

use crate::expand::expand_env;
use crate::llm::endpoint::{clone_url, endpoint, fits, text, url_path, url_text, url_with_path};
use crate::llm::{parse_raw_json, raw_json_value, LlmError, ToolCall, ToolCallView};
use crate::tool::schema::{property_views, text_views, Property, PropertyView};
use crate::tool::{meta_views, ToolMeta, ToolMetaView};
use url::Url;
use vstd::prelude::*;
use vstd::string::*;

verus! {

/// An OpenAI LLM API configuration.
#[derive(Debug)]
pub struct OpenAiConfig {
    pub base_url: Url,
    /// The secret sent with each request. Variables in it are expanded when
    /// a request is made, not when the configuration is read.
    pub key: String,
    pub model: String,
}

impl Clone for OpenAiConfig {
    fn clone(&self) -> (copy: Self)
        ensures
            copy == *self,
    {
        OpenAiConfig {
            base_url: clone_url(&self.base_url),
            key: self.key.clone(),
            model: self.model.clone(),
        }
    }
}

/// An OpenAI API client.
pub struct OpenAiClient {
    config: OpenAiConfig,
}

impl OpenAiClient {
    /// The settings of the client.
    pub closed spec fn config(&self) -> OpenAiConfig {
        self.config
    }

    /// Creates a client with these settings.
    pub fn new(config: OpenAiConfig) -> (client: Self)
        ensures
            client.config() == config,
    {
        OpenAiClient { config }
    }

    /// Creates a boxed client with these settings.
    pub fn new_boxed(config: OpenAiConfig) -> (client: Box<Self>)
        ensures
            client.config() == config,
    {
        Box::new(OpenAiClient { config })
    }

    /// The base URL that requests go to, written out.
    pub fn base_url(&self) -> (url: &str)
        ensures
            url@ == url_text(&self.config().base_url),
    {
        text(&self.config.base_url)
    }

    /// The secret as configured, before any variable in it is expanded.
    pub fn key(&self) -> (key: &str)
        ensures
            key@ == self.config().key@,
    {
        self.config.key.as_str()
    }

    /// The address of the chat endpoint: the base URL with
    /// `/chat/completions` behind its path.
    pub fn chat_url(&self) -> (res: Result<Url, LlmError>)
        ensures
            fits(&self.config().base_url, "/chat/completions"@) ==> res == Ok::<Url, LlmError>(
                url_with_path(
                    &self.config().base_url,
                    url_path(&self.config().base_url) + "/chat/completions"@,
                ),
            ),
            !fits(&self.config().base_url, "/chat/completions"@) ==> (res matches Err(
                LlmError::MalformedConfig(what),
            ) && what@ == "base url too long"@),
    {
        endpoint(&self.config.base_url, "/chat/completions")
    }

    /// The value of the authorization header for a secret, given the outcome
    /// of expanding the variables in it.
    pub fn bearer(expanded: Result<String, String>) -> (res: Result<String, LlmError>)
        ensures
            match expanded {
                Ok(key) => res matches Ok(value) && value@ == "Bearer "@ + key@,
                Err(cause) => res == Err::<String, LlmError>(LlmError::Shellexpend(cause)),
            },
    {
        match expanded {
            Ok(key) => Ok(String::from_str("Bearer ").concat(key.as_str())),
            Err(cause) => Err(LlmError::Shellexpend(cause)),
        }
    }

    /// The value of the authorization header for the secret of the
    /// configuration. The variables in the secret are expanded at the time of
    /// the call, so that a secret can change while the program runs.
    ///
    /// A secret that names no variable, which takes a dollar sign, is sent as
    /// it is configured, and there is no failing then.
    pub fn authorization(&self) -> (res: Result<String, LlmError>)
        ensures
            !self.config().key@.contains('$') ==> (res matches Ok(value) && value@ == "Bearer "@
                + self.config().key@),
            res matches Ok(value) ==> value@.len() >= 7 && value@.subrange(0, 7) == "Bearer "@,
            res matches Err(e) ==> e is Shellexpend && self.config().key@.contains('$'),
    {
        let res = Self::bearer(expand_env(self.config.key.as_str()));
        proof {
            reveal_strlit("Bearer ");
            if res is Ok {
                assert(res->Ok_0@.subrange(0, 7) =~= "Bearer "@);
            }
        }
        res
    }

    /// The request that asks the model to derive a call of one of `tools`
    /// from `query`: a single message from the user, not streamed.
    pub fn request(&self, tools: Vec<ToolMeta>, query: String) -> (request: ChatRequestPayload)
        ensures
            request.model@ == self.config().model@,
            request.stream == false,
            request.messages@.len() == 1,
            request.messages@[0].role == Role::User,
            request.messages@[0].content == Some(query),
            request.messages@[0].tool_calls@.len() == 0,
            request_views(request.tools@) == requests_for(meta_views(tools@)),
    {
        let mut messages: Vec<Message> = Vec::new();
        messages.push(Message { role: Role::User, content: Some(query), tool_calls: Vec::new() });
        ChatRequestPayload {
            model: self.config.model.clone(),
            messages,
            stream: false,
            tools: create_request_tools(tools),
        }
    }

    /// The tool call that a response proposes, if it proposes exactly one.
    pub fn derive_tool_call(&self, response: ChatResponsePayload) -> (res: Result<
        Option<ToolCall>,
        LlmError,
    >)
        ensures
            proposed_call(response) is None ==> res matches Ok(None),
            proposed_call(response) matches Some(f) ==> match raw_json_value(f.arguments@) {
                Some(params) => res matches Ok(Some(call)) && call@ == (ToolCallView {
                    tool: f.name@,
                    params,
                }),
                None => res matches Err(LlmError::SerdeJson(_)),
            },
    {
        create_tool_call(response)
    }
}

/// A chat request.
#[derive(Debug)]
pub struct ChatRequestPayload {
    pub model: String,
    pub messages: Vec<Message>,
    pub stream: bool,
    pub tools: Vec<RequestTool>,
}

/// Who a message is from.
#[derive(Clone, Copy, Debug, PartialEq, Eq, Structural)]
pub enum Role {
    Assistant,
    System,
    Tool,
    User,
}

/// A message of a chat.
#[derive(Debug)]
pub struct Message {
    pub role: Role,
    pub content: Option<String>,
    /// The tool calls that the message proposes; none where it says nothing
    /// of any.
    pub tool_calls: Vec<ResponseToolCall>,
}

/// A tool as a request offers it to the model.
#[derive(Debug)]
pub struct RequestTool {
    /// Always `function`.
    pub kind: &'static str,
    pub function: RequestToolFunction,
}

impl RequestTool {
    /// Offers `function` as a tool.
    pub fn new(function: RequestToolFunction) -> (tool: Self)
        ensures
            tool.kind@ == "function"@,
            tool.function == function,
    {
        RequestTool { kind: "function", function }
    }
}

/// The function behind a tool that a request offers.
#[derive(Debug)]
pub struct RequestToolFunction {
    pub name: String,
    pub description: Option<String>,
    pub parameters: RequestToolParameters,
}

/// The parameters of a function that a request offers: an object schema.
#[derive(Debug)]
pub struct RequestToolParameters {
    /// Always `object`.
    pub kind: &'static str,
    pub required: Vec<String>,
    pub properties: Vec<Property>,
}

impl RequestToolParameters {
    /// The parameters of an object with these properties.
    pub fn new(required: Vec<String>, properties: Vec<Property>) -> (parameters: Self)
        ensures
            parameters.kind@ == "object"@,
            parameters.required == required,
            parameters.properties == properties,
    {
        RequestToolParameters { kind: "object", required, properties }
    }
}

/// A tool of a request as the contracts see it.
pub ghost struct RequestToolView {
    pub kind: Seq<char>,
    pub name: Seq<char>,
    pub description: Option<Seq<char>>,
    pub parameters_kind: Seq<char>,
    pub required: Seq<Seq<char>>,
    pub properties: Seq<PropertyView>,
}

impl View for RequestTool {
    type V = RequestToolView;

    open spec fn view(&self) -> RequestToolView {
        RequestToolView {
            kind: self.kind@,
            name: self.function.name@,
            description: self.function.description.deep_view(),
            parameters_kind: self.function.parameters.kind@,
            required: text_views(self.function.parameters.required@),
            properties: property_views(self.function.parameters.properties@),
        }
    }
}

/// The views of a list of request tools.
pub open spec fn request_views(tools: Seq<RequestTool>) -> Seq<RequestToolView> {
    tools.map_values(|t: RequestTool| t@)
}

/// The properties with the type of each narrowed to a single one.
pub open spec fn narrowed_all(properties: Seq<PropertyView>) -> Seq<PropertyView> {
    properties.map_values(|p: PropertyView| p.narrowed())
}

/// The tool that a request offers for a tool with this metadata: a function
/// of the same name and description whose parameters are an object with the
/// same required names and with the properties narrowed to single types.
pub open spec fn request_for(meta: ToolMetaView) -> RequestToolView {
    RequestToolView {
        kind: "function"@,
        name: meta.name,
        description: meta.description,
        parameters_kind: "object"@,
        required: meta.params_schema.required,
        properties: narrowed_all(meta.params_schema.properties),
    }
}

/// The tools that a request offers for the tools with this metadata.
pub open spec fn requests_for(metas: Seq<ToolMetaView>) -> Seq<RequestToolView> {
    metas.map_values(|m: ToolMetaView| request_for(m))
}

/// Narrows the type of each property to a single one, since some compatible
/// providers reject unions.
pub fn narrow_properties(properties: Vec<Property>) -> (single: Vec<Property>)
    ensures
        property_views(single@) == narrowed_all(property_views(properties@)),
{
    let mut single: Vec<Property> = Vec::new();
    let ghost given = property_views(properties@);
    proof {
        assert(property_views(single@) =~= narrowed_all(given.take(0)));
    }
    for property in it: properties
        invariant
            it.seq() == properties@,
            given == property_views(properties@),
            property_views(single@) == narrowed_all(given.take(it.index() as int)),
    {
        let ghost n = it.index() as int;
        let ghost before = single@;
        single.push(property.narrow());
        proof {
            assert(given.take(n + 1) =~= given.take(n).push(given[n]));
            assert(property_views(single@) =~= property_views(before).push(given[n].narrowed()));
            assert(narrowed_all(given.take(n + 1)) =~= narrowed_all(given.take(n)).push(
                given[n].narrowed(),
            ));
        }
    }
    proof {
        assert(given.take(given.len() as int) =~= given);
    }
    single
}

/// Turns the metadata of tools into the tools of a request.
pub fn create_request_tools(tools: Vec<ToolMeta>) -> (requests: Vec<RequestTool>)
    ensures
        request_views(requests@) == requests_for(meta_views(tools@)),
{
    let mut requests: Vec<RequestTool> = Vec::new();
    let ghost given = meta_views(tools@);
    proof {
        assert(request_views(requests@) =~= requests_for(given.take(0)));
    }
    for tool in it: tools
        invariant
            it.seq() == tools@,
            given == meta_views(tools@),
            request_views(requests@) == requests_for(given.take(it.index() as int)),
    {
        let ghost n = it.index() as int;
        let ghost before = requests@;
        let properties = narrow_properties(tool.params_schema.properties);
        let function = RequestToolFunction {
            name: tool.name,
            description: tool.description,
            parameters: RequestToolParameters::new(tool.params_schema.required, properties),
        };
        requests.push(RequestTool::new(function));
        proof {
            assert(given.take(n + 1) =~= given.take(n).push(given[n]));
            assert(request_views(requests@) =~= request_views(before).push(request_for(given[n])));
            assert(requests_for(given.take(n + 1)) =~= requests_for(given.take(n)).push(
                request_for(given[n]),
            ));
        }
    }
    proof {
        assert(given.take(given.len() as int) =~= given);
    }
    requests
}

/// A chat response.
#[derive(Debug)]
pub struct ChatResponsePayload {
    pub choices: Vec<ResponseChoice>,
}

/// One of the answers of a chat response.
#[derive(Debug)]
pub struct ResponseChoice {
    pub message: Message,
}

/// A tool call that a response proposes.
#[derive(Debug)]
pub struct ResponseToolCall {
    pub function: ResponseToolCallFunction,
}

/// The function that a proposed tool call names, and its arguments.
#[derive(Debug)]
pub struct ResponseToolCallFunction {
    pub name: String,
    /// The arguments, as text that is to hold a JSON value.
    pub arguments: String,
}

/// The call that a response proposes: the single call of its first choice.
/// A response without a choice proposes none, and neither does a first
/// choice with no call or with several.
pub open spec fn proposed_call(response: ChatResponsePayload) -> Option<ResponseToolCallFunction> {
    if response.choices@.len() == 0 {
        None
    } else if response.choices@[0].message.tool_calls@.len() != 1 {
        None
    } else {
        Some(response.choices@[0].message.tool_calls@[0].function)
    }
}

/// Makes the tool call out of the name that a response proposed and of the
/// outcome of reading its arguments as JSON.
pub fn tool_call_from(name: String, params: Result<String, serde_json::Error>) -> (res: Result<
    Option<ToolCall>,
    LlmError,
>)
    ensures
        match params {
            Ok(params) => res == Ok::<Option<ToolCall>, LlmError>(
                Some(ToolCall { tool: name, params }),
            ),
            Err(e) => res == Err::<Option<ToolCall>, LlmError>(LlmError::SerdeJson(e)),
        },
{
    match params {
        Ok(params) => Ok(Some(ToolCall { tool: name, params })),
        Err(e) => Err(LlmError::SerdeJson(e)),
    }
}

/// Takes the tool call out of a response.
///
/// A response that proposes no call, or more than one, yields no call: none
/// is picked. Fails where the arguments of the one call are not JSON.
pub fn create_tool_call(response: ChatResponsePayload) -> (res: Result<Option<ToolCall>, LlmError>)
    ensures
        proposed_call(response) is None ==> res matches Ok(None),
        proposed_call(response) matches Some(f) ==> match raw_json_value(f.arguments@) {
            Some(params) => res matches Ok(Some(call)) && call@ == (ToolCallView {
                tool: f.name@,
                params,
            }),
            None => res matches Err(LlmError::SerdeJson(_)),
        },
{
    let mut response = response;
    if response.choices.len() == 0 {
        return Ok(None);
    }
    let choice = response.choices.remove(0);
    let mut calls = choice.message.tool_calls;
    if calls.len() != 1 {
        return Ok(None);
    }
    let call = calls.remove(0);
    let params = parse_raw_json(call.function.arguments.as_str());
    tool_call_from(call.function.name, params)
}

} // verus!

//! The completion request: what is sent to the provider for one call, as a
//! function of the messages and of whether the model may call a tool.

use crate::message::{wire_views, MessageWithoutToolCalls, MessageWithoutToolCallsView};
use vstd::prelude::*;
use vstd::string::*;

verus! {

/// Token ceiling of a call in which the model may ask for a tool.
pub const TOOL_MAX_TOKENS: u32 = 2048;

/// Token ceiling of a call without tools.
pub const PLAIN_MAX_TOKENS: u32 = 8000;

/// Sampling temperature of a call with tools, in tenths.
pub const TOOL_TEMPERATURE_TENTHS: u32 = 11;

/// Sampling temperature of a call without tools, in tenths.
pub const PLAIN_TEMPERATURE_TENTHS: u32 = 7;

/// The name under which the knowledge search is offered to the model.
pub open spec fn search_tool_name() -> Seq<char> {
    "search_knowledge_base"@
}

/// The one argument of the knowledge search.
pub open spec fn query_argument() -> Seq<char> {
    "query"@
}

/// One named argument of a tool.
#[derive(Debug, PartialEq, Eq)]
pub struct ToolProperty {
    pub name: String,
    pub kind: String,
    pub description: String,
}

pub struct ToolPropertyView {
    pub name: Seq<char>,
    pub kind: Seq<char>,
    pub description: Seq<char>,
}

impl View for ToolProperty {
    type V = ToolPropertyView;

    open spec fn view(&self) -> ToolPropertyView {
        ToolPropertyView { name: self.name@, kind: self.kind@, description: self.description@ }
    }
}

/// The arguments a tool takes: an object with named properties, some of
/// them required.
#[derive(Debug, PartialEq, Eq)]
pub struct ToolParameters {
    pub kind: String,
    pub properties: Vec<ToolProperty>,
    pub required: Vec<String>,
}

pub struct ToolParametersView {
    pub kind: Seq<char>,
    pub properties: Seq<ToolPropertyView>,
    pub required: Seq<Seq<char>>,
}

impl View for ToolParameters {
    type V = ToolParametersView;

    open spec fn view(&self) -> ToolParametersView {
        ToolParametersView {
            kind: self.kind@,
            properties: Seq::new(self.properties@.len(), |i: int| self.properties@[i]@),
            required: Seq::new(self.required@.len(), |i: int| self.required@[i]@),
        }
    }
}

/// A function the model may call.
#[derive(Debug, PartialEq, Eq)]
pub struct ToolFunction {
    pub name: String,
    pub description: String,
    pub parameters: ToolParameters,
    pub strict: bool,
}

pub struct ToolFunctionView {
    pub name: Seq<char>,
    pub description: Seq<char>,
    pub parameters: ToolParametersView,
    pub strict: bool,
}

impl View for ToolFunction {
    type V = ToolFunctionView;

    open spec fn view(&self) -> ToolFunctionView {
        ToolFunctionView {
            name: self.name@,
            description: self.description@,
            parameters: self.parameters@,
            strict: self.strict,
        }
    }
}

/// An entry of the tool schema.
#[derive(Debug, PartialEq, Eq)]
pub struct Tool {
    pub kind: String,
    pub function: ToolFunction,
}

pub struct ToolView {
    pub kind: Seq<char>,
    pub function: ToolFunctionView,
}

impl View for Tool {
    type V = ToolView;

    open spec fn view(&self) -> ToolView {
        ToolView { kind: self.kind@, function: self.function@ }
    }
}

/// Whether the provider should report usage while streaming.
#[derive(Debug, PartialEq, Eq)]
pub struct StreamOptions {
    pub include_usage: bool,
}

/// The payload of one completion call. The temperature is held in tenths.
#[derive(Debug, PartialEq, Eq)]
pub struct ChatRequest {
    pub messages: Vec<MessageWithoutToolCalls>,
    pub model: String,
    pub frequency_penalty: u32,
    pub response_format: String,
    pub stop: Option<String>,
    pub stream: bool,
    pub stream_options: Option<StreamOptions>,
    pub top_p: u32,
    pub n: u32,
    pub max_tokens: u32,
    pub temperature_tenths: u32,
    pub tools: Option<Vec<Tool>>,
}

pub struct ChatRequestView {
    pub messages: Seq<MessageWithoutToolCallsView>,
    pub model: Seq<char>,
    pub frequency_penalty: u32,
    pub response_format: Seq<char>,
    pub stop: Option<Seq<char>>,
    pub stream: bool,
    pub stream_options: Option<StreamOptions>,
    pub top_p: u32,
    pub n: u32,
    pub max_tokens: u32,
    pub temperature_tenths: u32,
    pub tools: Option<Seq<ToolView>>,
}

impl View for ChatRequest {
    type V = ChatRequestView;

    open spec fn view(&self) -> ChatRequestView {
        ChatRequestView {
            messages: wire_views(self.messages@),
            model: self.model@,
            frequency_penalty: self.frequency_penalty,
            response_format: self.response_format@,
            stop: match self.stop {
                Some(stop) => Some(stop@),
                None => None,
            },
            stream: self.stream,
            stream_options: self.stream_options,
            top_p: self.top_p,
            n: self.n,
            max_tokens: self.max_tokens,
            temperature_tenths: self.temperature_tenths,
            tools: match self.tools {
                Some(tools) => Some(Seq::new(tools@.len(), |i: int| tools@[i]@)),
                None => None,
            },
        }
    }
}

/// The schema of the knowledge search: one function with one required
/// string argument.
pub open spec fn search_tool() -> ToolView {
    ToolView {
        kind: "function"@,
        function: ToolFunctionView {
            name: search_tool_name(),
            description: "联网搜索用户提出的相关问题。"@,
            parameters: ToolParametersView {
                kind: "object"@,
                properties: seq![
                    ToolPropertyView {
                        name: query_argument(),
                        kind: "string"@,
                        description: "用户的问题中需要搜索查询的问题。"@,
                    },
                ],
                required: seq![query_argument()],
            },
            strict: true,
        },
    }
}

/// The request for `messages`, with the tool schema or without it.
pub open spec fn request_for(
    messages: Seq<MessageWithoutToolCallsView>,
    enable_tools: bool,
) -> ChatRequestView {
    ChatRequestView {
        messages,
        model: "deepseek-chat"@,
        frequency_penalty: 0,
        response_format: "text"@,
        stop: None,
        stream: false,
        stream_options: None,
        top_p: 1,
        n: 1,
        max_tokens: if enable_tools {
            TOOL_MAX_TOKENS
        } else {
            PLAIN_MAX_TOKENS
        },
        temperature_tenths: if enable_tools {
            TOOL_TEMPERATURE_TENTHS
        } else {
            PLAIN_TEMPERATURE_TENTHS
        },
        tools: if enable_tools {
            Some(seq![search_tool()])
        } else {
            None
        },
    }
}

/// The mode decides the tools and the ceiling: a request that offers the
/// tool holds a schema that is not empty, with the knowledge search in it,
/// and the tool ceiling; a request that does not offer it holds no schema
/// and the plain ceiling. The messages are those given, either way.
pub proof fn lemma_mode_selection(messages: Seq<MessageWithoutToolCallsView>)
    ensures
        request_for(messages, true).tools is Some,
        request_for(messages, true).tools->0.len() > 0,
        request_for(messages, true).tools->0[0].function.name == search_tool_name(),
        request_for(messages, true).max_tokens == TOOL_MAX_TOKENS,
        request_for(messages, false).tools is None,
        request_for(messages, false).max_tokens == PLAIN_MAX_TOKENS,
        request_for(messages, true).messages == messages,
        request_for(messages, false).messages == messages,
{
}

/// Builds the schema of the knowledge search.
pub fn build_search_tool() -> (tool: Tool)
    ensures
        tool@ == search_tool(),
{
    let mut properties: Vec<ToolProperty> = Vec::new();
    properties.push(
        ToolProperty {
            name: String::from_str("query"),
            kind: String::from_str("string"),
            description: String::from_str("用户的问题中需要搜索查询的问题。"),
        },
    );
    let mut required: Vec<String> = Vec::new();
    required.push(String::from_str("query"));
    let parameters = ToolParameters { kind: String::from_str("object"), properties, required };
    assert(parameters@.properties =~= search_tool().function.parameters.properties);
    assert(parameters@.required =~= search_tool().function.parameters.required);
    Tool {
        kind: String::from_str("function"),
        function: ToolFunction {
            name: String::from_str("search_knowledge_base"),
            description: String::from_str("联网搜索用户提出的相关问题。"),
            parameters,
            strict: true,
        },
    }
}

/// Builds the payload of one completion call. With `enable_tools` the model
/// is offered the knowledge search and gets the tool ceiling and
/// temperature; without it no tool is offered and the plain ceiling and
/// temperature apply. Everything else is the same in both.
pub fn build_request_body(messages: Vec<MessageWithoutToolCalls>, enable_tools: bool) -> (request:
    ChatRequest)
    ensures
        request@ == request_for(wire_views(messages@), enable_tools),
        enable_tools ==> request@.tools is Some && request@.tools->0.len() == 1
            && request@.max_tokens == TOOL_MAX_TOKENS,
        !enable_tools ==> request@.tools is None && request@.max_tokens == PLAIN_MAX_TOKENS,
{
    let mut request = ChatRequest {
        messages,
        model: String::from_str("deepseek-chat"),
        frequency_penalty: 0,
        response_format: String::from_str("text"),
        stop: None,
        stream: false,
        stream_options: None,
        top_p: 1,
        n: 1,
        max_tokens: PLAIN_MAX_TOKENS,
        temperature_tenths: PLAIN_TEMPERATURE_TENTHS,
        tools: None,
    };
    if enable_tools {
        let mut tools: Vec<Tool> = Vec::new();
        tools.push(build_search_tool());
        assert(Seq::new(tools@.len(), |i: int| tools@[i]@) =~= seq![search_tool()]);
        request.max_tokens = TOOL_MAX_TOKENS;
        request.temperature_tenths = TOOL_TEMPERATURE_TENTHS;
        request.tools = Some(tools);
    }
    request
}

} // verus!

//! The message model: one turn of a conversation, the tool invocation a
//! model may attach to its reply, and the reduced form that goes on the wire.

use vstd::prelude::*;
use vstd::string::*;

verus! {

/// Who is speaking in a turn.
#[derive(Clone, Copy, Debug, PartialEq, Eq, Structural)]
pub enum Role {
    System,
    User,
    Assistant,
    Tool,
}

impl Role {
    /// The name of the role in the provider's protocol.
    pub open spec fn wire_name(self) -> Seq<char> {
        match self {
            Role::System => "system"@,
            Role::User => "user"@,
            Role::Assistant => "assistant"@,
            Role::Tool => "tool"@,
        }
    }

    pub fn as_str(self) -> (name: &'static str)
        ensures
            name@ == self.wire_name(),
    {
        match self {
            Role::System => "system",
            Role::User => "user",
            Role::Assistant => "assistant",
            Role::Tool => "tool",
        }
    }
}

/// The function a tool call names, with its arguments as the model wrote
/// them: JSON text that nobody has looked at yet.
#[derive(Debug, PartialEq, Eq)]
pub struct FunctionCalls {
    pub name: String,
    pub arguments: String,
}

pub struct FunctionCallsView {
    pub name: Seq<char>,
    pub arguments: Seq<char>,
}

impl View for FunctionCalls {
    type V = FunctionCallsView;

    open spec fn view(&self) -> FunctionCallsView {
        FunctionCallsView { name: self.name@, arguments: self.arguments@ }
    }
}

impl Clone for FunctionCalls {
    fn clone(&self) -> (copy: Self)
        ensures
            copy@ == self@,
    {
        FunctionCalls { name: self.name.clone(), arguments: self.arguments.clone() }
    }
}

/// A request by the remote model to run a tool before it answers.
#[derive(Debug, PartialEq, Eq)]
pub struct ToolCalls {
    pub id: String,
    pub kind: String,
    pub function: FunctionCalls,
}

pub struct ToolCallsView {
    pub id: Seq<char>,
    pub kind: Seq<char>,
    pub function: FunctionCallsView,
}

impl View for ToolCalls {
    type V = ToolCallsView;

    open spec fn view(&self) -> ToolCallsView {
        ToolCallsView { id: self.id@, kind: self.kind@, function: self.function@ }
    }
}

impl Clone for ToolCalls {
    fn clone(&self) -> (copy: Self)
        ensures
            copy@ == self@,
    {
        ToolCalls { id: self.id.clone(), kind: self.kind.clone(), function: self.function.clone() }
    }
}

/// The views of a sequence of tool calls, in order.
pub open spec fn tool_call_views(calls: Seq<ToolCalls>) -> Seq<ToolCallsView> {
    Seq::new(calls.len(), |i: int| calls[i]@)
}

/// Copies a list of tool calls.
pub fn clone_tool_calls(calls: &Vec<ToolCalls>) -> (copy: Vec<ToolCalls>)
    ensures
        tool_call_views(copy@) == tool_call_views(calls@),
{
    let mut copy: Vec<ToolCalls> = Vec::new();
    let mut i: usize = 0;
    while i < calls.len()
        invariant
            i <= calls.len(),
            copy.len() == i,
            forall|k: int| 0 <= k < i ==> copy[k]@ == calls[k]@,
        decreases calls.len() - i,
    {
        copy.push(calls[i].clone());
        i += 1;
    }
    copy
}

/// One turn of the transcript.
#[derive(Debug, PartialEq, Eq)]
pub struct Message {
    pub role: Role,
    pub content: String,
    pub tool_calls: Option<Vec<ToolCalls>>,
}

pub struct MessageView {
    pub role: Role,
    pub content: Seq<char>,
    pub tool_calls: Option<Seq<ToolCallsView>>,
}

impl View for Message {
    type V = MessageView;

    open spec fn view(&self) -> MessageView {
        MessageView {
            role: self.role,
            content: self.content@,
            tool_calls: match self.tool_calls {
                Some(calls) => Some(tool_call_views(calls@)),
                None => None,
            },
        }
    }
}

impl Clone for Message {
    fn clone(&self) -> (copy: Self)
        ensures
            copy@ == self@,
    {
        let tool_calls = match &self.tool_calls {
            Some(calls) => Some(clone_tool_calls(calls)),
            None => None,
        };
        Message { role: self.role, content: self.content.clone(), tool_calls }
    }
}

impl Message {
    /// A turn with the given role and text and no tool call.
    pub open spec fn plain(role: Role, content: Seq<char>) -> MessageView {
        MessageView { role, content, tool_calls: None }
    }

    pub fn new(role: Role, content: String) -> (message: Self)
        ensures
            message@ == Self::plain(role, content@),
    {
        Message { role, content, tool_calls: None }
    }

    /// The turn as it is sent to the provider: role and text, without the
    /// tool calls.
    pub fn without_tool_calls(&self) -> (wire: MessageWithoutToolCalls)
        ensures
            wire@ == stripped(self@),
    {
        MessageWithoutToolCalls { role: self.role, content: self.content.clone() }
    }
}

/// The views of a sequence of turns, in order.
pub open spec fn message_views(messages: Seq<Message>) -> Seq<MessageView> {
    Seq::new(messages.len(), |i: int| messages[i]@)
}

/// A turn reduced to what the provider reads: its role and its text.
#[derive(Debug, PartialEq, Eq)]
pub struct MessageWithoutToolCalls {
    pub role: Role,
    pub content: String,
}

pub struct MessageWithoutToolCallsView {
    pub role: Role,
    pub content: Seq<char>,
}

impl View for MessageWithoutToolCalls {
    type V = MessageWithoutToolCallsView;

    open spec fn view(&self) -> MessageWithoutToolCallsView {
        MessageWithoutToolCallsView { role: self.role, content: self.content@ }
    }
}

impl Clone for MessageWithoutToolCalls {
    fn clone(&self) -> (copy: Self)
        ensures
            copy@ == self@,
    {
        MessageWithoutToolCalls { role: self.role, content: self.content.clone() }
    }
}

/// The views of a sequence of wire messages, in order.
pub open spec fn wire_views(messages: Seq<MessageWithoutToolCalls>) -> Seq<
    MessageWithoutToolCallsView,
> {
    Seq::new(messages.len(), |i: int| messages[i]@)
}

/// A turn without its tool calls.
pub open spec fn stripped(message: MessageView) -> MessageWithoutToolCallsView {
    MessageWithoutToolCallsView { role: message.role, content: message.content }
}

/// A transcript without its tool calls, turn by turn.
pub open spec fn stripped_all(messages: Seq<MessageView>) -> Seq<MessageWithoutToolCallsView> {
    Seq::new(messages.len(), |i: int| stripped(messages[i]))
}

} // verus!

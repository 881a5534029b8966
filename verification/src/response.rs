//! The answer of the completion service.

use crate::message::{tool_call_views, ToolCalls, ToolCallsView};
use vstd::prelude::*;
use vstd::string::*;

verus! {

/// How many tokens a call has used.
#[derive(Clone, Copy, Debug, PartialEq, Eq)]
pub struct Usage {
    pub prompt_tokens: u32,
    pub completion_tokens: u32,
    pub total_tokens: u32,
}

/// The message of a choice, as the provider wrote it.
#[derive(Debug, PartialEq, Eq)]
pub struct ChoiceMessage {
    pub role: String,
    pub content: String,
    pub tool_calls: Option<Vec<ToolCalls>>,
}

pub struct ChoiceMessageView {
    pub role: Seq<char>,
    pub content: Seq<char>,
    pub tool_calls: Option<Seq<ToolCallsView>>,
}

impl View for ChoiceMessage {
    type V = ChoiceMessageView;

    open spec fn view(&self) -> ChoiceMessageView {
        ChoiceMessageView {
            role: self.role@,
            content: self.content@,
            tool_calls: match self.tool_calls {
                Some(calls) => Some(tool_call_views(calls@)),
                None => None,
            },
        }
    }
}

/// One way the model proposes to continue.
#[derive(Debug, PartialEq, Eq)]
pub struct Choice {
    pub index: u32,
    pub message: ChoiceMessage,
    pub finish_reason: String,
}

pub struct ChoiceView {
    pub index: u32,
    pub message: ChoiceMessageView,
    pub finish_reason: Seq<char>,
}

impl View for Choice {
    type V = ChoiceView;

    open spec fn view(&self) -> ChoiceView {
        ChoiceView {
            index: self.index,
            message: self.message@,
            finish_reason: self.finish_reason@,
        }
    }
}

/// A decoded answer of the completion service.
#[derive(Debug, PartialEq, Eq)]
pub struct ChatCompletionResponse {
    pub id: String,
    pub object: String,
    pub created: u64,
    pub model: String,
    pub choices: Vec<Choice>,
    pub usage: Usage,
    pub system_fingerprint: String,
}

pub struct ChatCompletionResponseView {
    pub id: Seq<char>,
    pub object: Seq<char>,
    pub created: u64,
    pub model: Seq<char>,
    pub choices: Seq<ChoiceView>,
    pub usage: Usage,
    pub system_fingerprint: Seq<char>,
}

impl View for ChatCompletionResponse {
    type V = ChatCompletionResponseView;

    open spec fn view(&self) -> ChatCompletionResponseView {
        ChatCompletionResponseView {
            id: self.id@,
            object: self.object@,
            created: self.created,
            model: self.model@,
            choices: Seq::new(self.choices@.len(), |i: int| self.choices@[i]@),
            usage: self.usage,
            system_fingerprint: self.system_fingerprint@,
        }
    }
}

/// Why a completion call gave no answer.
#[derive(Debug, PartialEq, Eq)]
pub enum CompletionError {
    /// The call could not be sent, or its answer could not be read; holds
    /// the transport's account of it.
    Transport(String),
    /// The body was not a completion response; holds the body.
    Decode(String),
}

pub enum CompletionErrorView {
    Transport(Seq<char>),
    Decode(Seq<char>),
}

impl View for CompletionError {
    type V = CompletionErrorView;

    open spec fn view(&self) -> CompletionErrorView {
        match self {
            CompletionError::Transport(reason) => CompletionErrorView::Transport(reason@),
            CompletionError::Decode(body) => CompletionErrorView::Decode(body@),
        }
    }
}

/// What a completion call came back with.
pub open spec fn answer_view(answer: Result<ChatCompletionResponse, CompletionError>) -> Result<
    ChatCompletionResponseView,
    CompletionErrorView,
> {
    match answer {
        Ok(response) => Ok(response@),
        Err(error) => Err(error@),
    }
}

} // verus!

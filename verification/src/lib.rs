//! Conversation orchestration for a chat bot that talks to a remote
//! language model: the shared transcript, the completion request, the
//! knowledge-search tool and the loop that dispatches tool calls.

pub mod arguments;
pub mod command;
pub mod config;
pub mod history;
pub mod http;
pub mod message;
pub mod request;
pub mod response;
pub mod search;
pub mod service;
pub mod text;

//! The dispatcher: what to do with the answer of the model and with the
//! answer of a search, one decision at a time. Whoever drives it performs
//! the calls it asks for and hands their answers back.

use crate::arguments::{parse_search_arguments, search_query_of, SearchKnowledgeBaseArguments};
use crate::command::{
    command_of, name_view, parse_command, user_message, user_turn, Command, CommandView,
};
use crate::config::{bearer, DeepSeekConfig};
use crate::history::{clone_messages, default_prompt, no_system_turn, ChatHistoryManager};
use crate::http::{authorization, header_views, json_content_type, Header, HeaderView};
use crate::message::{
    message_views, tool_call_views, Message, MessageView, Role, ToolCalls, ToolCallsView,
};
use crate::request::{
    build_request_body, request_for, search_tool_name, ChatRequest, ChatRequestView,
};
use crate::response::{
    answer_view, ChatCompletionResponse, ChatCompletionResponseView, CompletionError,
    CompletionErrorView,
};
use crate::search::{
    error_text, formatted_results, KnowledgeBaseSearcher, SearchCall, SearchCallView, SearchError,
    SearchErrorView, SearchResponse, SearchResponseView,
};
use vstd::prelude::*;
use vstd::string::*;

verus! {

/// The reply when the model offered no choice.
pub open spec fn no_reply_text() -> Seq<char> {
    "未收到有效回复"@
}

/// The reply when a tool call could not be carried out.
pub open spec fn tool_failure_text() -> Seq<char> {
    "工具调用处理失败"@
}

/// The reply when the completion call itself failed.
pub open spec fn request_failure_text(reason: Seq<char>) -> Seq<char> {
    "请求失败: "@ + reason
}

/// The reply when the answer of the completion service could not be read.
pub open spec fn decode_failure_text(body: Seq<char>) -> Seq<char> {
    "解析响应失败: "@ + body
}

/// The reply when the search failed.
pub open spec fn search_failure_text(error: SearchErrorView) -> Seq<char> {
    "搜索失败: "@ + error_text(error)
}

/// The headers of a completion call made with `key`.
pub open spec fn completion_headers(key: Seq<char>) -> Seq<HeaderView> {
    seq![json_content_type(), authorization(bearer(key))]
}

/// A completion call, ready to be sent.
#[derive(Debug, PartialEq, Eq)]
pub struct CompletionCall {
    pub url: String,
    pub headers: Vec<Header>,
    pub body: ChatRequest,
}

pub struct CompletionCallView {
    pub url: Seq<char>,
    pub headers: Seq<HeaderView>,
    pub body: ChatRequestView,
}

impl View for CompletionCall {
    type V = CompletionCallView;

    open spec fn view(&self) -> CompletionCallView {
        CompletionCallView {
            url: self.url@,
            headers: header_views(self.headers@),
            body: self.body@,
        }
    }
}

/// A completion call in flight: the turns it submitted and whether it
/// offered the tool.
#[derive(Debug, PartialEq, Eq)]
pub struct PendingChat {
    messages: Vec<Message>,
    enable_tools: bool,
}

impl PendingChat {
    /// The turns that the call submitted.
    pub closed spec fn messages(&self) -> Seq<MessageView> {
        message_views(self.messages@)
    }

    /// Whether the call offered the tool.
    pub closed spec fn enable_tools(&self) -> bool {
        self.enable_tools
    }

    /// What holds of every record: none of the submitted turns speaks as
    /// the system.
    #[verifier::type_invariant]
    pub open spec fn well_formed(&self) -> bool {
        no_system_turn(self.messages())
    }

    /// Whether the call offered the tool.
    pub fn tools_enabled(&self) -> (enabled: bool)
        ensures
            enabled == self.enable_tools(),
    {
        self.enable_tools
    }

    /// A copy of the turns that the call submitted.
    pub fn submitted(&self) -> (copy: Vec<Message>)
        ensures
            message_views(copy@) == self.messages(),
            self.well_formed(),
    {
        proof {
            use_type_invariant(self);
        }
        clone_messages(&self.messages)
    }
}

/// What to do once the model has answered.
#[derive(Debug, PartialEq, Eq)]
pub enum ChatStep {
    /// The exchange is over; this is the text for the user.
    Reply(String),
    /// The model asked for a search; this is the call to make.
    Search(SearchCall),
}

pub enum ChatStepView {
    Reply(Seq<char>),
    Search(SearchCallView),
}

impl View for ChatStep {
    type V = ChatStepView;

    open spec fn view(&self) -> ChatStepView {
        match self {
            ChatStep::Reply(text) => ChatStepView::Reply(text@),
            ChatStep::Search(call) => ChatStepView::Search(call@),
        }
    }
}

/// What to do once a search has been answered.
#[derive(Debug, PartialEq, Eq)]
pub enum SearchStep {
    /// The exchange is over; this is the text for the user.
    Reply(String),
    /// The results go back to the model: the call to make, and its record.
    FollowUp(PendingChat, CompletionCall),
}

pub enum SearchStepView {
    Reply(Seq<char>),
    FollowUp { messages: Seq<MessageView>, enable_tools: bool, call: CompletionCallView },
}

impl View for SearchStep {
    type V = SearchStepView;

    open spec fn view(&self) -> SearchStepView {
        match self {
            SearchStep::Reply(text) => SearchStepView::Reply(text@),
            SearchStep::FollowUp(pending, call) => SearchStepView::FollowUp {
                messages: pending.messages(),
                enable_tools: pending.enable_tools(),
                call: call@,
            },
        }
    }
}

/// What a chat message led to.
#[derive(Debug, PartialEq, Eq)]
pub enum Inbound {
    /// An exchange with the model has begun: the call to make, and its
    /// record.
    Started(PendingChat, CompletionCall),
    /// An operator's command has changed the conversation.
    Changed,
    /// A command for operators came from someone else; nothing was done.
    Denied,
    /// The message was not meant for the bot.
    Ignored,
}

pub enum InboundView {
    Started { messages: Seq<MessageView>, enable_tools: bool, call: CompletionCallView },
    Changed,
    Denied,
    Ignored,
}

impl View for Inbound {
    type V = InboundView;

    open spec fn view(&self) -> InboundView {
        match self {
            Inbound::Started(pending, call) => InboundView::Started {
                messages: pending.messages(),
                enable_tools: pending.enable_tools(),
                call: call@,
            },
            Inbound::Changed => InboundView::Changed,
            Inbound::Denied => InboundView::Denied,
            Inbound::Ignored => InboundView::Ignored,
        }
    }
}

/// The prompts after `command` has been given, by an operator or not.
pub open spec fn prompts_after(
    prompts: Seq<MessageView>,
    command: CommandView,
    operator: bool,
) -> Seq<MessageView> {
    match command {
        CommandView::AddSystemPrompt(text) => if operator {
            prompts.push(Message::plain(Role::System, text))
        } else {
            prompts
        },
        CommandView::ClearHistory => if operator {
            seq![default_prompt()]
        } else {
            prompts
        },
        _ => prompts,
    }
}

/// The transcript after `command` has been given, by an operator or not.
pub open spec fn history_after(
    history: Seq<MessageView>,
    command: CommandView,
    operator: bool,
) -> Seq<MessageView> {
    if command is ClearHistory && operator {
        Seq::empty()
    } else {
        history
    }
}

/// The call that is honoured among those the model made in one answer: the
/// first that names the knowledge search.
pub open spec fn honoured_call(calls: Seq<ToolCallsView>) -> Option<ToolCallsView>
    decreases calls.len(),
{
    if calls.len() == 0 {
        None
    } else if calls.first().function.name == search_tool_name() {
        Some(calls.first())
    } else {
        honoured_call(calls.drop_first())
    }
}

/// The turns that the transcript gains from an answer of the model: the
/// submitted turns and the model's text, if the call offered the tool and
/// the model answered in text; nothing otherwise.
pub open spec fn recorded_turns(
    submitted: Seq<MessageView>,
    enable_tools: bool,
    answer: Result<ChatCompletionResponseView, CompletionErrorView>,
) -> Seq<MessageView> {
    match answer {
        Ok(response) => if enable_tools && response.choices.len() > 0
            && response.choices[0].message.tool_calls is None {
            submitted.push(Message::plain(Role::Assistant, response.choices[0].message.content))
        } else {
            Seq::empty()
        },
        Err(_) => Seq::empty(),
    }
}

/// The conversation of one bot with the model, and what it needs to reach
/// the model and the search.
#[derive(Debug)]
pub struct DeepSeekService {
    pub config: DeepSeekConfig,
    pub history_manager: ChatHistoryManager,
    pub knowledge_searcher: KnowledgeBaseSearcher,
}

impl DeepSeekService {
    /// The completion call that submits `messages` on top of the prompts
    /// and the transcript.
    pub open spec fn completion_call(
        &self,
        messages: Seq<MessageView>,
        enable_tools: bool,
    ) -> CompletionCallView {
        CompletionCallView {
            url: self.config@.api_url,
            headers: completion_headers(self.config@.api_key),
            body: request_for(self.history_manager.combined(messages), enable_tools),
        }
    }

    /// What follows from the arguments of the honoured call: a search for
    /// the query they hold, or the fixed failure reply if they hold none.
    pub open spec fn search_step(&self, query: Option<Seq<char>>) -> ChatStepView {
        match query {
            Some(query) => ChatStepView::Search(self.knowledge_searcher.call_for(query)),
            None => ChatStepView::Reply(tool_failure_text()),
        }
    }

    /// What follows from the tool calls of an answer: the step of the
    /// honoured call, or the fixed failure reply if none is honoured.
    pub open spec fn tool_calls_step(&self, calls: Seq<ToolCallsView>) -> ChatStepView {
        match honoured_call(calls) {
            Some(call) => self.search_step(search_query_of(call.function.arguments)),
            None => ChatStepView::Reply(tool_failure_text()),
        }
    }

    /// What follows from an answer of the model. Only the first choice
    /// counts. Its tool calls, if it has any, decide; else its text is the
    /// reply. No choice, an unreadable answer and a failed call each give a
    /// reply of their own.
    pub open spec fn completion_step(
        &self,
        answer: Result<ChatCompletionResponseView, CompletionErrorView>,
    ) -> ChatStepView {
        match answer {
            Ok(response) => if response.choices.len() == 0 {
                ChatStepView::Reply(no_reply_text())
            } else {
                match response.choices[0].message.tool_calls {
                    Some(calls) => self.tool_calls_step(calls),
                    None => ChatStepView::Reply(response.choices[0].message.content),
                }
            },
            Err(CompletionErrorView::Transport(reason)) => ChatStepView::Reply(
                request_failure_text(reason),
            ),
            Err(CompletionErrorView::Decode(body)) => ChatStepView::Reply(
                decode_failure_text(body),
            ),
        }
    }

    /// The one turn that carries the results of a search back to the model.
    pub open spec fn result_turns(response: SearchResponseView) -> Seq<MessageView> {
        seq![Message::plain(Role::User, formatted_results(response))]
    }

    /// What follows from the answer of a search: a second completion call,
    /// without the tool, that submits the results as a user turn; or the
    /// failure as a reply.
    pub open spec fn search_answer_step(
        &self,
        answer: Result<SearchResponseView, SearchErrorView>,
    ) -> SearchStepView {
        match answer {
            Ok(response) => SearchStepView::FollowUp {
                messages: Self::result_turns(response),
                enable_tools: false,
                call: self.completion_call(Self::result_turns(response), false),
            },
            Err(error) => SearchStepView::Reply(search_failure_text(error)),
        }
    }

    /// What a command leads to. A question begins an exchange, with the
    /// tool for `ai` and without it for `chat`. The two commands that
    /// change the conversation are obeyed for an operator and denied to
    /// anyone else.
    pub open spec fn command_step(
        &self,
        command: CommandView,
        nickname: Option<Seq<char>>,
        operator: bool,
    ) -> InboundView {
        match command {
            CommandView::Ask(content) => InboundView::Started {
                messages: seq![user_turn(nickname, content)],
                enable_tools: true,
                call: self.completion_call(seq![user_turn(nickname, content)], true),
            },
            CommandView::Chat(content) => InboundView::Started {
                messages: seq![user_turn(nickname, content)],
                enable_tools: false,
                call: self.completion_call(seq![user_turn(nickname, content)], false),
            },
            CommandView::AddSystemPrompt(_) => if operator {
                InboundView::Changed
            } else {
                InboundView::Denied
            },
            CommandView::ClearHistory => if operator {
                InboundView::Changed
            } else {
                InboundView::Denied
            },
            CommandView::Nothing => InboundView::Ignored,
        }
    }

    /// A service with a fresh conversation.
    pub fn new(config: DeepSeekConfig) -> (service: Self)
        ensures
            service.config@ == config@,
            service.knowledge_searcher.config@ == config@,
            service.history_manager.prompts() == seq![default_prompt()],
            service.history_manager.history() == Seq::<MessageView>::empty(),
    {
        let knowledge_searcher = KnowledgeBaseSearcher::new(config.clone());
        DeepSeekService { config, history_manager: ChatHistoryManager::new(), knowledge_searcher }
    }

    /// Wraps a request into the call that carries it: a POST to the
    /// completion address, with the key as bearer token.
    pub fn send_chat_request(&self, request_body: ChatRequest) -> (call: CompletionCall)
        ensures
            call@ == (CompletionCallView {
                url: self.config@.api_url,
                headers: completion_headers(self.config@.api_key),
                body: request_body@,
            }),
    {
        let mut headers: Vec<Header> = Vec::new();
        headers.push(Header::new("Content-Type", String::from_str("application/json")));
        headers.push(Header::new("Authorization", self.config.authorization()));
        assert(header_views(headers@) =~= completion_headers(self.config@.api_key));
        CompletionCall { url: self.config.api_url.clone(), headers, body: request_body }
    }

    /// Begins an exchange: prepares the completion call that submits
    /// `messages`, and the record of it. The conversation is only read.
    pub fn chat(&self, messages: Vec<Message>, enable_tools: bool) -> (started: (
        PendingChat,
        CompletionCall,
    ))
        requires
            no_system_turn(message_views(messages@)),
        ensures
            started.0.messages() == message_views(messages@),
            started.0.enable_tools() == enable_tools,
            started.1@ == self.completion_call(message_views(messages@), enable_tools),
    {
        let combined_messages = self.history_manager.get_combined_messages(&messages);
        let request_body = build_request_body(combined_messages, enable_tools);
        let call = self.send_chat_request(request_body);
        (PendingChat { messages, enable_tools }, call)
    }

    /// Begins the exchange for one question of a user.
    fn ask(&self, nickname: Option<&str>, content: &str, enable_tools: bool) -> (inbound: Inbound)
        ensures
            inbound@ == (InboundView::Started {
                messages: seq![user_turn(name_view(nickname), content@)],
                enable_tools,
                call: self.completion_call(
                    seq![user_turn(name_view(nickname), content@)],
                    enable_tools,
                ),
            }),
    {
        let mut messages: Vec<Message> = Vec::new();
        messages.push(user_message(nickname, content));
        assert(message_views(messages@) =~= seq![user_turn(name_view(nickname), content@)]);
        let started = self.chat(messages, enable_tools);
        Inbound::Started(started.0, started.1)
    }

    /// Carries out `command`, given by the user `nickname`, who is an
    /// operator or not.
    pub fn handle_command(&mut self, command: Command, nickname: Option<&str>, operator: bool) -> (inbound:
        Inbound)
        ensures
            inbound@ == old(self).command_step(command@, name_view(nickname), operator),
            final(self).history_manager.prompts() == prompts_after(
                old(self).history_manager.prompts(),
                command@,
                operator,
            ),
            final(self).history_manager.history() == history_after(
                old(self).history_manager.history(),
                command@,
                operator,
            ),
            final(self).history_manager.well_formed(),
            final(self).config == old(self).config,
            final(self).knowledge_searcher == old(self).knowledge_searcher,
    {
        proof {
            use_type_invariant(&self.history_manager);
        }
        match command {
            Command::Ask(content) => self.ask(nickname, content.as_str(), true),
            Command::Chat(content) => self.ask(nickname, content.as_str(), false),
            Command::AddSystemPrompt(text) => {
                if operator {
                    self.history_manager.add_system_prompt(text);
                    Inbound::Changed
                } else {
                    Inbound::Denied
                }
            },
            Command::ClearHistory => {
                if operator {
                    self.history_manager.reset();
                    Inbound::Changed
                } else {
                    Inbound::Denied
                }
            },
            Command::Nothing => Inbound::Ignored,
        }
    }

    /// Takes one chat message, written by the user `nickname`, who is an
    /// operator or not, and carries out the command it gives.
    pub fn receive(&mut self, text: &str, nickname: Option<&str>, operator: bool) -> (inbound:
        Inbound)
        ensures
            inbound@ == old(self).command_step(command_of(text@), name_view(nickname), operator),
            final(self).history_manager.prompts() == prompts_after(
                old(self).history_manager.prompts(),
                command_of(text@),
                operator,
            ),
            final(self).history_manager.history() == history_after(
                old(self).history_manager.history(),
                command_of(text@),
                operator,
            ),
            final(self).history_manager.well_formed(),
            final(self).config == old(self).config,
            final(self).knowledge_searcher == old(self).knowledge_searcher,
    {
        let command = parse_command(text);
        self.handle_command(command, nickname, operator)
    }

    /// Decides what follows from the query that the arguments of the
    /// honoured call hold.
    pub fn dispatch_search(&self, arguments: Option<SearchKnowledgeBaseArguments>) -> (step:
        ChatStep)
        ensures
            step@ == self.search_step(
                match arguments {
                    Some(read) => Some(read.query@),
                    None => None,
                },
            ),
    {
        match arguments {
            Some(read) => ChatStep::Search(self.knowledge_searcher.request(read.query)),
            None => ChatStep::Reply(String::from_str("工具调用处理失败")),
        }
    }

    /// Decides what follows from the tool calls of an answer. The first
    /// call that names the knowledge search is honoured, whatever comes
    /// after it; unreadable arguments end the exchange.
    pub fn handle_tool_calls(&self, tool_calls: &Vec<ToolCalls>) -> (step: ChatStep)
        ensures
            step@ == self.tool_calls_step(tool_call_views(tool_calls@)),
    {
        let ghost calls = tool_call_views(tool_calls@);
        let wanted = String::from_str("search_knowledge_base");
        let mut i: usize = 0;
        assert(calls.skip(0) =~= calls);
        while i < tool_calls.len()
            invariant
                i <= tool_calls.len(),
                calls == tool_call_views(tool_calls@),
                wanted@ == search_tool_name(),
                honoured_call(calls) == honoured_call(calls.skip(i as int)),
            decreases tool_calls.len() - i,
        {
            let tool_call = &tool_calls[i];
            proof {
                let rest = calls.skip(i as int);
                assert(rest.drop_first() =~= calls.skip(i + 1));
            }
            if tool_call.function.name == wanted {
                let arguments = parse_search_arguments(tool_call.function.arguments.as_str());
                return self.dispatch_search(arguments);
            }
            i += 1;
        }
        ChatStep::Reply(String::from_str("工具调用处理失败"))
    }

    /// Takes the answer of the model to the call that `pending` records and
    /// decides what follows. When the call offered the tool and the model
    /// answered in text, the submitted turns and the answer join the
    /// transcript; in every other case the conversation stays as it is.
    pub fn handle_completion(
        &mut self,
        pending: PendingChat,
        answer: Result<ChatCompletionResponse, CompletionError>,
    ) -> (step: ChatStep)
        ensures
            step@ == old(self).completion_step(answer_view(answer)),
            final(self).history_manager.history() == old(self).history_manager.history()
                + recorded_turns(pending.messages(), pending.enable_tools(), answer_view(answer)),
            final(self).history_manager.prompts() == old(self).history_manager.prompts(),
            final(self).history_manager.well_formed(),
            final(self).config == old(self).config,
            final(self).knowledge_searcher == old(self).knowledge_searcher,
    {
        proof {
            use_type_invariant(&pending);
            use_type_invariant(&self.history_manager);
        }
        match answer {
            Ok(response) => {
                if response.choices.len() == 0 {
                    return ChatStep::Reply(String::from_str("未收到有效回复"));
                }
                let choice = &response.choices[0];
                match &choice.message.tool_calls {
                    Some(tool_calls) => self.handle_tool_calls(tool_calls),
                    None => {
                        if pending.enable_tools {
                            let reply = Message::new(
                                Role::Assistant,
                                choice.message.content.clone(),
                            );
                            self.history_manager.add_messages(pending.messages);
                            self.history_manager.add_message(reply);
                        }
                        ChatStep::Reply(choice.message.content.clone())
                    },
                }
            },
            Err(CompletionError::Transport(reason)) => ChatStep::Reply(
                String::from_str("请求失败: ").concat(reason.as_str()),
            ),
            Err(CompletionError::Decode(body)) => ChatStep::Reply(
                String::from_str("解析响应失败: ").concat(body.as_str()),
            ),
        }
    }

    /// Takes the answer of a search and decides what follows. The results
    /// are submitted to the model in a call of their own, which offers no
    /// tool and whose turns never join the transcript.
    pub fn handle_search(&self, answer: Result<SearchResponse, SearchError>) -> (step: SearchStep)
        ensures
            step@ == self.search_answer_step(
                match answer {
                    Ok(response) => Ok(response@),
                    Err(error) => Err(error@),
                },
            ),
    {
        match KnowledgeBaseSearcher::search(answer) {
            Ok(search_results) => {
                let search_message = Message::new(Role::User, search_results);
                let mut messages: Vec<Message> = Vec::new();
                messages.push(search_message);
                assert(message_views(messages@) =~= Self::result_turns(answer->Ok_0@));
                let started = self.chat(messages, false);
                SearchStep::FollowUp(started.0, started.1)
            },
            Err(error) => SearchStep::Reply(
                String::from_str("搜索失败: ").concat(error.debug_text().as_str()),
            ),
        }
    }
}

/// No choice, no answer: whatever else a decoded response holds, without
/// a choice the reply is the fixed text that says so, and the transcript
/// gains nothing.
pub proof fn lemma_no_choice_gives_fixed_reply(
    service: DeepSeekService,
    response: ChatCompletionResponseView,
    submitted: Seq<MessageView>,
    enable_tools: bool,
)
    requires
        response.choices.len() == 0,
    ensures
        service.completion_step(Ok(response)) == ChatStepView::Reply(no_reply_text()),
        recorded_turns(submitted, enable_tools, Ok(response)) == Seq::<MessageView>::empty(),
{
}

/// Arguments that hold no query end the exchange: when the honoured call
/// has such arguments, or no call is honoured, the step is the fixed
/// failure reply and never a search.
pub proof fn lemma_unreadable_arguments_give_fixed_reply(
    service: DeepSeekService,
    calls: Seq<ToolCallsView>,
)
    requires
        match honoured_call(calls) {
            Some(call) => search_query_of(call.function.arguments) is None,
            None => true,
        },
    ensures
        service.tool_calls_step(calls) == ChatStepView::Reply(tool_failure_text()),
        !(service.tool_calls_step(calls) is Search),
{
}

/// A question that the model answers in text is recorded with its
/// answer: `ai` begins an exchange that offers the tool and submits the
/// user's turn; when the first choice of the answer holds text and no
/// tool call, that text is the reply, and the transcript gains the user's
/// turn and the answer, in this order, and nothing else.
pub proof fn lemma_answered_question_is_recorded(
    service: DeepSeekService,
    nickname: Option<Seq<char>>,
    content: Seq<char>,
    operator: bool,
    response: ChatCompletionResponseView,
)
    requires
        response.choices.len() > 0,
        response.choices[0].message.tool_calls is None,
    ensures
        service.command_step(CommandView::Ask(content), nickname, operator)
            == (InboundView::Started {
            messages: seq![user_turn(nickname, content)],
            enable_tools: true,
            call: service.completion_call(seq![user_turn(nickname, content)], true),
        }),
        service.completion_step(Ok(response)) == ChatStepView::Reply(
            response.choices[0].message.content,
        ),
        recorded_turns(seq![user_turn(nickname, content)], true, Ok(response)) == seq![
            user_turn(nickname, content),
            Message::plain(Role::Assistant, response.choices[0].message.content),
        ],
        recorded_turns(seq![user_turn(nickname, content)], false, Ok(response)) == Seq::<
            MessageView,
        >::empty(),
{
}

/// One tool call, one search, one more question: when the first choice of
/// an answer holds a single call of the knowledge search whose arguments
/// hold `query`, the step is the search for `query`; the results of that
/// search go back to the model in a call that offers no tool; and when the
/// model answers that call in text, the text is the reply and the
/// transcript gains nothing.
pub proof fn lemma_tool_round_trip(
    service: DeepSeekService,
    first: ChatCompletionResponseView,
    query: Seq<char>,
    results: SearchResponseView,
    second: ChatCompletionResponseView,
)
    requires
        first.choices.len() > 0,
        first.choices[0].message.tool_calls is Some,
        first.choices[0].message.tool_calls->0.len() == 1,
        first.choices[0].message.tool_calls->0[0].function.name == search_tool_name(),
        search_query_of(first.choices[0].message.tool_calls->0[0].function.arguments) == Some(
            query,
        ),
        second.choices.len() > 0,
        second.choices[0].message.tool_calls is None,
    ensures
        service.completion_step(Ok(first)) == ChatStepView::Search(
            service.knowledge_searcher.call_for(query),
        ),
        service.search_answer_step(Ok(results)) == (SearchStepView::FollowUp {
            messages: DeepSeekService::result_turns(results),
            enable_tools: false,
            call: service.completion_call(DeepSeekService::result_turns(results), false),
        }),
        service.completion_call(DeepSeekService::result_turns(results), false).body.tools is None,
        service.completion_step(Ok(second)) == ChatStepView::Reply(
            second.choices[0].message.content,
        ),
        recorded_turns(DeepSeekService::result_turns(results), false, Ok(second)) == Seq::<
            MessageView,
        >::empty(),
{
}

} // verus!

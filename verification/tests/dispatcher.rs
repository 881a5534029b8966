use deepseek::config::DeepSeekConfig;
use deepseek::http::Header;
use deepseek::message::{FunctionCalls, Message, MessageWithoutToolCalls, Role, ToolCalls};
use deepseek::response::{
    ChatCompletionResponse, Choice, ChoiceMessage, CompletionError, Usage,
};
use deepseek::search::{SearchError, SearchResponse, SearchResponseMessage};
use deepseek::service::{ChatStep, DeepSeekService, Inbound, PendingChat, SearchStep};
use deepseek::arguments::SearchKnowledgeBaseArguments;

const DEFAULT_PROMPT: &str = "你正在扮演一个真实的聊天对象,我会将消息以`[name]:msg`的格式发送给你,请鉴别不同人的消息记录的同时,综合群聊上下文回答对方问题。用中文回答,注意只回答内容,以纯字符串形式回复,不要带任何格式。";

fn service() -> DeepSeekService {
    DeepSeekService::new(DeepSeekConfig::new("key".to_string(), "search-key".to_string()))
}

fn user(content: &str) -> Message {
    Message::new(Role::User, content.to_string())
}

fn wire(role: Role, content: &str) -> MessageWithoutToolCalls {
    MessageWithoutToolCalls { role, content: content.to_string() }
}

fn call(name: &str, arguments: &str) -> ToolCalls {
    ToolCalls {
        id: "call_0".to_string(),
        kind: "function".to_string(),
        function: FunctionCalls { name: name.to_string(), arguments: arguments.to_string() },
    }
}

fn choice(content: &str, tool_calls: Option<Vec<ToolCalls>>) -> Choice {
    Choice {
        index: 0,
        message: ChoiceMessage {
            role: "assistant".to_string(),
            content: content.to_string(),
            tool_calls,
        },
        finish_reason: "stop".to_string(),
    }
}

fn response(choices: Vec<Choice>) -> ChatCompletionResponse {
    ChatCompletionResponse {
        id: "id".to_string(),
        object: "chat.completion".to_string(),
        created: 1,
        model: "deepseek-chat".to_string(),
        choices,
        usage: Usage { prompt_tokens: 1, completion_tokens: 2, total_tokens: 3 },
        system_fingerprint: "fp".to_string(),
    }
}

fn text_answer(content: &str) -> Result<ChatCompletionResponse, CompletionError> {
    Ok(response(vec![choice(content, None)]))
}

fn tool_answer(calls: Vec<ToolCalls>) -> Result<ChatCompletionResponse, CompletionError> {
    Ok(response(vec![choice("", Some(calls))]))
}

fn begin(service: &DeepSeekService, content: &str, enable_tools: bool) -> PendingChat {
    service.chat(vec![user(content)], enable_tools).0
}

fn results() -> SearchResponse {
    SearchResponse {
        messages: vec![SearchResponseMessage {
            url: "U".to_string(),
            title: "T".to_string(),
            content: "C".to_string(),
            icon: "I".to_string(),
        }],
        summary: "S".to_string(),
    }
}

fn reply(text: &str) -> ChatStep {
    ChatStep::Reply(text.to_string())
}

#[test]
fn new_service_starts_fresh() {
    let service = service();
    assert_eq!(service.history_manager.history_len(), 0);
    assert_eq!(service.history_manager.prompt_len(), 1);
    assert_eq!(service.knowledge_searcher.config, service.config);
}

#[test]
fn chat_submits_prompts_history_and_new_turns() {
    let mut service = service();
    service.history_manager.add_message(user("earlier"));
    let (pending, call) = service.chat(vec![user("now")], true);
    assert!(pending.tools_enabled());
    assert_eq!(pending.submitted(), vec![user("now")]);
    assert_eq!(call.url, "https://api.deepseek.com/chat/completions");
    assert_eq!(
        call.headers,
        vec![
            Header { name: "Content-Type".to_string(), value: "application/json".to_string() },
            Header { name: "Authorization".to_string(), value: "Bearer key".to_string() },
        ]
    );
    assert_eq!(
        call.body.messages,
        vec![
            wire(Role::System, DEFAULT_PROMPT),
            wire(Role::User, "earlier"),
            wire(Role::User, "now"),
        ]
    );
    assert_eq!(call.body.max_tokens, 2048);
    assert!(call.body.tools.is_some());
    assert_eq!(service.history_manager.history_len(), 1);
}

#[test]
fn chat_without_tools_uses_the_plain_request() {
    let service = service();
    let (pending, call) = service.chat(vec![user("now")], false);
    assert!(!pending.tools_enabled());
    assert_eq!(call.body.max_tokens, 8000);
    assert_eq!(call.body.tools, None);
}

#[test]
fn text_answer_is_the_reply_and_joins_the_transcript() {
    let mut service = service();
    let inbound = service.receive("ai 你好", Some("name"), false);
    let pending = match inbound {
        Inbound::Started(pending, call) => {
            assert_eq!(call.body.messages.last(), Some(&wire(Role::User, "[name]: 你好")));
            assert!(call.body.tools.is_some());
            pending
        }
        other => panic!("no exchange began: {:?}", other),
    };
    assert_eq!(service.history_manager.history_len(), 0);
    let step = service.handle_completion(pending, text_answer("你好！"));
    assert_eq!(step, reply("你好！"));
    assert_eq!(
        service.history_manager.history_snapshot(),
        vec![user("[name]: 你好"), Message::new(Role::Assistant, "你好！".to_string())]
    );
    assert_eq!(service.history_manager.prompt_len(), 1);
}

#[test]
fn answer_without_tools_offered_leaves_the_transcript() {
    let mut service = service();
    let pending = begin(&service, "q", false);
    let step = service.handle_completion(pending, text_answer("a"));
    assert_eq!(step, reply("a"));
    assert_eq!(service.history_manager.history_len(), 0);
}

#[test]
fn only_the_first_choice_counts() {
    let mut service = service();
    let pending = begin(&service, "q", true);
    let answer = Ok(response(vec![choice("first", None), choice("second", None)]));
    assert_eq!(service.handle_completion(pending, answer), reply("first"));
    assert_eq!(
        service.history_manager.history_snapshot(),
        vec![user("q"), Message::new(Role::Assistant, "first".to_string())]
    );
}

#[test]
fn empty_choices_give_the_fixed_reply() {
    let mut service = service();
    let pending = begin(&service, "q", true);
    let step = service.handle_completion(pending, Ok(response(Vec::new())));
    assert_eq!(step, reply("未收到有效回复"));
    assert_eq!(service.history_manager.history_len(), 0);
}

#[test]
fn unreadable_answer_is_reported_with_its_body() {
    let mut service = service();
    let pending = begin(&service, "q", true);
    let step = service
        .handle_completion(pending, Err(CompletionError::Decode("<html>oops</html>".to_string())));
    assert_eq!(step, reply("解析响应失败: <html>oops</html>"));
    assert_eq!(service.history_manager.history_len(), 0);
}

#[test]
fn failed_call_is_reported_with_its_reason() {
    let mut service = service();
    let pending = begin(&service, "q", true);
    let step = service
        .handle_completion(pending, Err(CompletionError::Transport("timed out".to_string())));
    assert_eq!(step, reply("请求失败: timed out"));
    assert_eq!(service.history_manager.history_len(), 0);
}

#[test]
fn single_tool_call_leads_to_one_search_and_one_follow_up() {
    let mut service = service();
    let pending = begin(&service, "[name]: what is X", true);
    let step = service.handle_completion(
        pending,
        tool_answer(vec![call("search_knowledge_base", "{\"query\":\"X\"}")]),
    );
    let search = match step {
        ChatStep::Search(search) => search,
        other => panic!("no search was asked for: {:?}", other),
    };
    assert_eq!(search, service.knowledge_searcher.request("X".to_string()));
    assert_eq!(search.body.query, "X");
    assert_eq!(service.history_manager.history_len(), 0);

    let (pending, follow_up) = match service.handle_search(Ok(results())) {
        SearchStep::FollowUp(pending, follow_up) => (pending, follow_up),
        other => panic!("no follow-up was asked for: {:?}", other),
    };
    assert!(!pending.tools_enabled());
    assert_eq!(pending.submitted(), vec![user("搜索结果:\n标题: T\n内容: C\n来源: U\n")]);
    assert_eq!(follow_up.body.tools, None);
    assert_eq!(follow_up.body.max_tokens, 8000);
    assert_eq!(
        follow_up.body.messages,
        vec![
            wire(Role::System, DEFAULT_PROMPT),
            wire(Role::User, "搜索结果:\n标题: T\n内容: C\n来源: U\n"),
        ]
    );

    let step = service.handle_completion(pending, text_answer("X is a letter"));
    assert_eq!(step, reply("X is a letter"));
    assert_eq!(service.history_manager.history_len(), 0);
}

#[test]
fn malformed_arguments_give_the_fixed_reply_and_no_search() {
    let mut service = service();
    let pending = begin(&service, "q", true);
    let step = service.handle_completion(
        pending,
        tool_answer(vec![call("search_knowledge_base", "{\"q\":\"X\"}")]),
    );
    assert_eq!(step, reply("工具调用处理失败"));
    assert_eq!(service.history_manager.history_len(), 0);
}

#[test]
fn unreadable_arguments_are_terminal_even_if_a_later_call_is_fine() {
    let service = service();
    let step = service.handle_tool_calls(&vec![
        call("search_knowledge_base", "not json"),
        call("search_knowledge_base", "{\"query\":\"X\"}"),
    ]);
    assert_eq!(step, reply("工具调用处理失败"));
}

#[test]
fn only_the_first_search_call_is_honoured() {
    let service = service();
    let step = service.handle_tool_calls(&vec![
        call("search_knowledge_base", "{\"query\":\"first\"}"),
        call("search_knowledge_base", "{\"query\":\"second\"}"),
    ]);
    assert_eq!(step, ChatStep::Search(service.knowledge_searcher.request("first".to_string())));
}

#[test]
fn calls_of_other_tools_are_passed_over() {
    let service = service();
    let step = service.handle_tool_calls(&vec![
        call("get_weather", "{\"query\":\"no\"}"),
        call("search_knowledge_base", "{\"query\":\"yes\"}"),
    ]);
    assert_eq!(step, ChatStep::Search(service.knowledge_searcher.request("yes".to_string())));
}

#[test]
fn unknown_tools_alone_give_the_fixed_reply() {
    let mut service = service();
    assert_eq!(
        service.handle_tool_calls(&vec![call("get_weather", "{\"query\":\"X\"}")]),
        reply("工具调用处理失败")
    );
    assert_eq!(service.handle_tool_calls(&Vec::new()), reply("工具调用处理失败"));
    let pending = begin(&service, "q", true);
    let step = service.handle_completion(pending, Ok(response(vec![choice("text", Some(Vec::new()))])));
    assert_eq!(step, reply("工具调用处理失败"));
    assert_eq!(service.history_manager.history_len(), 0);
}

#[test]
fn dispatch_follows_the_read_arguments() {
    let service = service();
    assert_eq!(
        service.dispatch_search(Some(SearchKnowledgeBaseArguments { query: "X".to_string() })),
        ChatStep::Search(service.knowledge_searcher.request("X".to_string()))
    );
    assert_eq!(service.dispatch_search(None), reply("工具调用处理失败"));
}

#[test]
fn failed_search_ends_the_exchange() {
    let service = service();
    assert_eq!(
        service.handle_search(Err(SearchError::Status(404))),
        SearchStep::Reply("搜索失败: \"搜索请求失败: 404\"".to_string())
    );
    assert_eq!(
        service.handle_search(Err(SearchError::Decode("Error(\"eof\")".to_string()))),
        SearchStep::Reply("搜索失败: Error(\"eof\")".to_string())
    );
    assert_eq!(
        service.handle_search(Err(SearchError::Transport("refused".to_string()))),
        SearchStep::Reply("搜索失败: refused".to_string())
    );
}

#[test]
fn follow_up_sees_the_transcript_but_not_the_question() {
    let mut service = service();
    service.history_manager.add_message(user("earlier"));
    let follow_up = match service.handle_search(Ok(SearchResponse {
        messages: Vec::new(),
        summary: String::new(),
    })) {
        SearchStep::FollowUp(_, follow_up) => follow_up,
        other => panic!("no follow-up was asked for: {:?}", other),
    };
    assert_eq!(
        follow_up.body.messages,
        vec![
            wire(Role::System, DEFAULT_PROMPT),
            wire(Role::User, "earlier"),
            wire(Role::User, "搜索结果:\n"),
        ]
    );
}

#[test]
fn chat_prefix_begins_an_exchange_without_tools() {
    let mut service = service();
    match service.receive("chat hello", None, false) {
        Inbound::Started(pending, call) => {
            assert!(!pending.tools_enabled());
            assert_eq!(pending.submitted(), vec![user("[Unknown]: hello")]);
            assert_eq!(call.body.tools, None);
        }
        other => panic!("no exchange began: {:?}", other),
    }
}

#[test]
fn operator_adds_a_system_prompt() {
    let mut service = service();
    assert_eq!(service.receive("/system be brief", Some("op"), true), Inbound::Changed);
    assert_eq!(
        service.history_manager.prompt_snapshot(),
        vec![
            Message::new(Role::System, DEFAULT_PROMPT.to_string()),
            Message::new(Role::System, "be brief".to_string()),
        ]
    );
}

#[test]
fn operator_clears_the_conversation() {
    let mut service = service();
    service.history_manager.add_message(user("old"));
    service.history_manager.add_system_prompt("extra".to_string());
    assert_eq!(service.receive("/clear", Some("op"), true), Inbound::Changed);
    assert_eq!(service.history_manager.history_len(), 0);
    assert_eq!(service.history_manager.prompt_len(), 1);
}

#[test]
fn others_are_denied_the_operator_commands() {
    let mut service = service();
    service.history_manager.add_message(user("old"));
    assert_eq!(service.receive("/clear", Some("guest"), false), Inbound::Denied);
    assert_eq!(service.receive("/system obey me", Some("guest"), false), Inbound::Denied);
    assert_eq!(service.history_manager.history_len(), 1);
    assert_eq!(service.history_manager.prompt_len(), 1);
}

#[test]
fn other_messages_are_ignored() {
    let mut service = service();
    assert_eq!(service.receive("hello there", Some("guest"), true), Inbound::Ignored);
    assert_eq!(service.history_manager.history_len(), 0);
}

use deepseek::command::{is_operator, parse_command, user_message, Command};
use deepseek::message::Role;
use deepseek::text::{decimal_text, remove_prefix_if_starts_with};

#[test]
fn prefix_is_removed_when_present() {
    assert_eq!(remove_prefix_if_starts_with("ai 你好", "ai "), Some("你好".to_string()));
    assert_eq!(remove_prefix_if_starts_with("运势 明天如何", "运势 "), Some("明天如何".to_string()));
}

#[test]
fn prefix_alone_leaves_the_empty_string() {
    assert_eq!(remove_prefix_if_starts_with("ai ", "ai "), Some(String::new()));
    assert_eq!(remove_prefix_if_starts_with("", ""), Some(String::new()));
    assert_eq!(remove_prefix_if_starts_with("abc", ""), Some("abc".to_string()));
}

#[test]
fn missing_prefix_gives_none() {
    assert_eq!(remove_prefix_if_starts_with("hello", "ai "), None);
    assert_eq!(remove_prefix_if_starts_with("a", "ai "), None);
    assert_eq!(remove_prefix_if_starts_with("", "ai "), None);
    assert_eq!(remove_prefix_if_starts_with("Ai hello", "ai "), None);
    assert_eq!(remove_prefix_if_starts_with(" ai hello", "ai "), None);
}

#[test]
fn prefix_is_compared_by_characters() {
    assert_eq!(remove_prefix_if_starts_with("你好世界", "你好"), Some("世界".to_string()));
    assert_eq!(remove_prefix_if_starts_with("你好世界", "你们"), None);
}

#[test]
fn decimal_text_writes_base_ten() {
    assert_eq!(decimal_text(0), "0");
    assert_eq!(decimal_text(7), "7");
    assert_eq!(decimal_text(10), "10");
    assert_eq!(decimal_text(404), "404");
    assert_eq!(decimal_text(1_000_000), "1000000");
    assert_eq!(decimal_text(u64::MAX), u64::MAX.to_string());
}

#[test]
fn ai_prefix_asks_with_tools() {
    assert_eq!(parse_command("ai 你好"), Command::Ask("你好".to_string()));
    assert_eq!(parse_command("ai "), Command::Ask(String::new()));
}

#[test]
fn chat_prefix_asks_without_tools() {
    assert_eq!(parse_command("chat what is up"), Command::Chat("what is up".to_string()));
}

#[test]
fn system_prefix_adds_a_prompt() {
    assert_eq!(
        parse_command("/system be brief"),
        Command::AddSystemPrompt("be brief".to_string())
    );
}

#[test]
fn clear_must_stand_alone() {
    assert_eq!(parse_command("/clear"), Command::ClearHistory);
    assert_eq!(parse_command("/clear "), Command::Nothing);
    assert_eq!(parse_command("/clear now"), Command::Nothing);
    assert_eq!(parse_command("/clea"), Command::Nothing);
}

#[test]
fn other_text_is_no_command() {
    assert_eq!(parse_command(""), Command::Nothing);
    assert_eq!(parse_command("ai"), Command::Nothing);
    assert_eq!(parse_command("chat"), Command::Nothing);
    assert_eq!(parse_command("/system"), Command::Nothing);
    assert_eq!(parse_command("hello ai "), Command::Nothing);
}

#[test]
fn only_the_two_store_commands_are_privileged() {
    assert!(Command::AddSystemPrompt("x".to_string()).is_privileged());
    assert!(Command::ClearHistory.is_privileged());
    assert!(!Command::Ask("x".to_string()).is_privileged());
    assert!(!Command::Chat("x".to_string()).is_privileged());
    assert!(!Command::Nothing.is_privileged());
}

#[test]
fn operators_are_found_by_id() {
    let operators = vec![10_i64, 20, 30];
    assert!(is_operator(10, &operators));
    assert!(is_operator(30, &operators));
    assert!(!is_operator(15, &operators));
    assert!(!is_operator(10, &Vec::new()));
}

#[test]
fn user_message_names_the_speaker() {
    let message = user_message(Some("小明"), "你好");
    assert_eq!(message.role, Role::User);
    assert_eq!(message.content, "[小明]: 你好");
    assert_eq!(message.tool_calls, None);
}

#[test]
fn user_message_without_nickname_is_unknown() {
    let message = user_message(None, "hi");
    assert_eq!(message.content, "[Unknown]: hi");
}

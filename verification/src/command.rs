//! The commands that arrive as chat messages, and the turn that a user's
//! words become.

use crate::message::{Message, MessageView, Role};
use crate::text::{after, remove_prefix_if_starts_with, starts_with};
use vstd::prelude::*;
use vstd::string::*;

verus! {

/// What a chat message asks of the bot.
#[derive(Debug, PartialEq, Eq)]
pub enum Command {
    /// A question for the model, which may use the tool.
    Ask(String),
    /// A question for the model, without the tool.
    Chat(String),
    /// An operator adds a system prompt.
    AddSystemPrompt(String),
    /// An operator clears the conversation.
    ClearHistory,
    /// Not meant for the bot.
    Nothing,
}

pub enum CommandView {
    Ask(Seq<char>),
    Chat(Seq<char>),
    AddSystemPrompt(Seq<char>),
    ClearHistory,
    Nothing,
}

impl View for Command {
    type V = CommandView;

    open spec fn view(&self) -> CommandView {
        match self {
            Command::Ask(content) => CommandView::Ask(content@),
            Command::Chat(content) => CommandView::Chat(content@),
            Command::AddSystemPrompt(text) => CommandView::AddSystemPrompt(text@),
            Command::ClearHistory => CommandView::ClearHistory,
            Command::Nothing => CommandView::Nothing,
        }
    }
}

impl Command {
    /// Whether only an operator may give the command.
    pub open spec fn privileged(command: CommandView) -> bool {
        command is AddSystemPrompt || command is ClearHistory
    }

    /// Whether only an operator may give this command.
    pub fn is_privileged(&self) -> (privileged: bool)
        ensures
            privileged == Self::privileged(self@),
    {
        match self {
            Command::AddSystemPrompt(_) => true,
            Command::ClearHistory => true,
            _ => false,
        }
    }
}

/// The command that `text` gives: a question behind `ai ` or `chat `, a
/// system prompt behind `/system `, or the word `/clear` alone.
pub open spec fn command_of(text: Seq<char>) -> CommandView {
    if starts_with(text, "ai "@) {
        CommandView::Ask(after(text, "ai "@.len()))
    } else if starts_with(text, "chat "@) {
        CommandView::Chat(after(text, "chat "@.len()))
    } else if starts_with(text, "/system "@) {
        CommandView::AddSystemPrompt(after(text, "/system "@.len()))
    } else if text == "/clear"@ {
        CommandView::ClearHistory
    } else {
        CommandView::Nothing
    }
}

/// Reads the command that a chat message gives.
pub fn parse_command(text: &str) -> (command: Command)
    ensures
        command@ == command_of(text@),
{
    if let Some(content) = remove_prefix_if_starts_with(text, "ai ") {
        return Command::Ask(content);
    }
    if let Some(content) = remove_prefix_if_starts_with(text, "chat ") {
        return Command::Chat(content);
    }
    if let Some(prompt) = remove_prefix_if_starts_with(text, "/system ") {
        return Command::AddSystemPrompt(prompt);
    }
    match remove_prefix_if_starts_with(text, "/clear") {
        Some(rest) => {
            if rest.as_str().is_empty() {
                assert(text@ =~= "/clear"@);
                Command::ClearHistory
            } else {
                Command::Nothing
            }
        },
        None => {
            assert(text@ != "/clear"@) by {
                if text@ == "/clear"@ {
                    assert(text@.subrange(0, "/clear"@.len() as int) =~= "/clear"@);
                }
            }
            Command::Nothing
        },
    }
}

/// Whether `sender` is one of the operators.
pub fn is_operator(sender: i64, operators: &Vec<i64>) -> (found: bool)
    ensures
        found == operators@.contains(sender),
{
    let mut i: usize = 0;
    while i < operators.len()
        invariant
            i <= operators.len(),
            forall|k: int| 0 <= k < i ==> operators[k] != sender,
        decreases operators.len() - i,
    {
        if operators[i] == sender {
            return true;
        }
        i += 1;
    }
    false
}

/// The name under which a sender without a nickname speaks.
pub open spec fn speaker(nickname: Option<Seq<char>>) -> Seq<char> {
    match nickname {
        Some(name) => name,
        None => "Unknown"@,
    }
}

/// The turn that the words of a user become: the words behind the
/// speaker's name in square brackets.
pub open spec fn user_turn(nickname: Option<Seq<char>>, content: Seq<char>) -> MessageView {
    Message::plain(Role::User, "["@ + speaker(nickname) + "]: "@ + content)
}

/// The view of an optional name.
pub open spec fn name_view(nickname: Option<&str>) -> Option<Seq<char>> {
    match nickname {
        Some(name) => Some(name@),
        None => None,
    }
}

/// Makes the turn for the words `content` of the user `nickname`.
pub fn user_message(nickname: Option<&str>, content: &str) -> (message: Message)
    ensures
        message@ == user_turn(name_view(nickname), content@),
        message@.role != Role::System,
{
    let name = match nickname {
        Some(name) => name,
        None => "Unknown",
    };
    Message::new(
        Role::User,
        String::from_str("[").concat(name).concat("]: ").concat(content),
    )
}

} // verus!

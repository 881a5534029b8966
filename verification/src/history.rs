//! The conversation store: the system prompts and the transcript that every
//! request is built from.

use crate::message::{
    message_views, stripped, stripped_all, wire_views, Message, MessageView, MessageWithoutToolCalls,
    MessageWithoutToolCallsView, Role,
};
use vstd::prelude::*;
use vstd::string::*;

verus! {

/// The persona that every conversation starts from.
pub open spec fn default_prompt() -> MessageView {
    Message::plain(
        Role::System,
        "你正在扮演一个真实的聊天对象,我会将消息以`[name]:msg`的格式发送给你,请鉴别不同人的消息记录的同时,综合群聊上下文回答对方问题。用中文回答,注意只回答内容,以纯字符串形式回复,不要带任何格式。"@,
    )
}

/// No turn of `messages` speaks as the system.
pub open spec fn no_system_turn(messages: Seq<MessageView>) -> bool {
    forall|i: int| 0 <= i < messages.len() ==> (#[trigger] messages[i]).role != Role::System
}

/// Every turn of `messages` speaks as the system.
pub open spec fn only_system_turns(messages: Seq<MessageView>) -> bool {
    forall|i: int| 0 <= i < messages.len() ==> (#[trigger] messages[i]).role == Role::System
}

/// The transcript after the turns of `turns` have been appended to
/// `history` one by one, first to last.
pub open spec fn after_appends(history: Seq<MessageView>, turns: Seq<MessageView>) -> Seq<
    MessageView,
>
    decreases turns.len(),
{
    if turns.len() == 0 {
        history
    } else {
        after_appends(history, turns.drop_last()).push(turns.last())
    }
}

/// The system prompts and the transcript of one bot.
#[derive(Debug)]
pub struct ChatHistoryManager {
    prompt_list: Vec<Message>,
    history_messages: Vec<Message>,
}

impl ChatHistoryManager {
    /// The system prompts, oldest first.
    pub closed spec fn prompts(&self) -> Seq<MessageView> {
        message_views(self.prompt_list@)
    }

    /// The transcript, oldest turn first.
    pub closed spec fn history(&self) -> Seq<MessageView> {
        message_views(self.history_messages@)
    }

    /// What holds of every store: the prompts begin with the default
    /// persona and all speak as the system, and no turn of the transcript
    /// does.
    #[verifier::type_invariant]
    pub open spec fn well_formed(&self) -> bool {
        &&& self.prompts().len() >= 1
        &&& self.prompts()[0] == default_prompt()
        &&& only_system_turns(self.prompts())
        &&& no_system_turn(self.history())
    }

    /// What a request is built from: the prompts, then the transcript, then
    /// the turns in `additional`, each without its tool calls.
    pub open spec fn combined(&self, additional: Seq<MessageView>) -> Seq<
        MessageWithoutToolCallsView,
    > {
        stripped_all(self.prompts() + self.history() + additional)
    }

    fn seed() -> (prompt_list: Vec<Message>)
        ensures
            message_views(prompt_list@) == seq![default_prompt()],
    {
        let mut prompt_list: Vec<Message> = Vec::new();
        prompt_list.push(
            Message::new(
                Role::System,
                String::from_str(
                    "你正在扮演一个真实的聊天对象,我会将消息以`[name]:msg`的格式发送给你,请鉴别不同人的消息记录的同时,综合群聊上下文回答对方问题。用中文回答,注意只回答内容,以纯字符串形式回复,不要带任何格式。",
                ),
            ),
        );
        prompt_list
    }

    /// A store with the default persona and an empty transcript.
    pub fn new() -> (store: Self)
        ensures
            store.prompts() == seq![default_prompt()],
            store.history() == Seq::<MessageView>::empty(),
            store.well_formed(),
    {
        ChatHistoryManager { prompt_list: Self::seed(), history_messages: Vec::new() }
    }

    /// Appends one turn to the transcript. The prompts stay as they are.
    pub fn add_message(&mut self, message: Message)
        requires
            message@.role != Role::System,
        ensures
            final(self).history() == old(self).history().push(message@),
            final(self).prompts() == old(self).prompts(),
            final(self).well_formed(),
    {
        proof {
            use_type_invariant(&*self);
        }
        let mut history_messages: Vec<Message> = Vec::new();
        std::mem::swap(&mut history_messages, &mut self.history_messages);
        history_messages.push(message);
        assert(message_views(history_messages@) =~= old(self).history().push(message@));
        self.history_messages = history_messages;
    }

    /// Appends the turns of `messages` to the transcript, in their order.
    pub fn add_messages(&mut self, messages: Vec<Message>)
        requires
            no_system_turn(message_views(messages@)),
        ensures
            final(self).history() == old(self).history() + message_views(messages@),
            final(self).prompts() == old(self).prompts(),
            final(self).well_formed(),
    {
        proof {
            use_type_invariant(&*self);
        }
        let mut messages = messages;
        let ghost added = message_views(messages@);
        let mut history_messages: Vec<Message> = Vec::new();
        std::mem::swap(&mut history_messages, &mut self.history_messages);
        history_messages.append(&mut messages);
        proof {
            let now = message_views(history_messages@);
            assert forall|i: int| 0 <= i < now.len() implies (#[trigger] now[i]).role
                != Role::System by {
                if i >= old(self).history().len() {
                    assert(now[i] == added[i - old(self).history().len()]);
                } else {
                    assert(now[i] == old(self).history()[i]);
                }
            }
        }
        self.history_messages = history_messages;
    }

    /// Appends a system prompt with the text `text`. The transcript stays
    /// as it is.
    pub fn add_system_prompt(&mut self, text: String)
        ensures
            final(self).prompts() == old(self).prompts().push(Message::plain(Role::System, text@)),
            final(self).history() == old(self).history(),
            final(self).well_formed(),
    {
        proof {
            use_type_invariant(&*self);
        }
        let mut prompt_list = Self::seed();
        std::mem::swap(&mut prompt_list, &mut self.prompt_list);
        prompt_list.push(Message::new(Role::System, text));
        proof {
            let now = message_views(prompt_list@);
            assert forall|i: int| 0 <= i < now.len() implies (#[trigger] now[i]).role
                == Role::System by {
                if i < old(self).prompts().len() {
                    assert(now[i] == old(self).prompts()[i]);
                }
            }
        }
        self.prompt_list = prompt_list;
    }

    /// The messages of a request: the prompts, then the transcript, then
    /// `additional_messages`, each reduced to role and text. The store is
    /// only read.
    pub fn get_combined_messages(&self, additional_messages: &Vec<Message>) -> (combined: Vec<
        MessageWithoutToolCalls,
    >)
        ensures
            wire_views(combined@) == self.combined(message_views(additional_messages@)),
            self.well_formed(),
    {
        proof {
            use_type_invariant(self);
        }
        let mut combined: Vec<MessageWithoutToolCalls> = Vec::new();
        push_stripped(&mut combined, &self.prompt_list);
        push_stripped(&mut combined, &self.history_messages);
        push_stripped(&mut combined, additional_messages);
        combined
    }

    /// Forgets the conversation: the transcript becomes empty and of the
    /// prompts only the default persona stays.
    pub fn reset(&mut self)
        ensures
            final(self).history() == Seq::<MessageView>::empty(),
            final(self).prompts() == seq![default_prompt()],
            final(self).well_formed(),
    {
        proof {
            use_type_invariant(&*self);
        }
        self.history_messages = Vec::new();
        self.prompt_list = Self::seed();
    }

    /// How many turns the transcript holds.
    pub fn history_len(&self) -> (len: usize)
        ensures
            len == self.history().len(),
    {
        self.history_messages.len()
    }

    /// How many system prompts there are.
    pub fn prompt_len(&self) -> (len: usize)
        ensures
            len == self.prompts().len(),
            len >= 1,
    {
        proof {
            use_type_invariant(self);
        }
        self.prompt_list.len()
    }

    /// A copy of the transcript.
    pub fn history_snapshot(&self) -> (copy: Vec<Message>)
        ensures
            message_views(copy@) == self.history(),
    {
        clone_messages(&self.history_messages)
    }

    /// A copy of the system prompts.
    pub fn prompt_snapshot(&self) -> (copy: Vec<Message>)
        ensures
            message_views(copy@) == self.prompts(),
    {
        clone_messages(&self.prompt_list)
    }
}

/// Appends to `target` the turns of `source`, each reduced to role and
/// text.
fn push_stripped(target: &mut Vec<MessageWithoutToolCalls>, source: &Vec<Message>)
    ensures
        wire_views(final(target)@) == wire_views(old(target)@) + stripped_all(
            message_views(source@),
        ),
{
    let ghost before = wire_views(target@);
    let mut i: usize = 0;
    while i < source.len()
        invariant
            i <= source.len(),
            target.len() == before.len() + i,
            forall|k: int| 0 <= k < before.len() ==> (#[trigger] target[k])@ == before[k],
            forall|k: int|
                0 <= k < i ==> (#[trigger] target[before.len() + k])@ == stripped(source[k]@),
        decreases source.len() - i,
    {
        target.push(source[i].without_tool_calls());
        i += 1;
    }
    proof {
        let expected = before + stripped_all(message_views(source@));
        assert forall|at: int| 0 <= at < target.len() implies wire_views(target@)[at]
            == expected[at] by {
            if at >= before.len() {
                let k = at - before.len();
                assert(target[before.len() + k]@ == stripped(source[k]@));
            } else {
                assert(target[at]@ == before[at]);
            }
        }
    }
}

/// Tells whether no turn of `messages` speaks as the system.
pub fn has_no_system_turn(messages: &Vec<Message>) -> (none: bool)
    ensures
        none == no_system_turn(message_views(messages@)),
{
    let mut i: usize = 0;
    while i < messages.len()
        invariant
            i <= messages.len(),
            forall|k: int|
                0 <= k < i ==> (#[trigger] message_views(messages@)[k]).role != Role::System,
        decreases messages.len() - i,
    {
        if messages[i].role == Role::System {
            assert(message_views(messages@)[i as int].role == Role::System);
            return false;
        }
        i += 1;
    }
    true
}

/// Copies a list of turns.
pub fn clone_messages(messages: &Vec<Message>) -> (copy: Vec<Message>)
    ensures
        message_views(copy@) == message_views(messages@),
{
    let mut copy: Vec<Message> = Vec::new();
    let mut i: usize = 0;
    while i < messages.len()
        invariant
            i <= messages.len(),
            copy.len() == i,
            forall|k: int| 0 <= k < i ==> copy[k]@ == messages[k]@,
        decreases messages.len() - i,
    {
        copy.push(messages[i].clone());
        i += 1;
    }
    copy
}

/// Reading is repeatable: as long as nothing is appended, two requests
/// with the same additional turns are built from the same messages in the
/// same order.
pub proof fn lemma_snapshot_repeatable(
    store: ChatHistoryManager,
    additional: Seq<MessageView>,
    first: Seq<MessageWithoutToolCallsView>,
    second: Seq<MessageWithoutToolCallsView>,
)
    requires
        first == store.combined(additional),
        second == store.combined(additional),
    ensures
        first == second,
        first.len() == store.prompts().len() + store.history().len() + additional.len(),
{
}

/// Appending keeps order and loses nothing: after the turns of `turns`
/// have been appended one by one, the transcript is the old one followed by
/// `turns`, so it has grown by their number and holds each of them once, at
/// its place.
pub proof fn lemma_appends_keep_order(history: Seq<MessageView>, turns: Seq<MessageView>)
    ensures
        after_appends(history, turns) == history + turns,
        after_appends(history, turns).len() == history.len() + turns.len(),
        forall|i: int|
            0 <= i < turns.len() ==> after_appends(history, turns)[history.len() + i] == turns[i],
        forall|i: int| 0 <= i < history.len() ==> after_appends(history, turns)[i] == history[i],
    decreases turns.len(),
{
    if turns.len() > 0 {
        lemma_appends_keep_order(history, turns.drop_last());
    }
}

} // verus!

//! The catch-all command: rebuilds the conversation that a reply continues
//! by walking the reply chain back through the cache.

use crate::cache::{cache_wf, entries_after_get, has_key, lemma_get_keeps, lookup, Entries};
use crate::command::command::{handled, Action, ActionView, Command, CommandKind};
use crate::command::error::CommandErrorView;
use crate::command::error::CommandError;
use crate::handler::{with_entries, Handler, HandlerView, MessageLite, MessageLiteView};
use crate::ogpt::model::chat_completions::{turns_of, Message, MessageView, Role};
use crate::text::{strip_prefix, stripped};
use vstd::prelude::*;

verus! {

pub const PREFIX: &'static str = "";

pub const COMMAND: &'static str = "";

pub const DESCRIPTION: &'static str =
    "After getting a response from ChatGPT, you can reply to continue the conversation";

pub const USAGE_EXAMPLE: &'static str = "<reply>";

/// Why a completion gave no answer.
pub const NO_ANSWER: &'static str = "Failed to get 0th choice from response";

/// What the first message of a thread begins with: the ask command and the
/// blank behind it. The question is what follows.
pub const ROOT_TRIGGER: &'static str = "!gpt ";

/// The turn a record contributes to a thread: the bot's own messages speak
/// as the assistant, all others as the user.
pub open spec fn turn_of(record: MessageLiteView) -> MessageView {
    MessageView {
        role: if record.is_own {
            Role::Assistant
        } else {
            Role::User
        },
        content: record.content,
    }
}

/// A user's turn.
pub open spec fn user_turn(content: Seq<char>) -> MessageView {
    MessageView { role: Role::User, content }
}

/// The system's turn.
pub open spec fn system_turn(content: Seq<char>) -> MessageView {
    MessageView { role: Role::System, content }
}

/// How a walk along a reply chain ends: the turns from the question on,
/// oldest first, where the walk reached a question, and the cache as the
/// lookups of the walk leave it.
pub struct Walk {
    pub turns: Option<Seq<MessageView>>,
    pub entries: Entries,
}

/// The walk from `current` back along the replies, with at most `lookups`
/// lookups in the cache.
///
/// A record whose author is not the one whose turn it is ends the walk with
/// nothing. A record that begins with `ROOT_TRIGGER` is the question: it ends
/// the walk with a user's turn that holds the rest of its text. Any other
/// record gives its turn and hands on to the record it replies to, which a
/// lookup moves to the front of the cache; where it replies to nothing, where
/// that record is not cached, or where no lookup is left, the walk ends with
/// nothing.
pub open spec fn walk(
    entries: Entries,
    current: MessageLiteView,
    expect_own: bool,
    lookups: nat,
) -> Walk
    decreases lookups,
{
    if current.is_own != expect_own {
        Walk { turns: None, entries }
    } else if let Some(question) = stripped(current.content, ROOT_TRIGGER@) {
        Walk { turns: Some(seq![user_turn(question)]), entries }
    } else if lookups == 0 {
        Walk { turns: None, entries }
    } else if let Some(id) = current.ref_msg_id {
        if let Some(parent) = lookup(entries, id) {
            let older = walk(
                entries_after_get(entries, id),
                parent,
                !expect_own,
                (lookups - 1) as nat,
            );
            Walk {
                turns: match older.turns {
                    Some(turns) => Some(turns.push(turn_of(current))),
                    None => None,
                },
                entries: older.entries,
            }
        } else {
            Walk { turns: None, entries }
        }
    } else {
        Walk { turns: None, entries }
    }
}

/// The prompt for the thread that ends in `start`: the system prompt, then
/// the turns from the question to `start`. `None` where the reply chain of
/// `start` does not lead back to a question.
pub open spec fn thread_prompt(state: HandlerView, start: MessageLiteView) -> Option<
    Seq<MessageView>,
> {
    match walk(state.entries, start, false, state.capacity).turns {
        Some(turns) => Some(seq![system_turn(state.prompt)] + turns),
        None => None,
    }
}

/// The turns gathered newest first, put behind the turns `older` that came
/// before them.
spec fn joined(older: Option<Seq<MessageView>>, gathered: Seq<Message>) -> Option<
    Seq<MessageView>,
> {
    match older {
        Some(turns) => Some(turns + turns_of(gathered).reverse()),
        None => None,
    }
}

/// The prompt made of the system prompt and the gathered turns, oldest first.
fn finish(system: String, gathered: Vec<Message>) -> (prompt: Vec<Message>)
    ensures
        turns_of(prompt@) == seq![system_turn(system@)] + turns_of(gathered@).reverse(),
{
    let mut gathered = gathered;
    let mut prompt: Vec<Message> = Vec::new();
    prompt.push(Message { role: Role::System, content: system });
    let ghost all = gathered@;
    while gathered.len() > 0
        invariant
            turns_of(prompt@) + turns_of(gathered@).reverse() == seq![system_turn(system@)]
                + turns_of(all).reverse(),
        decreases gathered.len(),
    {
        let ghost before = gathered@;
        let ghost built = prompt@;
        let turn = gathered.pop().unwrap();
        prompt.push(turn);
        assert(turns_of(prompt@) + turns_of(gathered@).reverse() =~= turns_of(built) + turns_of(
            before,
        ).reverse());
    }
    assert(turns_of(prompt@) + turns_of(gathered@).reverse() =~= turns_of(prompt@));
    prompt
}

/// Rebuilds the conversation that ends in `start` from the cached records of
/// its reply chain. Returns the prompt to complete, or `None` where the chain
/// does not lead back to a question. Every record found on the way becomes
/// the most recently used one, and the walk makes at most as many lookups as
/// the cache can hold records.
pub fn reconstruct(handler: &mut Handler, start: &MessageLite) -> (prompt: Option<Vec<Message>>)
    requires
        old(handler).wf(),
    ensures
        final(handler).wf(),
        final(handler)@ == with_entries(
            old(handler)@,
            walk(old(handler)@.entries, start@, false, old(handler)@.capacity).entries,
        ),
        match prompt {
            Some(messages) => Some(turns_of(messages@)) == thread_prompt(old(handler)@, start@),
            None => thread_prompt(old(handler)@, start@) is None,
        },
{
    let ghost whole = walk(handler@.entries, start@, false, handler@.capacity);
    let system = handler.get_prompt();
    let mut gathered: Vec<Message> = Vec::new();
    let mut current: MessageLite = start.clone();
    let mut expect_own = false;
    let mut lookups: usize = handler.capacity();
    assert(turns_of(gathered@).reverse() =~= Seq::<MessageView>::empty());
    assert(whole.turns matches Some(turns) ==> turns + Seq::<MessageView>::empty() =~= turns);
    loop
        invariant
            handler.wf(),
            handler@ == with_entries(old(handler)@, handler@.entries),
            system@ == old(handler)@.prompt,
            whole == walk(old(handler)@.entries, start@, false, old(handler)@.capacity),
            whole.entries == walk(handler@.entries, current@, expect_own, lookups as nat).entries,
            whole.turns == joined(
                walk(handler@.entries, current@, expect_own, lookups as nat).turns,
                gathered@,
            ),
        decreases lookups,
    {
        let ghost rest = walk(handler@.entries, current@, expect_own, lookups as nat);
        if current.is_own != expect_own {
            return None;
        }
        match strip_prefix(current.content.as_str(), ROOT_TRIGGER) {
            Some(question) => {
                let ghost before = gathered@;
                gathered.push(Message { role: Role::User, content: question.to_owned() });
                assert(seq![user_turn(question@)] + turns_of(before).reverse() =~= turns_of(
                    gathered@,
                ).reverse());
                let prompt = finish(system, gathered);
                assert(seq![system_turn(system@)] + (seq![user_turn(question@)] + turns_of(
                    before,
                ).reverse()) =~= seq![system_turn(system@)] + seq![user_turn(question@)]
                    + turns_of(before).reverse());
                return Some(prompt);
            },
            None => {},
        }
        if lookups == 0 {
            return None;
        }
        let ghost before = gathered@;
        let role = if current.is_own {
            Role::Assistant
        } else {
            Role::User
        };
        gathered.push(Message { role, content: current.content.clone() });
        lookups = lookups - 1;
        match handler.get_referenced_from_cache(&current) {
            Some(parent) => {
                proof {
                    let older = walk(handler@.entries, parent@, !expect_own, lookups as nat);
                    assert(rest.entries == older.entries);
                    assert(turns_of(gathered@).reverse() =~= seq![turn_of(current@)] + turns_of(
                        before,
                    ).reverse());
                    assert(older.turns matches Some(turns) ==> turns.push(turn_of(current@))
                        + turns_of(before).reverse() =~= turns + turns_of(gathered@).reverse());
                }
                current = parent;
            },
            None => {
                return None;
            },
        }
        expect_own = !expect_own;
    }
}

/// Broken chain. A record whose author is not the one whose turn it is ends
/// the walk with nothing, and the cache stays as it is.
pub proof fn lemma_broken_chain(
    entries: Entries,
    current: MessageLiteView,
    expect_own: bool,
    lookups: nat,
)
    requires
        current.is_own != expect_own,
    ensures
        walk(entries, current, expect_own, lookups) == (Walk { turns: None, entries }),
{
}

/// Evicted ancestor. A record that is no question and replies to a message
/// that is not cached ends the walk with nothing, and the cache stays as it
/// is.
pub proof fn lemma_missing_ancestor(
    entries: Entries,
    current: MessageLiteView,
    expect_own: bool,
    lookups: nat,
)
    requires
        stripped(current.content, ROOT_TRIGGER@) is None,
        current.ref_msg_id matches Some(id) && !has_key(entries, id),
    ensures
        walk(entries, current, expect_own, lookups) == (Walk { turns: None, entries }),
{
}

/// A walk that ends with nothing further back ends with nothing: where the
/// walk from the record replied to gives no turns, neither does the walk
/// from a record that is no question. So a walk that comes, at any depth, to
/// a broken link or to a record that is not cached gives no prompt.
pub proof fn lemma_rest_decides(
    entries: Entries,
    current: MessageLiteView,
    expect_own: bool,
    lookups: nat,
)
    requires
        stripped(current.content, ROOT_TRIGGER@) is None,
        lookups > 0,
        current.ref_msg_id matches Some(id) && has_key(entries, id) && walk(
            entries_after_get(entries, id),
            lookup(entries, id).unwrap(),
            !expect_own,
            (lookups - 1) as nat,
        ).turns is None,
    ensures
        walk(entries, current, expect_own, lookups).turns is None,
{
}

/// The depth guard. A walk gives at least one turn and at most one more than
/// the lookups it was allowed.
pub proof fn lemma_walk_bounded(
    entries: Entries,
    current: MessageLiteView,
    expect_own: bool,
    lookups: nat,
)
    ensures
        walk(entries, current, expect_own, lookups).turns matches Some(turns) ==> 1 <= turns.len()
            <= lookups + 1,
    decreases lookups,
{
    if current.is_own == expect_own && stripped(current.content, ROOT_TRIGGER@) is None && lookups
        > 0 {
        if let Some(id) = current.ref_msg_id {
            if let Some(parent) = lookup(entries, id) {
                lemma_walk_bounded(
                    entries_after_get(entries, id),
                    parent,
                    !expect_own,
                    (lookups - 1) as nat,
                );
            }
        }
    }
}

/// The shape of a thread. The turns of a walk begin with the question, as a
/// user's turn, and end with the turn of the record the walk set out from.
pub proof fn lemma_walk_shape(
    entries: Entries,
    current: MessageLiteView,
    expect_own: bool,
    lookups: nat,
)
    ensures
        walk(entries, current, expect_own, lookups).turns matches Some(turns) ==> {
            &&& turns.len() > 0
            &&& turns.first().role == Role::User
            &&& turns.last() == match stripped(current.content, ROOT_TRIGGER@) {
                Some(question) => user_turn(question),
                None => turn_of(current),
            }
        },
    decreases lookups,
{
    if current.is_own == expect_own && stripped(current.content, ROOT_TRIGGER@) is None && lookups
        > 0 {
        if let Some(id) = current.ref_msg_id {
            if let Some(parent) = lookup(entries, id) {
                lemma_walk_shape(
                    entries_after_get(entries, id),
                    parent,
                    !expect_own,
                    (lookups - 1) as nat,
                );
            }
        }
    }
}

/// A walk only reorders the cache: the cache stays well formed, holds as
/// many records as before, and every id finds what it found before.
pub proof fn lemma_walk_keeps_records(
    entries: Entries,
    capacity: nat,
    current: MessageLiteView,
    expect_own: bool,
    lookups: nat,
    other: u64,
)
    requires
        cache_wf(entries, capacity),
    ensures
        cache_wf(walk(entries, current, expect_own, lookups).entries, capacity),
        walk(entries, current, expect_own, lookups).entries.len() == entries.len(),
        lookup(walk(entries, current, expect_own, lookups).entries, other) == lookup(
            entries,
            other,
        ),
    decreases lookups,
{
    if current.is_own == expect_own && stripped(current.content, ROOT_TRIGGER@) is None && lookups
        > 0 {
        if let Some(id) = current.ref_msg_id {
            if let Some(parent) = lookup(entries, id) {
                lemma_get_keeps(entries, capacity, id, other);
                lemma_walk_keeps_records(
                    entries_after_get(entries, id),
                    capacity,
                    parent,
                    !expect_own,
                    (lookups - 1) as nat,
                    other,
                );
            }
        }
    }
}

/// A reply never fails: where its chain gives no prompt, nothing is left to
/// do, and else a completion of the prompt is asked for.
pub proof fn lemma_reply_never_fails(state: HandlerView, msg: MessageLiteView)
    ensures
        handled(CommandKind::GptReply, state, msg).outcome == Ok::<ActionView, CommandErrorView>(
            match thread_prompt(state, msg) {
                Some(messages) => ActionView::Complete {
                    command: CommandKind::GptReply,
                    messages,
                },
                None => ActionView::Nothing,
            },
        ),
        handled(CommandKind::GptReply, state, msg).outcome is Ok,
{
}

/// The catch-all: takes every message that is not the bot's own, and
/// continues the conversation that the message replies to.
#[derive(Debug)]
pub struct GptReply;

impl Command for GptReply {
    open spec fn kind(&self) -> CommandKind {
        CommandKind::GptReply
    }

    fn get_prefix(&self) -> (prefix: &'static str) {
        PREFIX
    }

    fn get_command(&self) -> (name: &'static str) {
        COMMAND
    }

    fn get_description(&self) -> (description: &'static str) {
        DESCRIPTION
    }

    fn get_usage_example(&self) -> (usage: &'static str) {
        USAGE_EXAMPLE
    }

    fn matches(&self, msg: &MessageLite) -> (matched: bool) {
        !msg.is_own
    }

    fn handle(&self, handler: &mut Handler, msg: &MessageLite) -> (outcome: Result<
        Action,
        CommandError,
    >) {
        match reconstruct(handler, msg) {
            Some(messages) => Ok(Action::Complete { command: CommandKind::GptReply, messages }),
            None => Ok(Action::Nothing),
        }
    }

    fn command_error(&self, err: String) -> (error: CommandError) {
        CommandError::of_command(PREFIX, COMMAND, err)
    }
}

} // verus!

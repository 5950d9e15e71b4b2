//! The state that the commands share, the record of a message, and the
//! routing of a message to its command.

use crate::cache::{
    cache_capacity, cache_entries, cache_wf, entries_after_get, entries_after_put, has_key,
    lemma_get_keeps, lemma_put_keeps, lookup, lru_cap, lru_get, lru_len, lru_new, lru_put, Entries,
    MAX_CAPACITY,
};
use crate::command::command::{handled, outcome_view, Action, ActionView, Command, Handled};
use crate::command::error::{CommandError, CommandErrorView};
use crate::command::{lemma_selected_matches, select, selected};
use lru::LruCache;
use vstd::prelude::*;

verus! {

/// The number of messages the bot remembers, unless it is made with another.
pub const MESSAGE_CACHE_SIZE: usize = 350;

/// The model that completes the prompts.
pub const GPT_MODEL: &'static str = "gpt-3.5-turbo";

/// The system prompt in force until another is set.
pub const GPT_DEFAULT_SYSTEM_PROMPT: &'static str = "You are a bot that answers questions accurately.";

/// Snapshot of a platform message, taken when the message is observed.
#[derive(Debug)]
pub struct MessageLite {
    pub id: u64,
    pub ref_msg_id: Option<u64>,
    pub content: String,
    pub author_name: String,
    pub is_own: bool,
}

/// What a `MessageLite` holds, with its texts as sequences of characters.
pub struct MessageLiteView {
    pub id: u64,
    pub ref_msg_id: Option<u64>,
    pub content: Seq<char>,
    pub author_name: Seq<char>,
    pub is_own: bool,
}

impl View for MessageLite {
    type V = MessageLiteView;

    open spec fn view(&self) -> MessageLiteView {
        MessageLiteView {
            id: self.id,
            ref_msg_id: self.ref_msg_id,
            content: self.content@,
            author_name: self.author_name@,
            is_own: self.is_own,
        }
    }
}

impl Clone for MessageLite {
    fn clone(&self) -> (copy: MessageLite)
        ensures
            copy@ == self@,
    {
        MessageLite {
            id: self.id,
            ref_msg_id: self.ref_msg_id,
            content: self.content.clone(),
            author_name: self.author_name.clone(),
            is_own: self.is_own,
        }
    }
}

impl MessageLite {
    /// The record of a message, from the parts the platform reports of it.
    pub fn from_msg(
        id: u64,
        ref_msg_id: Option<u64>,
        content: &str,
        author_name: &str,
        is_own: bool,
    ) -> (record: MessageLite)
        ensures
            record@ == (MessageLiteView {
                id,
                ref_msg_id,
                content: content@,
                author_name: author_name@,
                is_own,
            }),
    {
        MessageLite {
            id,
            ref_msg_id,
            content: content.to_owned(),
            author_name: author_name.to_owned(),
            is_own,
        }
    }
}

/// The state that all commands share: the cache of observed messages and
/// the system prompt.
pub struct Handler {
    message_cache: LruCache<u64, MessageLite>,
    prompt: String,
}

/// What a `Handler` holds: the cached records by id, most recently used
/// first, the capacity of the cache, and the system prompt.
pub struct HandlerView {
    pub entries: Entries,
    pub capacity: nat,
    pub prompt: Seq<char>,
}

impl View for Handler {
    type V = HandlerView;

    closed spec fn view(&self) -> HandlerView {
        HandlerView {
            entries: cache_entries(self.message_cache),
            capacity: cache_capacity(self.message_cache),
            prompt: self.prompt@,
        }
    }
}

/// The state with `prompt` in place of its system prompt.
pub open spec fn with_prompt(state: HandlerView, prompt: Seq<char>) -> HandlerView {
    HandlerView { prompt, ..state }
}

/// The state with `entries` in place of its cached records.
pub open spec fn with_entries(state: HandlerView, entries: Entries) -> HandlerView {
    HandlerView { entries, ..state }
}

impl Handler {
    /// The cache holds at most `capacity` records, one for each id.
    pub open spec fn wf(&self) -> bool {
        cache_wf(self@.entries, self@.capacity)
    }

    /// A handler with an empty cache of `lru_cache_size` records and the
    /// given system prompt, or the default one.
    pub fn new(lru_cache_size: usize, default_prompt: Option<String>) -> (handler: Handler)
        requires
            0 < lru_cache_size <= MAX_CAPACITY,
        ensures
            handler.wf(),
            handler@.entries == Entries::empty(),
            handler@.capacity == lru_cache_size,
            handler@.prompt == match default_prompt {
                Some(prompt) => prompt@,
                None => GPT_DEFAULT_SYSTEM_PROMPT@,
            },
    {
        let prompt = match default_prompt {
            Some(prompt) => prompt,
            None => GPT_DEFAULT_SYSTEM_PROMPT.to_owned(),
        };
        Handler { message_cache: lru_new(lru_cache_size), prompt }
    }

    /// Files the record under its id as the most recently used one. A record
    /// already filed under that id is replaced; otherwise, when the cache is
    /// full, the least recently used record leaves.
    pub fn cache_message(&mut self, msg: MessageLite)
        requires
            old(self).wf(),
        ensures
            final(self).wf(),
            final(self)@ == with_entries(
                old(self)@,
                entries_after_put(old(self)@.entries, old(self)@.capacity, msg.id, msg@),
            ),
            lookup(final(self)@.entries, msg.id) == Some(msg@),
    {
        proof {
            lemma_put_keeps(self@.entries, self@.capacity, msg@);
        }
        let id = msg.id;
        lru_put(&mut self.message_cache, id, msg);
    }

    /// A copy of the record that `msg` replies to, if `msg` is a reply and
    /// that record is cached. A record found becomes the most recently used.
    pub fn get_referenced_from_cache(&mut self, msg: &MessageLite) -> (found: Option<MessageLite>)
        requires
            old(self).wf(),
        ensures
            final(self).wf(),
            final(self)@ == with_entries(
                old(self)@,
                match msg.ref_msg_id {
                    Some(id) => entries_after_get(old(self)@.entries, id),
                    None => old(self)@.entries,
                },
            ),
            match msg.ref_msg_id {
                Some(id) => match found {
                    Some(record) => Some(record@) == lookup(old(self)@.entries, id),
                    None => !has_key(old(self)@.entries, id),
                },
                None => found is None,
            },
    {
        match msg.ref_msg_id {
            Some(id) => {
                proof {
                    lemma_get_keeps(self@.entries, self@.capacity, id, id);
                }
                lru_get(&mut self.message_cache, id)
            },
            None => None,
        }
    }

    /// Routes the message to the first command that takes it and returns
    /// what that command decides: the action that is left to do, or the error
    /// to show. Nothing is left to do where no command takes the message.
    ///
    /// The message itself is not filed here: it goes to `cache_message` once
    /// the action has been done, whether it failed or not.
    pub fn message(&mut self, msg: &MessageLite) -> (outcome: Result<Action, CommandError>)
        requires
            old(self).wf(),
        ensures
            final(self).wf(),
            match selected(msg@) {
                Some(kind) => handled(kind, old(self)@, msg@) == (Handled {
                    outcome: outcome_view(outcome),
                    state: final(self)@,
                }),
                None => outcome_view(outcome) == Ok::<ActionView, CommandErrorView>(
                    ActionView::Nothing,
                ) && final(self)@ == old(self)@,
            },
    {
        proof {
            lemma_selected_matches(msg@);
        }
        match select(msg) {
            Some(command) => command.handle(self, msg),
            None => Ok(Action::Nothing),
        }
    }

    /// The number of records the cache holds.
    pub fn cached_count(&self) -> (count: usize)
        ensures
            count == self@.entries.len(),
    {
        lru_len(&self.message_cache)
    }

    /// The number of records the cache can hold.
    pub fn capacity(&self) -> (capacity: usize)
        ensures
            capacity == self@.capacity,
    {
        lru_cap(&self.message_cache)
    }

    /// A copy of the system prompt.
    pub fn get_prompt(&self) -> (prompt: String)
        ensures
            prompt@ == self@.prompt,
    {
        self.prompt.clone()
    }

    /// Replaces the system prompt.
    pub fn set_prompt(&mut self, prompt: String)
        ensures
            final(self)@ == with_prompt(old(self)@, prompt@),
    {
        self.prompt = prompt;
    }
}

/// Setting the same prompt twice is setting it once, and the prompt read
/// afterwards is the one that was set.
pub proof fn lemma_set_prompt_idempotent(state: HandlerView, prompt: Seq<char>)
    ensures
        with_prompt(with_prompt(state, prompt), prompt) == with_prompt(state, prompt),
        with_prompt(state, prompt).prompt == prompt,
{
}

/// Of two prompts set one after the other, in whichever order, the one set
/// last is in force: the prompt read afterwards is one of the two, whole.
pub proof fn lemma_last_prompt_wins(state: HandlerView, first: Seq<char>, second: Seq<char>)
    ensures
        with_prompt(with_prompt(state, first), second).prompt == second,
        with_prompt(with_prompt(state, second), first).prompt == first,
        with_prompt(with_prompt(state, first), second) == with_prompt(state, second),
{
}

} // verus!

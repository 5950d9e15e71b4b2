use crate::command::command::{lemma_full_command, Action, Command, CommandKind};
use crate::command::error::{CommandError, CommandErrorView};
use crate::handler::{Handler, MessageLite};
use crate::text::{starts_with, strip_prefix, trim, trimmed};
use vstd::prelude::*;

verus! {

pub const PREFIX: &'static str = "!";

pub const COMMAND: &'static str = "play";

pub const FULL_COMMAND: &'static str = "!play";

pub const DESCRIPTION: &'static str = "Joins current channel and adds the song to the queue";

pub const USAGE_EXAMPLE: &'static str = "!play <song name>";

/// What a message asks to be played: what follows the command, without the
/// whitespace around it.
pub open spec fn query(content: Seq<char>) -> Seq<char> {
    trimmed(content.skip(FULL_COMMAND@.len() as int))
}

/// Why nothing is played for a message from outside a guild.
pub const NOT_IN_GUILD: &'static str = "This command can only be used in a guild";

/// Why nothing is played where the voice side was never set up.
pub const NO_MANAGER: &'static str = "Songbird not initialized";

/// Why nothing is played where the bot has no call in the guild.
pub const NO_CALL: &'static str = "No handler found";

/// Why nothing is queued for a track that names no source.
pub const NO_SOURCE_URL: &'static str = "No source url found";

/// What the bot says of a track it has queued, before the source of the
/// track.
pub const QUEUED: &'static str = "Added to the queue ";

/// What keeps a track from being queued, if anything: the first of the
/// guild, the voice side and the call in the guild that is missing.
pub open spec fn missing(guild_id: Option<u64>, has_manager: bool, has_call: bool) -> Option<
    Seq<char>,
> {
    if guild_id is None {
        Some(NOT_IN_GUILD@)
    } else if !has_manager {
        Some(NO_MANAGER@)
    } else if !has_call {
        Some(NO_CALL@)
    } else {
        None
    }
}

/// Searches for a track and adds it to the voice queue.
#[derive(Debug)]
pub struct Play;

impl Play {
    /// The guild in whose call a track is to be queued, or the error that
    /// says what is missing. `guild_id` is the guild of the message,
    /// `has_manager` whether the voice side is set up, and `has_call` whether
    /// the bot has a call in that guild.
    pub fn call_guild(&self, guild_id: Option<u64>, has_manager: bool, has_call: bool) -> (guild:
        Result<u64, CommandError>)
        ensures
            match guild {
                Ok(id) => guild_id == Some(id) && missing(guild_id, has_manager, has_call)
                    is None,
                Err(error) => missing(guild_id, has_manager, has_call) == Some(
                    error@.error_message,
                ) && error@.command == FULL_COMMAND@,
            },
    {
        proof {
            lemma_full_command(CommandKind::Play);
        }
        let id = match guild_id {
            Some(id) => id,
            None => {
                return Err(self.command_error(NOT_IN_GUILD.to_owned()));
            },
        };
        if !has_manager {
            return Err(self.command_error(NO_MANAGER.to_owned()));
        }
        if !has_call {
            return Err(self.command_error(NO_CALL.to_owned()));
        }
        Ok(id)
    }

    /// What to say of a track that was found: that it was queued, with its
    /// source, or the error of a track that names no source.
    pub fn queued(&self, source_url: Option<&str>) -> (notice: Result<String, CommandError>)
        ensures
            match notice {
                Ok(text) => source_url matches Some(url) && text@ == QUEUED@ + url@,
                Err(error) => source_url is None && error@ == (CommandErrorView {
                    command: FULL_COMMAND@,
                    error_message: NO_SOURCE_URL@,
                }),
            },
    {
        proof {
            lemma_full_command(CommandKind::Play);
        }
        match source_url {
            Some(url) => {
                let mut text = QUEUED.to_owned();
                text.append(url);
                Ok(text)
            },
            None => Err(self.command_error(NO_SOURCE_URL.to_owned())),
        }
    }
}

impl Command for Play {
    open spec fn kind(&self) -> CommandKind {
        CommandKind::Play
    }

    fn get_prefix(&self) -> (prefix: &'static str) {
        PREFIX
    }

    fn get_command(&self) -> (name: &'static str) {
        COMMAND
    }

    fn get_description(&self) -> (description: &'static str) {
        DESCRIPTION
    }

    fn get_usage_example(&self) -> (usage: &'static str) {
        USAGE_EXAMPLE
    }

    fn matches(&self, msg: &MessageLite) -> (matched: bool) {
        starts_with(msg.content.as_str(), FULL_COMMAND)
    }

    fn handle(&self, handler: &mut Handler, msg: &MessageLite) -> (outcome: Result<
        Action,
        CommandError,
    >) {
        let search = trim(strip_prefix(msg.content.as_str(), FULL_COMMAND).unwrap());
        Ok(Action::Play(search.to_owned()))
    }

    fn command_error(&self, err: String) -> (error: CommandError) {
        CommandError::of_command(PREFIX, COMMAND, err)
    }
}

} // verus!

//! The command that brings the bot into a voice channel, and how long the
//! bot stays there.

use crate::command::command::{name_of, prefix_of, Action, Command, CommandKind};
use crate::command::error::{CommandError, CommandErrorView};
use crate::handler::{Handler, MessageLite};
use crate::text::starts_with;
use vstd::prelude::*;

verus! {

pub const PREFIX: &'static str = "!";

pub const COMMAND: &'static str = "join";

pub const FULL_COMMAND: &'static str = "!join";

pub const DESCRIPTION: &'static str = "Join voice channel that you are currently in.";

pub const USAGE_EXAMPLE: &'static str = "!join";

/// Why the bot cannot join where the author is in no voice channel.
pub const NOT_IN_VOICE: &'static str = "You must be in a voice channel to use this command";

/// Why the bot cannot join where the guild of the message is not known.
pub const NO_GUILD: &'static str = "Failed to get channel details";

/// The seconds the bot first waits in a voice channel before it looks
/// whether anything is left in the queue.
pub const FIRST_BACKOFF_SECONDS: u64 = 30;

/// What the bot does once a wait in a voice channel is over.
#[derive(Debug, Clone, Copy, PartialEq, Eq, Structural)]
pub enum Idle {
    /// Leave the voice channel.
    Leave,
    /// Stay and look again after this many seconds.
    Wait(u64),
}

/// The guild and the voice channel to join for a message, or the error of
/// `command` that says what is missing. `guild` is the guild of the message
/// where it is known, `voice_channel` the voice channel the author is in.
pub fn join_channel<C: Command>(command: &C, guild: Option<u64>, voice_channel: Option<u64>) -> (target:
    Result<(u64, u64), CommandError>)
    ensures
        match target {
            Ok(place) => guild == Some(place.0) && voice_channel == Some(place.1),
            Err(error) => error@ == (CommandErrorView {
                command: prefix_of(command.kind()) + name_of(command.kind()),
                error_message: if guild is None {
                    NO_GUILD@
                } else {
                    NOT_IN_VOICE@
                },
            }) && (guild is None || voice_channel is None),
        },
{
    match guild {
        Some(guild_id) => match voice_channel {
            Some(channel_id) => Ok((guild_id, channel_id)),
            None => Err(command.command_error(NOT_IN_VOICE.to_owned())),
        },
        None => Err(command.command_error(NO_GUILD.to_owned())),
    }
}

/// What to do after a wait of `backoff_seconds` in a voice channel: leave
/// where the queue is empty, else stay and wait twice as long.
pub fn after_backoff(queue_is_empty: bool, backoff_seconds: u64) -> (next: Idle)
    requires
        !queue_is_empty ==> 2 * backoff_seconds <= u64::MAX,
    ensures
        match next {
            Idle::Leave => queue_is_empty,
            Idle::Wait(seconds) => !queue_is_empty && seconds == 2 * backoff_seconds,
        },
{
    if queue_is_empty {
        Idle::Leave
    } else {
        Idle::Wait(backoff_seconds * 2)
    }
}

/// Brings the bot into the voice channel of the author.
#[derive(Debug)]
pub struct Join;

impl Command for Join {
    open spec fn kind(&self) -> CommandKind {
        CommandKind::Join
    }

    fn get_prefix(&self) -> (prefix: &'static str) {
        PREFIX
    }

    fn get_command(&self) -> (name: &'static str) {
        COMMAND
    }

    fn get_description(&self) -> (description: &'static str) {
        DESCRIPTION
    }

    fn get_usage_example(&self) -> (usage: &'static str) {
        USAGE_EXAMPLE
    }

    fn matches(&self, msg: &MessageLite) -> (matched: bool) {
        starts_with(msg.content.as_str(), FULL_COMMAND)
    }

    fn handle(&self, handler: &mut Handler, msg: &MessageLite) -> (outcome: Result<
        Action,
        CommandError,
    >) {
        Ok(Action::Join)
    }

    fn command_error(&self, err: String) -> (error: CommandError) {
        CommandError::of_command(PREFIX, COMMAND, err)
    }
}

} // verus!

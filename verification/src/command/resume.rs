use crate::command::command::{Action, Command, CommandKind};
use crate::command::error::CommandError;
use crate::handler::{Handler, MessageLite};
use crate::text::equals;
use vstd::prelude::*;

verus! {

pub const PREFIX: &'static str = "!";

pub const COMMAND: &'static str = "resume";

pub const FULL_COMMAND: &'static str = "!resume";

pub const DESCRIPTION: &'static str = "Reusme paused song";

pub const USAGE_EXAMPLE: &'static str = "!resume";

/// Resumes the voice queue.
#[derive(Debug)]
pub struct Resume;

impl Command for Resume {
    open spec fn kind(&self) -> CommandKind {
        CommandKind::Resume
    }

    fn get_prefix(&self) -> (prefix: &'static str) {
        PREFIX
    }

    fn get_command(&self) -> (name: &'static str) {
        COMMAND
    }

    fn get_description(&self) -> (description: &'static str) {
        DESCRIPTION
    }

    fn get_usage_example(&self) -> (usage: &'static str) {
        USAGE_EXAMPLE
    }

    fn matches(&self, msg: &MessageLite) -> (matched: bool) {
        equals(msg.content.as_str(), FULL_COMMAND)
    }

    fn handle(&self, handler: &mut Handler, msg: &MessageLite) -> (outcome: Result<
        Action,
        CommandError,
    >) {
        Ok(Action::Resume)
    }

    fn command_error(&self, err: String) -> (error: CommandError) {
        CommandError::of_command(PREFIX, COMMAND, err)
    }
}

} // verus!

use crate::command::command::{Action, Command, CommandKind};
use crate::command::error::CommandError;
use crate::handler::{Handler, MessageLite};
use crate::text::equals;
use vstd::prelude::*;

verus! {

pub const PREFIX: &'static str = "!";

pub const COMMAND: &'static str = "queue";

pub const FULL_COMMAND: &'static str = "!queue";

pub const DESCRIPTION: &'static str = "Lists songs in the queue";

pub const USAGE_EXAMPLE: &'static str = "!queue";

/// A command for the voice queue that the registry does not hold. It stops
/// the queue, as `Stop` does.
#[derive(Debug)]
pub struct Queue;

impl Command for Queue {
    open spec fn kind(&self) -> CommandKind {
        CommandKind::Queue
    }

    fn get_prefix(&self) -> (prefix: &'static str) {
        PREFIX
    }

    fn get_command(&self) -> (name: &'static str) {
        COMMAND
    }

    fn get_description(&self) -> (description: &'static str) {
        DESCRIPTION
    }

    fn get_usage_example(&self) -> (usage: &'static str) {
        USAGE_EXAMPLE
    }

    fn matches(&self, msg: &MessageLite) -> (matched: bool) {
        equals(msg.content.as_str(), FULL_COMMAND)
    }

    fn handle(&self, handler: &mut Handler, msg: &MessageLite) -> (outcome: Result<
        Action,
        CommandError,
    >) {
        Ok(Action::Stop)
    }

    fn command_error(&self, err: String) -> (error: CommandError) {
        CommandError::of_command(PREFIX, COMMAND, err)
    }
}

} // verus!

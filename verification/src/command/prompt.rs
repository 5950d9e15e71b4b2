use crate::command::command::{Action, Command, CommandKind};
use crate::command::error::CommandError;
use crate::handler::{Handler, MessageLite};
use crate::text::{starts_with, strip_prefix, trim, trimmed};
use vstd::prelude::*;

verus! {

pub const PREFIX: &'static str = "!";

pub const COMMAND: &'static str = "gpt-prompt";

pub const FULL_COMMAND: &'static str = "!gpt-prompt";

pub const DESCRIPTION: &'static str = "Set the system prompt for ChatGPT new questions";

pub const USAGE_EXAMPLE: &'static str = "!gpt-prompt <prompt>";

/// What the bot answers once the prompt is set.
pub const REPLY: &'static str = "Prompt set";

/// The prompt that a message asks for: what follows the command, without
/// the whitespace around it.
pub open spec fn argument(content: Seq<char>) -> Seq<char> {
    trimmed(content.skip(FULL_COMMAND@.len() as int))
}

/// Sets the system prompt that heads every completion request.
#[derive(Debug)]
pub struct GptPrompt;

impl Command for GptPrompt {
    open spec fn kind(&self) -> CommandKind {
        CommandKind::GptPrompt
    }

    fn get_prefix(&self) -> (prefix: &'static str) {
        PREFIX
    }

    fn get_command(&self) -> (name: &'static str) {
        COMMAND
    }

    fn get_description(&self) -> (description: &'static str) {
        DESCRIPTION
    }

    fn get_usage_example(&self) -> (usage: &'static str) {
        USAGE_EXAMPLE
    }

    fn matches(&self, msg: &MessageLite) -> (matched: bool) {
        starts_with(msg.content.as_str(), FULL_COMMAND)
    }

    fn handle(&self, handler: &mut Handler, msg: &MessageLite) -> (outcome: Result<
        Action,
        CommandError,
    >) {
        let prompt = trim(strip_prefix(msg.content.as_str(), FULL_COMMAND).unwrap());
        handler.set_prompt(prompt.to_owned());
        Ok(Action::Say(REPLY.to_owned()))
    }

    fn command_error(&self, err: String) -> (error: CommandError) {
        CommandError::of_command(PREFIX, COMMAND, err)
    }
}

} // verus!

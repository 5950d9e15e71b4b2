use crate::command::command::{Action, ActionView, Command, CommandKind};
use crate::command::error::{CommandError, CommandErrorView};
use crate::command::reply::{system_turn, user_turn};
use crate::handler::{Handler, MessageLite};
use crate::ogpt::model::chat_completions::{turns_of, Message, Role};
use crate::text::{starts_with, strip_prefix, stripped, trim, trimmed};
use vstd::prelude::*;

verus! {

pub const PREFIX: &'static str = "!";

pub const COMMAND: &'static str = "gpt";

pub const FULL_COMMAND: &'static str = "!gpt";

pub const DESCRIPTION: &'static str = "Generates a response using ChatGPT";

pub const USAGE_EXAMPLE: &'static str = "!gpt <prompt>";

/// Why a message gave no question.
pub const NO_QUESTION: &'static str = "Failed to get a question from the message";

/// Why a completion gave no answer.
pub const NO_ANSWER: &'static str = "Failed to get a response from ChatGPT";

/// What a message that asks a question leads to: a request to complete the
/// system prompt and the question, which is what follows the command,
/// without the whitespace around it. A message that does not begin with the
/// command is an error.
pub open spec fn asked(system: Seq<char>, content: Seq<char>) -> Result<
    ActionView,
    CommandErrorView,
> {
    match stripped(content, FULL_COMMAND@) {
        Some(rest) => Ok(
            ActionView::Complete {
                command: CommandKind::Gpt,
                messages: seq![system_turn(system), user_turn(trimmed(rest))],
            },
        ),
        None => Err(CommandErrorView { command: COMMAND@, error_message: NO_QUESTION@ }),
    }
}

/// Opens a conversation: asks the completion service one question.
#[derive(Debug)]
pub struct Gpt;

impl Command for Gpt {
    open spec fn kind(&self) -> CommandKind {
        CommandKind::Gpt
    }

    fn get_prefix(&self) -> (prefix: &'static str) {
        PREFIX
    }

    fn get_command(&self) -> (name: &'static str) {
        COMMAND
    }

    fn get_description(&self) -> (description: &'static str) {
        DESCRIPTION
    }

    fn get_usage_example(&self) -> (usage: &'static str) {
        USAGE_EXAMPLE
    }

    fn matches(&self, msg: &MessageLite) -> (matched: bool) {
        starts_with(msg.content.as_str(), FULL_COMMAND)
    }

    fn handle(&self, handler: &mut Handler, msg: &MessageLite) -> (outcome: Result<
        Action,
        CommandError,
    >) {
        let question = match strip_prefix(msg.content.as_str(), FULL_COMMAND) {
            Some(question) => trim(question),
            None => {
                return Err(CommandError::new(COMMAND.to_owned(), NO_QUESTION.to_owned()));
            },
        };
        let mut messages: Vec<Message> = Vec::new();
        messages.push(Message { role: Role::System, content: handler.get_prompt() });
        messages.push(Message { role: Role::User, content: question.to_owned() });
        assert(turns_of(messages@) =~= seq![
            system_turn(handler@.prompt),
            user_turn(trimmed(stripped(msg@.content, FULL_COMMAND@).unwrap())),
        ]);
        Ok(Action::Complete { command: CommandKind::Gpt, messages })
    }

    fn command_error(&self, err: String) -> (error: CommandError) {
        CommandError::of_command(PREFIX, COMMAND, err)
    }
}

} // verus!

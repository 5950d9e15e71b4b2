use crate::command::command::{
    description_of, usage_of, Action, Command, CommandKind,
};
use crate::command::error::CommandError;
use crate::command::{get_commands_for_help, help_registry};
use crate::handler::{Handler, MessageLite};
use crate::text::equals;
use vstd::prelude::*;

verus! {

pub const PREFIX: &'static str = "!";

pub const COMMAND: &'static str = "help";

pub const FULL_COMMAND: &'static str = "!help";

pub const DESCRIPTION: &'static str = "Returns a list of commands";

pub const USAGE_EXAMPLE: &'static str = "!help";

/// The title of the help.
pub const TITLE: &'static str =
    "Help - If you are seeing this, this repo is setup to autodeploy on a push to main using a webhook";

/// The colour of the help, a light green.
pub const COLOUR: u32 = 0x90_EE_90;

/// The line of the help for one command: how it is written, then what it
/// does.
pub open spec fn help_line(kind: CommandKind) -> Seq<char> {
    "`"@ + usage_of(kind) + "` **- "@ + description_of(kind) + "**\n\n"@
}

/// The lines of the help for the commands, in their order.
pub open spec fn help_text(kinds: Seq<CommandKind>) -> Seq<char>
    decreases kinds.len(),
{
    if kinds.len() == 0 {
        Seq::empty()
    } else {
        help_text(kinds.drop_last()) + help_line(kinds.last())
    }
}

/// The lines of the help for all the commands it lists.
pub fn describe_commands() -> (text: String)
    ensures
        text@ == help_text(help_registry()),
{
    let commands = get_commands_for_help();
    let mut text = String::new();
    let mut i: usize = 0;
    while i < commands.len()
        invariant
            i <= commands.len(),
            commands@ == help_registry(),
            text@ == help_text(commands@.take(i as int)),
        decreases commands.len() - i,
    {
        let command = commands[i];
        let ghost before = text@;
        text.append("`");
        text.append(command.get_usage_example());
        text.append("` **- ");
        text.append(command.get_description());
        text.append("**\n\n");
        assert(text@ =~= before + help_line(command));
        assert(commands@.take(i + 1).drop_last() =~= commands@.take(i as int));
        i += 1;
    }
    assert(commands@.take(i as int) =~= commands@);
    text
}

/// Lists the commands.
#[derive(Debug)]
pub struct Help;

impl Command for Help {
    open spec fn kind(&self) -> CommandKind {
        CommandKind::Help
    }

    fn get_prefix(&self) -> (prefix: &'static str) {
        PREFIX
    }

    fn get_command(&self) -> (name: &'static str) {
        COMMAND
    }

    fn get_description(&self) -> (description: &'static str) {
        DESCRIPTION
    }

    fn get_usage_example(&self) -> (usage: &'static str) {
        USAGE_EXAMPLE
    }

    fn matches(&self, msg: &MessageLite) -> (matched: bool) {
        equals(msg.content.as_str(), FULL_COMMAND)
    }

    fn handle(&self, handler: &mut Handler, msg: &MessageLite) -> (outcome: Result<
        Action,
        CommandError,
    >) {
        Ok(
            Action::Embed {
                title: TITLE.to_owned(),
                description: describe_commands(),
                colour: COLOUR,
            },
        )
    }

    fn command_error(&self, err: String) -> (error: CommandError) {
        CommandError::of_command(PREFIX, COMMAND, err)
    }
}

} // verus!

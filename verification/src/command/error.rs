//! The error of a command.

use vstd::prelude::*;

verus! {

/// A command that could not do its work: which command, and why.
#[derive(Debug)]
pub struct CommandError {
    command: String,
    error_message: String,
}

/// A `CommandError` with its texts as sequences of characters.
pub struct CommandErrorView {
    pub command: Seq<char>,
    pub error_message: Seq<char>,
}

impl View for CommandError {
    type V = CommandErrorView;

    closed spec fn view(&self) -> CommandErrorView {
        CommandErrorView { command: self.command@, error_message: self.error_message@ }
    }
}

/// The text shown for an error: `Error while handling`, the command, a
/// dash, and the reason.
pub open spec fn error_text(error: CommandErrorView) -> Seq<char> {
    "Error while handling "@ + error.command + " - "@ + error.error_message
}

impl CommandError {
    /// An error of `command` with the given reason.
    pub fn new(command: String, error_message: String) -> (error: Self)
        ensures
            error@ == (CommandErrorView { command: command@, error_message: error_message@ }),
    {
        Self { command, error_message }
    }

    /// An error of the command that is written with `prefix` and `command`.
    pub fn of_command(prefix: &str, command: &str, error_message: String) -> (error: Self)
        ensures
            error@ == (CommandErrorView {
                command: prefix@ + command@,
                error_message: error_message@,
            }),
    {
        let mut name = prefix.to_owned();
        name.append(command);
        Self { command: name, error_message }
    }

    /// The text shown to the user for this error.
    pub fn to_string(&self) -> (text: String)
        ensures
            text@ == error_text(self@),
    {
        let mut text = "Error while handling ".to_owned();
        text.append(self.command.as_str());
        text.append(" - ");
        text.append(self.error_message.as_str());
        text
    }
}

} // verus!

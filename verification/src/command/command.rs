//! What a command is, the commands there are, and what each makes of a
//! message.

use crate::command::error::{CommandError, CommandErrorView};
use crate::command::gpt::{self, Gpt};
use crate::command::help::{self, Help};
use crate::command::join::{self, Join};
use crate::command::pause::{self, Pause};
use crate::command::ping::{self, Ping};
use crate::command::play::{self, Play};
use crate::command::prompt::{self, GptPrompt};
use crate::command::queue::{self, Queue};
use crate::command::reply::{self, GptReply};
use crate::command::resume::{self, Resume};
use crate::command::skip::{self, Skip};
use crate::command::stop::{self, Stop};
use crate::handler::{with_entries, with_prompt, Handler, HandlerView, MessageLite, MessageLiteView};
use crate::ogpt::model::chat_completions::{
    turns_of, ChatCompletionsResponse, Message, MessageView,
};
use crate::ogpt::utils::get_chat_message;
use vstd::prelude::*;

verus! {

/// The commands there are, each named once.
#[derive(Debug, Clone, Copy, PartialEq, Eq, Structural)]
pub enum CommandKind {
    Ping,
    Help,
    GptPrompt,
    Join,
    Play,
    Pause,
    Resume,
    Stop,
    Skip,
    Queue,
    Gpt,
    GptReply,
}

/// What is left to do for a message once its command has decided: the part
/// that speaks to the platform, the voice queue or the completion service.
#[derive(Debug, PartialEq, Eq)]
pub enum Action {
    /// Nothing is sent.
    Nothing,
    /// Send the text to the channel of the message.
    Say(String),
    /// Send an embed with this title, description and colour to the channel.
    Embed { title: String, description: String, colour: u32 },
    /// Ask for a completion of the messages and reply to the message with
    /// the answer, which `command.answer` reads from the response.
    Complete { command: CommandKind, messages: Vec<Message> },
    /// Join the voice channel of the author.
    Join,
    /// Join the voice channel of the author, then search for the text and
    /// add what is found to the queue.
    Play(String),
    /// Pause the queue.
    Pause,
    /// Resume the queue.
    Resume,
    /// Stop the queue and empty it.
    Stop,
    /// Skip to the next track of the queue.
    Skip,
}

/// An `Action` with its texts as sequences of characters.
pub enum ActionView {
    Nothing,
    Say(Seq<char>),
    Embed { title: Seq<char>, description: Seq<char>, colour: u32 },
    Complete { command: CommandKind, messages: Seq<MessageView> },
    Join,
    Play(Seq<char>),
    Pause,
    Resume,
    Stop,
    Skip,
}

impl View for Action {
    type V = ActionView;

    open spec fn view(&self) -> ActionView {
        match self {
            Action::Nothing => ActionView::Nothing,
            Action::Say(text) => ActionView::Say(text@),
            Action::Embed { title, description, colour } => ActionView::Embed {
                title: title@,
                description: description@,
                colour: *colour,
            },
            Action::Complete { command, messages } => ActionView::Complete {
                command: *command,
                messages: turns_of(messages@),
            },
            Action::Join => ActionView::Join,
            Action::Play(query) => ActionView::Play(query@),
            Action::Pause => ActionView::Pause,
            Action::Resume => ActionView::Resume,
            Action::Stop => ActionView::Stop,
            Action::Skip => ActionView::Skip,
        }
    }
}

/// What a command makes of a message: the action or the error, and the
/// shared state it leaves.
pub struct Handled {
    pub outcome: Result<ActionView, CommandErrorView>,
    pub state: HandlerView,
}

/// The outcome of a command with its texts as sequences of characters.
pub open spec fn outcome_view(outcome: Result<Action, CommandError>) -> Result<
    ActionView,
    CommandErrorView,
> {
    match outcome {
        Ok(action) => Ok(action@),
        Err(error) => Err(error@),
    }
}

/// The sign that every command name follows, empty for the catch-all.
pub open spec fn prefix_of(kind: CommandKind) -> Seq<char> {
    match kind {
        CommandKind::Ping => ping::PREFIX@,
        CommandKind::Help => help::PREFIX@,
        CommandKind::GptPrompt => prompt::PREFIX@,
        CommandKind::Join => join::PREFIX@,
        CommandKind::Play => play::PREFIX@,
        CommandKind::Pause => pause::PREFIX@,
        CommandKind::Resume => resume::PREFIX@,
        CommandKind::Stop => stop::PREFIX@,
        CommandKind::Skip => skip::PREFIX@,
        CommandKind::Queue => queue::PREFIX@,
        CommandKind::Gpt => gpt::PREFIX@,
        CommandKind::GptReply => reply::PREFIX@,
    }
}

/// The name of a command, empty for the catch-all.
pub open spec fn name_of(kind: CommandKind) -> Seq<char> {
    match kind {
        CommandKind::Ping => ping::COMMAND@,
        CommandKind::Help => help::COMMAND@,
        CommandKind::GptPrompt => prompt::COMMAND@,
        CommandKind::Join => join::COMMAND@,
        CommandKind::Play => play::COMMAND@,
        CommandKind::Pause => pause::COMMAND@,
        CommandKind::Resume => resume::COMMAND@,
        CommandKind::Stop => stop::COMMAND@,
        CommandKind::Skip => skip::COMMAND@,
        CommandKind::Queue => queue::COMMAND@,
        CommandKind::Gpt => gpt::COMMAND@,
        CommandKind::GptReply => reply::COMMAND@,
    }
}

/// The text that a message for a command begins with, empty for the
/// catch-all.
pub open spec fn full_command_of(kind: CommandKind) -> Seq<char> {
    match kind {
        CommandKind::Ping => ping::FULL_COMMAND@,
        CommandKind::Help => help::FULL_COMMAND@,
        CommandKind::GptPrompt => prompt::FULL_COMMAND@,
        CommandKind::Join => join::FULL_COMMAND@,
        CommandKind::Play => play::FULL_COMMAND@,
        CommandKind::Pause => pause::FULL_COMMAND@,
        CommandKind::Resume => resume::FULL_COMMAND@,
        CommandKind::Stop => stop::FULL_COMMAND@,
        CommandKind::Skip => skip::FULL_COMMAND@,
        CommandKind::Queue => queue::FULL_COMMAND@,
        CommandKind::Gpt => gpt::FULL_COMMAND@,
        CommandKind::GptReply => Seq::empty(),
    }
}

/// The text that a message for a command begins with is the sign of the
/// command and then its name.
pub proof fn lemma_full_command(kind: CommandKind)
    ensures
        full_command_of(kind) == prefix_of(kind) + name_of(kind),
{
    reveal_strlit("");
    reveal_strlit("!");
    match kind {
        CommandKind::Ping => {
            reveal_strlit("ping");
            reveal_strlit("!ping");
        },
        CommandKind::Help => {
            reveal_strlit("help");
            reveal_strlit("!help");
        },
        CommandKind::GptPrompt => {
            reveal_strlit("gpt-prompt");
            reveal_strlit("!gpt-prompt");
        },
        CommandKind::Join => {
            reveal_strlit("join");
            reveal_strlit("!join");
        },
        CommandKind::Play => {
            reveal_strlit("play");
            reveal_strlit("!play");
        },
        CommandKind::Pause => {
            reveal_strlit("pause");
            reveal_strlit("!pause");
        },
        CommandKind::Resume => {
            reveal_strlit("resume");
            reveal_strlit("!resume");
        },
        CommandKind::Stop => {
            reveal_strlit("stop");
            reveal_strlit("!stop");
        },
        CommandKind::Skip => {
            reveal_strlit("skip");
            reveal_strlit("!skip");
        },
        CommandKind::Queue => {
            reveal_strlit("queue");
            reveal_strlit("!queue");
        },
        CommandKind::Gpt => {
            reveal_strlit("gpt");
            reveal_strlit("!gpt");
        },
        CommandKind::GptReply => {},
    }
    assert(full_command_of(kind) =~= prefix_of(kind) + name_of(kind));
}

/// What a command says of itself in the help.
pub open spec fn description_of(kind: CommandKind) -> Seq<char> {
    match kind {
        CommandKind::Ping => ping::DESCRIPTION@,
        CommandKind::Help => help::DESCRIPTION@,
        CommandKind::GptPrompt => prompt::DESCRIPTION@,
        CommandKind::Join => join::DESCRIPTION@,
        CommandKind::Play => play::DESCRIPTION@,
        CommandKind::Pause => pause::DESCRIPTION@,
        CommandKind::Resume => resume::DESCRIPTION@,
        CommandKind::Stop => stop::DESCRIPTION@,
        CommandKind::Skip => skip::DESCRIPTION@,
        CommandKind::Queue => queue::DESCRIPTION@,
        CommandKind::Gpt => gpt::DESCRIPTION@,
        CommandKind::GptReply => reply::DESCRIPTION@,
    }
}

/// How a command is written, as the help shows it.
pub open spec fn usage_of(kind: CommandKind) -> Seq<char> {
    match kind {
        CommandKind::Ping => ping::USAGE_EXAMPLE@,
        CommandKind::Help => help::USAGE_EXAMPLE@,
        CommandKind::GptPrompt => prompt::USAGE_EXAMPLE@,
        CommandKind::Join => join::USAGE_EXAMPLE@,
        CommandKind::Play => play::USAGE_EXAMPLE@,
        CommandKind::Pause => pause::USAGE_EXAMPLE@,
        CommandKind::Resume => resume::USAGE_EXAMPLE@,
        CommandKind::Stop => stop::USAGE_EXAMPLE@,
        CommandKind::Skip => skip::USAGE_EXAMPLE@,
        CommandKind::Queue => queue::USAGE_EXAMPLE@,
        CommandKind::Gpt => gpt::USAGE_EXAMPLE@,
        CommandKind::GptReply => reply::USAGE_EXAMPLE@,
    }
}

/// The predicate of a command: whether a message is one for it. The utility
/// and queue commands ask for their exact text, the commands that take an
/// argument for a text that begins with theirs, and the catch-all for any
/// message that is not the bot's own.
pub open spec fn matches_spec(kind: CommandKind, msg: MessageLiteView) -> bool {
    match kind {
        CommandKind::Ping
        | CommandKind::Help
        | CommandKind::Pause
        | CommandKind::Resume
        | CommandKind::Stop
        | CommandKind::Skip
        | CommandKind::Queue => msg.content == full_command_of(kind),
        CommandKind::GptPrompt
        | CommandKind::Join
        | CommandKind::Play
        | CommandKind::Gpt => full_command_of(kind).is_prefix_of(msg.content),
        CommandKind::GptReply => !msg.is_own,
    }
}

/// The messages a command can be handed. The two commands that read their
/// argument without a test take only messages that begin with their text.
pub open spec fn accepts(kind: CommandKind, msg: MessageLiteView) -> bool {
    match kind {
        CommandKind::GptPrompt => prompt::FULL_COMMAND@.is_prefix_of(msg.content),
        CommandKind::Play => play::FULL_COMMAND@.is_prefix_of(msg.content),
        _ => true,
    }
}

/// What each command makes of a message in a given state.
pub open spec fn handled(kind: CommandKind, state: HandlerView, msg: MessageLiteView) -> Handled {
    match kind {
        CommandKind::Ping => Handled { outcome: Ok(ActionView::Say(ping::REPLY@)), state },
        CommandKind::Help => Handled {
            outcome: Ok(
                ActionView::Embed {
                    title: help::TITLE@,
                    description: help::help_text(crate::command::help_registry()),
                    colour: help::COLOUR,
                },
            ),
            state,
        },
        CommandKind::GptPrompt => Handled {
            outcome: Ok(ActionView::Say(prompt::REPLY@)),
            state: with_prompt(state, prompt::argument(msg.content)),
        },
        CommandKind::Join => Handled { outcome: Ok(ActionView::Join), state },
        CommandKind::Play => Handled {
            outcome: Ok(ActionView::Play(play::query(msg.content))),
            state,
        },
        CommandKind::Pause => Handled { outcome: Ok(ActionView::Pause), state },
        CommandKind::Resume => Handled { outcome: Ok(ActionView::Resume), state },
        CommandKind::Stop => Handled { outcome: Ok(ActionView::Stop), state },
        CommandKind::Skip => Handled { outcome: Ok(ActionView::Skip), state },
        CommandKind::Queue => Handled { outcome: Ok(ActionView::Stop), state },
        CommandKind::Gpt => Handled { outcome: gpt::asked(state.prompt, msg.content), state },
        CommandKind::GptReply => Handled {
            outcome: Ok(
                match reply::thread_prompt(state, msg) {
                    Some(messages) => ActionView::Complete {
                        command: CommandKind::GptReply,
                        messages,
                    },
                    None => ActionView::Nothing,
                },
            ),
            state: with_entries(
                state,
                reply::walk(state.entries, msg, false, state.capacity).entries,
            ),
        },
    }
}

/// The error of a command whose completion came back without a candidate.
pub open spec fn unanswered(kind: CommandKind) -> CommandErrorView {
    match kind {
        CommandKind::Gpt => CommandErrorView {
            command: gpt::COMMAND@,
            error_message: gpt::NO_ANSWER@,
        },
        _ => CommandErrorView {
            command: prefix_of(kind) + name_of(kind),
            error_message: reply::NO_ANSWER@,
        },
    }
}

impl CommandKind {
    /// The reply to send for a completion that this command asked for: the
    /// text of the first candidate, or an error where the response holds no
    /// candidate.
    pub fn answer(&self, response: &ChatCompletionsResponse) -> (reply: Result<
        String,
        CommandError,
    >)
        ensures
            match reply {
                Ok(text) => response.choices@.len() > 0
                    && text@ == response.choices@[0].message.content@,
                Err(error) => response.choices@.len() == 0 && error@ == unanswered(*self),
            },
    {
        match get_chat_message(response, 0) {
            Some(text) => Ok(text.to_owned()),
            None => match self {
                CommandKind::Gpt => Err(
                    CommandError::new(gpt::COMMAND.to_owned(), gpt::NO_ANSWER.to_owned()),
                ),
                _ => Err(self.command_error(reply::NO_ANSWER.to_owned())),
            },
        }
    }
}

/// What every command offers: its texts for the help, its predicate, and
/// what it makes of a message.
pub trait Command {
    /// The command that this is.
    spec fn kind(&self) -> CommandKind;

    /// The sign that the name of the command follows.
    fn get_prefix(&self) -> (prefix: &'static str)
        ensures
            prefix@ == prefix_of(self.kind()),
    ;

    /// The name of the command.
    fn get_command(&self) -> (name: &'static str)
        ensures
            name@ == name_of(self.kind()),
    ;

    /// What the command does, in a line for the help.
    fn get_description(&self) -> (description: &'static str)
        ensures
            description@ == description_of(self.kind()),
    ;

    /// How the command is written.
    fn get_usage_example(&self) -> (usage: &'static str)
        ensures
            usage@ == usage_of(self.kind()),
    ;

    /// Whether the message is one for this command. Reads the message only.
    fn matches(&self, msg: &MessageLite) -> (matched: bool)
        ensures
            matched == matches_spec(self.kind(), msg@),
    ;

    /// Decides what the message leads to, and changes the shared state where
    /// the command says so. What is then sent, played or asked of the
    /// completion service is the returned action.
    fn handle(&self, handler: &mut Handler, msg: &MessageLite) -> (outcome: Result<
        Action,
        CommandError,
    >)
        requires
            old(handler).wf(),
            accepts(self.kind(), msg@),
        ensures
            final(handler).wf(),
            handled(self.kind(), old(handler)@, msg@) == (Handled {
                outcome: outcome_view(outcome),
                state: final(handler)@,
            }),
    ;

    /// An error of this command with the given reason.
    fn command_error(&self, err: String) -> (error: CommandError)
        ensures
            error@ == (CommandErrorView {
                command: prefix_of(self.kind()) + name_of(self.kind()),
                error_message: err@,
            }),
    ;
}

impl Command for CommandKind {
    open spec fn kind(&self) -> CommandKind {
        *self
    }

    fn get_prefix(&self) -> (prefix: &'static str) {
        match self {
            CommandKind::Ping => Ping.get_prefix(),
            CommandKind::Help => Help.get_prefix(),
            CommandKind::GptPrompt => GptPrompt.get_prefix(),
            CommandKind::Join => Join.get_prefix(),
            CommandKind::Play => Play.get_prefix(),
            CommandKind::Pause => Pause.get_prefix(),
            CommandKind::Resume => Resume.get_prefix(),
            CommandKind::Stop => Stop.get_prefix(),
            CommandKind::Skip => Skip.get_prefix(),
            CommandKind::Queue => Queue.get_prefix(),
            CommandKind::Gpt => Gpt.get_prefix(),
            CommandKind::GptReply => GptReply.get_prefix(),
        }
    }

    fn get_command(&self) -> (name: &'static str) {
        match self {
            CommandKind::Ping => Ping.get_command(),
            CommandKind::Help => Help.get_command(),
            CommandKind::GptPrompt => GptPrompt.get_command(),
            CommandKind::Join => Join.get_command(),
            CommandKind::Play => Play.get_command(),
            CommandKind::Pause => Pause.get_command(),
            CommandKind::Resume => Resume.get_command(),
            CommandKind::Stop => Stop.get_command(),
            CommandKind::Skip => Skip.get_command(),
            CommandKind::Queue => Queue.get_command(),
            CommandKind::Gpt => Gpt.get_command(),
            CommandKind::GptReply => GptReply.get_command(),
        }
    }

    fn get_description(&self) -> (description: &'static str) {
        match self {
            CommandKind::Ping => Ping.get_description(),
            CommandKind::Help => Help.get_description(),
            CommandKind::GptPrompt => GptPrompt.get_description(),
            CommandKind::Join => Join.get_description(),
            CommandKind::Play => Play.get_description(),
            CommandKind::Pause => Pause.get_description(),
            CommandKind::Resume => Resume.get_description(),
            CommandKind::Stop => Stop.get_description(),
            CommandKind::Skip => Skip.get_description(),
            CommandKind::Queue => Queue.get_description(),
            CommandKind::Gpt => Gpt.get_description(),
            CommandKind::GptReply => GptReply.get_description(),
        }
    }

    fn get_usage_example(&self) -> (usage: &'static str) {
        match self {
            CommandKind::Ping => Ping.get_usage_example(),
            CommandKind::Help => Help.get_usage_example(),
            CommandKind::GptPrompt => GptPrompt.get_usage_example(),
            CommandKind::Join => Join.get_usage_example(),
            CommandKind::Play => Play.get_usage_example(),
            CommandKind::Pause => Pause.get_usage_example(),
            CommandKind::Resume => Resume.get_usage_example(),
            CommandKind::Stop => Stop.get_usage_example(),
            CommandKind::Skip => Skip.get_usage_example(),
            CommandKind::Queue => Queue.get_usage_example(),
            CommandKind::Gpt => Gpt.get_usage_example(),
            CommandKind::GptReply => GptReply.get_usage_example(),
        }
    }

    fn matches(&self, msg: &MessageLite) -> (matched: bool) {
        match self {
            CommandKind::Ping => Ping.matches(msg),
            CommandKind::Help => Help.matches(msg),
            CommandKind::GptPrompt => GptPrompt.matches(msg),
            CommandKind::Join => Join.matches(msg),
            CommandKind::Play => Play.matches(msg),
            CommandKind::Pause => Pause.matches(msg),
            CommandKind::Resume => Resume.matches(msg),
            CommandKind::Stop => Stop.matches(msg),
            CommandKind::Skip => Skip.matches(msg),
            CommandKind::Queue => Queue.matches(msg),
            CommandKind::Gpt => Gpt.matches(msg),
            CommandKind::GptReply => GptReply.matches(msg),
        }
    }

    fn handle(&self, handler: &mut Handler, msg: &MessageLite) -> (outcome: Result<
        Action,
        CommandError,
    >) {
        match self {
            CommandKind::Ping => Ping.handle(handler, msg),
            CommandKind::Help => Help.handle(handler, msg),
            CommandKind::GptPrompt => GptPrompt.handle(handler, msg),
            CommandKind::Join => Join.handle(handler, msg),
            CommandKind::Play => Play.handle(handler, msg),
            CommandKind::Pause => Pause.handle(handler, msg),
            CommandKind::Resume => Resume.handle(handler, msg),
            CommandKind::Stop => Stop.handle(handler, msg),
            CommandKind::Skip => Skip.handle(handler, msg),
            CommandKind::Queue => Queue.handle(handler, msg),
            CommandKind::Gpt => Gpt.handle(handler, msg),
            CommandKind::GptReply => GptReply.handle(handler, msg),
        }
    }

    fn command_error(&self, err: String) -> (error: CommandError) {
        match self {
            CommandKind::Ping => Ping.command_error(err),
            CommandKind::Help => Help.command_error(err),
            CommandKind::GptPrompt => GptPrompt.command_error(err),
            CommandKind::Join => Join.command_error(err),
            CommandKind::Play => Play.command_error(err),
            CommandKind::Pause => Pause.command_error(err),
            CommandKind::Resume => Resume.command_error(err),
            CommandKind::Stop => Stop.command_error(err),
            CommandKind::Skip => Skip.command_error(err),
            CommandKind::Queue => Queue.command_error(err),
            CommandKind::Gpt => Gpt.command_error(err),
            CommandKind::GptReply => GptReply.command_error(err),
        }
    }
}

} // verus!

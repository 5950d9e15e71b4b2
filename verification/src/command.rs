//! The commands of the bot, in the order in which a message is tried
//! against them.

pub mod command;
pub mod error;
pub mod gpt;
pub mod help;
pub mod join;
pub mod pause;
pub mod ping;
pub mod play;
pub mod prompt;
pub mod queue;
pub mod reply;
pub mod resume;
pub mod skip;
pub mod stop;

pub use command::{Action, Command, CommandKind};
pub use error::CommandError;

use crate::command::command::{accepts, matches_spec};
use crate::handler::{MessageLite, MessageLiteView};
use vstd::prelude::*;

verus! {

/// The commands in the order in which a message is tried against them. The
/// catch-all stands last: it takes nearly every message.
pub open spec fn registry() -> Seq<CommandKind> {
    seq![
        CommandKind::Ping,
        CommandKind::Help,
        CommandKind::GptPrompt,
        CommandKind::Join,
        CommandKind::Play,
        CommandKind::Pause,
        CommandKind::Resume,
        CommandKind::Stop,
        CommandKind::Skip,
        CommandKind::Gpt,
        CommandKind::GptReply,
    ]
}

/// The commands in the order in which the help lists them.
pub open spec fn help_registry() -> Seq<CommandKind> {
    seq![
        CommandKind::Help,
        CommandKind::Ping,
        CommandKind::GptPrompt,
        CommandKind::Gpt,
        CommandKind::GptReply,
        CommandKind::Join,
        CommandKind::Play,
        CommandKind::Pause,
        CommandKind::Resume,
        CommandKind::Stop,
        CommandKind::Skip,
    ]
}

/// The first of `kinds` whose predicate holds of the message.
pub open spec fn first_match(kinds: Seq<CommandKind>, msg: MessageLiteView) -> Option<CommandKind>
    decreases kinds.len(),
{
    if kinds.len() == 0 {
        None
    } else if matches_spec(kinds.first(), msg) {
        Some(kinds.first())
    } else {
        first_match(kinds.drop_first(), msg)
    }
}

/// The command that a message is routed to.
pub open spec fn selected(msg: MessageLiteView) -> Option<CommandKind> {
    first_match(registry(), msg)
}

/// The registry: the commands in the order in which a message is tried
/// against them.
pub fn get_commands() -> (commands: Vec<CommandKind>)
    ensures
        commands@ == registry(),
{
    let commands = vec![
        CommandKind::Ping,
        CommandKind::Help,
        CommandKind::GptPrompt,
        CommandKind::Join,
        CommandKind::Play,
        CommandKind::Pause,
        CommandKind::Resume,
        CommandKind::Stop,
        CommandKind::Skip,
        CommandKind::Gpt,
        CommandKind::GptReply,
    ];
    assert(commands@ =~= registry());
    commands
}

/// The commands in the order in which the help lists them.
pub fn get_commands_for_help() -> (commands: Vec<CommandKind>)
    ensures
        commands@ == help_registry(),
{
    let commands = vec![
        CommandKind::Help,
        CommandKind::Ping,
        CommandKind::GptPrompt,
        CommandKind::Gpt,
        CommandKind::GptReply,
        CommandKind::Join,
        CommandKind::Play,
        CommandKind::Pause,
        CommandKind::Resume,
        CommandKind::Stop,
        CommandKind::Skip,
    ];
    assert(commands@ =~= help_registry());
    commands
}

/// Routes a message: the first command of the registry whose predicate holds
/// of it, or `None` where none does.
pub fn select(msg: &MessageLite) -> (chosen: Option<CommandKind>)
    ensures
        chosen == selected(msg@),
{
    let commands = get_commands();
    let mut i: usize = 0;
    assert(commands@.skip(0) =~= commands@);
    while i < commands.len()
        invariant
            i <= commands.len(),
            commands@ == registry(),
            selected(msg@) == first_match(commands@.skip(i as int), msg@),
        decreases commands.len() - i,
    {
        let command = commands[i];
        if command.matches(msg) {
            return Some(command);
        }
        assert(commands@.skip(i as int).drop_first() =~= commands@.skip(i + 1));
        i += 1;
    }
    None
}

/// First match wins. The command that `first_match` gives stands in the
/// list, takes the message, and no command before it does; it gives none
/// only where no command of the list takes the message.
pub proof fn lemma_first_match(kinds: Seq<CommandKind>, msg: MessageLiteView)
    ensures
        match first_match(kinds, msg) {
            Some(kind) => exists|i: int|
                0 <= i < kinds.len() && #[trigger] kinds[i] == kind && matches_spec(kind, msg)
                    && forall|j: int| 0 <= j < i ==> !matches_spec(#[trigger] kinds[j], msg),
            None => forall|j: int| 0 <= j < kinds.len() ==> !matches_spec(#[trigger] kinds[j], msg),
        },
    decreases kinds.len(),
{
    if kinds.len() > 0 {
        if matches_spec(kinds.first(), msg) {
            assert(kinds[0] == kinds.first());
        } else {
            let rest = kinds.drop_first();
            lemma_first_match(rest, msg);
            assert forall|j: int| 0 <= j < rest.len() implies #[trigger] rest[j] == kinds[j + 1] by {}
            match first_match(rest, msg) {
                Some(kind) => {
                    let i = choose|i: int|
                        0 <= i < rest.len() && #[trigger] rest[i] == kind && matches_spec(kind, msg)
                            && forall|j: int|
                            0 <= j < i ==> !matches_spec(#[trigger] rest[j], msg);
                    assert(kinds[i + 1] == kind);
                    assert forall|j: int| 0 <= j < i + 1 implies !matches_spec(
                        #[trigger] kinds[j],
                        msg,
                    ) by {
                        if j > 0 {
                            assert(rest[j - 1] == kinds[j]);
                        }
                    }
                },
                None => {
                    assert forall|j: int| 0 <= j < kinds.len() implies !matches_spec(
                        #[trigger] kinds[j],
                        msg,
                    ) by {
                        if j > 0 {
                            assert(rest[j - 1] == kinds[j]);
                        }
                    }
                },
            }
        }
    }
}

/// The command at place `i` is the one chosen where it takes the message and
/// no command before it does.
pub proof fn lemma_first_match_at(kinds: Seq<CommandKind>, msg: MessageLiteView, i: int)
    requires
        0 <= i < kinds.len(),
        matches_spec(kinds[i], msg),
        forall|j: int| 0 <= j < i ==> !matches_spec(#[trigger] kinds[j], msg),
    ensures
        first_match(kinds, msg) == Some(kinds[i]),
    decreases i,
{
    if i > 0 {
        let rest = kinds.drop_first();
        assert(!matches_spec(kinds[0], msg));
        assert forall|j: int| 0 <= j < i - 1 implies !matches_spec(#[trigger] rest[j], msg) by {
            assert(rest[j] == kinds[j + 1]);
        }
        assert(rest[i - 1] == kinds[i]);
        lemma_first_match_at(rest, msg, i - 1);
    }
}

/// The command a message is routed to takes the message, and can be handed
/// it.
pub proof fn lemma_selected_matches(msg: MessageLiteView)
    ensures
        selected(msg) matches Some(kind) ==> matches_spec(kind, msg) && accepts(kind, msg),
{
    lemma_first_match(registry(), msg);
}

/// Command priority. A message that begins with the text of the prompt
/// command is routed to that command, whether or not the catch-all would take
/// it too.
pub proof fn lemma_prompt_command_wins(msg: MessageLiteView)
    requires
        matches_spec(CommandKind::GptPrompt, msg),
    ensures
        selected(msg) == Some(CommandKind::GptPrompt),
{
    reveal_strlit("!gpt-prompt");
    reveal_strlit("!ping");
    reveal_strlit("!help");
    assert(msg.content.len() >= 11);
    assert(registry()[0] == CommandKind::Ping);
    assert(registry()[1] == CommandKind::Help);
    assert(registry()[2] == CommandKind::GptPrompt);
    lemma_first_match_at(registry(), msg, 2);
}

/// The catch-all stands last in the registry and nowhere else, and every
/// message that is not the bot's own is routed to some command.
pub proof fn lemma_catch_all_last(msg: MessageLiteView)
    ensures
        registry().last() == CommandKind::GptReply,
        forall|i: int|
            0 <= i < registry().len() - 1 ==> #[trigger] registry()[i] != CommandKind::GptReply,
        !msg.is_own ==> selected(msg) is Some,
{
    lemma_first_match(registry(), msg);
    assert(registry()[10] == CommandKind::GptReply);
}

} // verus!

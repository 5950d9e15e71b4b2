//! The errors of the bot and the messages shown for them.

use crate::command::error::{error_text, CommandError, CommandErrorView};
use crate::ogpt::error::{service_error_text, OGptError, OGptErrorView};
use vstd::prelude::*;
use vstd::std_specs::convert::FromSpecImpl;

verus! {

/// Everything that can go wrong while the bot runs. An error of a command
/// is the command's own; of the errors of the platform, the environment and
/// the voice side the bot keeps what they said.
#[derive(Debug)]
pub enum ServerError {
    CommandError(CommandError),
    OGptError(OGptError),
    SerenityError(String),
    EnvVarError(String),
    SongbirdInputError(String),
    VoiceChannelJoinError(String),
}

/// A `ServerError` with its texts as sequences of characters.
pub enum ServerErrorView {
    CommandError(CommandErrorView),
    OGptError(OGptErrorView),
    SerenityError(Seq<char>),
    EnvVarError(Seq<char>),
    SongbirdInputError(Seq<char>),
    VoiceChannelJoinError(Seq<char>),
}

impl View for ServerError {
    type V = ServerErrorView;

    open spec fn view(&self) -> ServerErrorView {
        match self {
            ServerError::CommandError(error) => ServerErrorView::CommandError(error@),
            ServerError::OGptError(error) => ServerErrorView::OGptError(error@),
            ServerError::SerenityError(text) => ServerErrorView::SerenityError(text@),
            ServerError::EnvVarError(text) => ServerErrorView::EnvVarError(text@),
            ServerError::SongbirdInputError(text) => ServerErrorView::SongbirdInputError(text@),
            ServerError::VoiceChannelJoinError(text) => ServerErrorView::VoiceChannelJoinError(
                text@,
            ),
        }
    }
}

/// The message that is shown in the channel for an error: where the error
/// came from, then what it says.
pub open spec fn visible_text(error: ServerErrorView) -> Seq<char> {
    match error {
        ServerErrorView::CommandError(error) => "Command error: "@ + error_text(error),
        ServerErrorView::OGptError(error) => "OGpt error: "@ + service_error_text(error),
        ServerErrorView::SerenityError(text) => "Serenity error: "@ + text,
        ServerErrorView::EnvVarError(text) => "Env var error: "@ + text,
        ServerErrorView::SongbirdInputError(text) => "Songbird input error: "@ + text,
        ServerErrorView::VoiceChannelJoinError(text) => "Voice channel join error: "@ + text,
    }
}

impl ServerError {
    /// The message to show in the channel for this error.
    pub fn to_string(&self) -> (text: String)
        ensures
            text@ == visible_text(self@),
    {
        match self {
            ServerError::CommandError(error) => {
                let mut text = "Command error: ".to_owned();
                text.append(error.to_string().as_str());
                text
            },
            ServerError::OGptError(error) => {
                let mut text = "OGpt error: ".to_owned();
                text.append(error.to_string().as_str());
                text
            },
            ServerError::SerenityError(cause) => {
                let mut text = "Serenity error: ".to_owned();
                text.append(cause.as_str());
                text
            },
            ServerError::EnvVarError(cause) => {
                let mut text = "Env var error: ".to_owned();
                text.append(cause.as_str());
                text
            },
            ServerError::SongbirdInputError(cause) => {
                let mut text = "Songbird input error: ".to_owned();
                text.append(cause.as_str());
                text
            },
            ServerError::VoiceChannelJoinError(cause) => {
                let mut text = "Voice channel join error: ".to_owned();
                text.append(cause.as_str());
                text
            },
        }
    }
}

impl From<CommandError> for ServerError {
    fn from(err: CommandError) -> (error: ServerError) {
        ServerError::CommandError(err)
    }
}

impl FromSpecImpl<CommandError> for ServerError {
    open spec fn obeys_from_spec() -> bool {
        true
    }

    open spec fn from_spec(err: CommandError) -> ServerError {
        ServerError::CommandError(err)
    }
}

impl From<OGptError> for ServerError {
    fn from(err: OGptError) -> (error: ServerError) {
        ServerError::OGptError(err)
    }
}

impl FromSpecImpl<OGptError> for ServerError {
    open spec fn obeys_from_spec() -> bool {
        true
    }

    open spec fn from_spec(err: OGptError) -> ServerError {
        ServerError::OGptError(err)
    }
}

} // verus!

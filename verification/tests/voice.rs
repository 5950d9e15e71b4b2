use gpt_bot::command::join::{after_backoff, join_channel, Idle, Join, FIRST_BACKOFF_SECONDS};
use gpt_bot::command::pause::Pause;
use gpt_bot::command::play::Play;
use gpt_bot::command::queue::Queue;
use gpt_bot::command::resume::Resume;
use gpt_bot::command::skip::Skip;
use gpt_bot::command::stop::Stop;
use gpt_bot::command::{Action, Command, CommandKind};
use gpt_bot::handler::{Handler, MessageLite};

fn said(text: &str) -> MessageLite {
    MessageLite::from_msg(1, None, text, "ann", false)
}

#[test]
fn join_needs_guild_and_voice_channel() {
    assert_eq!(join_channel(&Join, Some(5), Some(8)).unwrap(), (5, 8));
}

#[test]
fn join_without_voice_channel_is_an_error() {
    let error = join_channel(&Join, Some(5), None).unwrap_err();
    assert_eq!(
        error.to_string(),
        "Error while handling !join - You must be in a voice channel to use this command"
    );
}

#[test]
fn join_without_guild_is_an_error() {
    let error = join_channel(&Join, None, Some(8)).unwrap_err();
    assert_eq!(error.to_string(), "Error while handling !join - Failed to get channel details");
    let error = join_channel(&Play, None, None).unwrap_err();
    assert_eq!(error.to_string(), "Error while handling !play - Failed to get channel details");
}

#[test]
fn backoff_doubles_while_the_queue_plays() {
    assert_eq!(FIRST_BACKOFF_SECONDS, 30);
    assert_eq!(after_backoff(false, 30), Idle::Wait(60));
    assert_eq!(after_backoff(false, 60), Idle::Wait(120));
    assert_eq!(after_backoff(false, 0), Idle::Wait(0));
    assert_eq!(after_backoff(false, u64::MAX / 2), Idle::Wait(u64::MAX - 1));
}

#[test]
fn backoff_ends_when_the_queue_is_empty() {
    assert_eq!(after_backoff(true, 30), Idle::Leave);
    assert_eq!(after_backoff(true, 960), Idle::Leave);
    assert_eq!(after_backoff(true, u64::MAX), Idle::Leave);
}

#[test]
fn voice_commands_lead_to_their_actions() {
    let mut handler = Handler::new(4, None);
    assert_eq!(handler.message(&said("!join")).unwrap(), Action::Join);
    assert_eq!(handler.message(&said("!pause")).unwrap(), Action::Pause);
    assert_eq!(handler.message(&said("!resume")).unwrap(), Action::Resume);
    assert_eq!(handler.message(&said("!stop")).unwrap(), Action::Stop);
    assert_eq!(handler.message(&said("!skip")).unwrap(), Action::Skip);
    assert_eq!(Pause.handle(&mut handler, &said("!pause")).unwrap(), Action::Pause);
    assert_eq!(Resume.handle(&mut handler, &said("!resume")).unwrap(), Action::Resume);
    assert_eq!(Stop.handle(&mut handler, &said("!stop")).unwrap(), Action::Stop);
    assert_eq!(Skip.handle(&mut handler, &said("!skip")).unwrap(), Action::Skip);
    assert_eq!(Join.handle(&mut handler, &said("!join")).unwrap(), Action::Join);
    assert_eq!(handler.cached_count(), 0);
}

#[test]
fn queue_command_stops_the_queue() {
    let mut handler = Handler::new(4, None);
    assert_eq!(Queue.handle(&mut handler, &said("!queue")).unwrap(), Action::Stop);
    assert_eq!(CommandKind::Queue.handle(&mut handler, &said("!queue")).unwrap(), Action::Stop);
}

#[test]
fn play_command_searches_for_the_trimmed_argument() {
    let mut handler = Handler::new(4, None);
    let outcome = handler.message(&said("!play   never gonna give you up \n")).unwrap();
    assert_eq!(outcome, Action::Play("never gonna give you up".to_string()));
    assert_eq!(Play.handle(&mut handler, &said("!play")).unwrap(), Action::Play(String::new()));
}

#[test]
fn play_names_what_is_missing() {
    assert_eq!(Play.call_guild(Some(4), true, true).unwrap(), 4);
    assert_eq!(
        Play.call_guild(None, true, true).unwrap_err().to_string(),
        "Error while handling !play - This command can only be used in a guild"
    );
    assert_eq!(
        Play.call_guild(None, false, false).unwrap_err().to_string(),
        "Error while handling !play - This command can only be used in a guild"
    );
    assert_eq!(
        Play.call_guild(Some(4), false, true).unwrap_err().to_string(),
        "Error while handling !play - Songbird not initialized"
    );
    assert_eq!(
        Play.call_guild(Some(4), false, false).unwrap_err().to_string(),
        "Error while handling !play - Songbird not initialized"
    );
    assert_eq!(
        Play.call_guild(Some(4), true, false).unwrap_err().to_string(),
        "Error while handling !play - No handler found"
    );
}

#[test]
fn play_tells_what_was_queued() {
    assert_eq!(
        Play.queued(Some("https://example.org/track")).unwrap(),
        "Added to the queue https://example.org/track"
    );
    assert_eq!(
        Play.queued(None).unwrap_err().to_string(),
        "Error while handling !play - No source url found"
    );
}

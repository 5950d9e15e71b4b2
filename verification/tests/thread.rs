use gpt_bot::command::gpt::Gpt;
use gpt_bot::command::reply::{reconstruct, GptReply};
use gpt_bot::command::{Action, Command, CommandKind};
use gpt_bot::handler::{Handler, MessageLite};
use gpt_bot::ogpt::model::chat_completions::{Message, Role};

fn human(id: u64, reply_to: Option<u64>, text: &str) -> MessageLite {
    MessageLite::from_msg(id, reply_to, text, "ann", false)
}

fn bot(id: u64, reply_to: Option<u64>, text: &str) -> MessageLite {
    MessageLite::from_msg(id, reply_to, text, "bot", true)
}

fn turn(role: Role, text: &str) -> Message {
    Message { role, content: text.to_string() }
}

fn is_cached(handler: &mut Handler, id: u64) -> bool {
    handler.get_referenced_from_cache(&human(0, Some(id), "probe")).is_some()
}

const DEFAULT: &str = "You are a bot that answers questions accurately.";

#[test]
fn thread_is_rebuilt_from_the_question_on() {
    let mut handler = Handler::new(350, None);
    handler.cache_message(human(1, None, "!gpt hello"));
    handler.cache_message(bot(2, Some(1), "hi there"));
    let m3 = human(3, Some(2), "tell me more");
    let prompt = reconstruct(&mut handler, &m3).unwrap();
    assert_eq!(
        prompt,
        vec![
            turn(Role::System, DEFAULT),
            turn(Role::User, "hello"),
            turn(Role::Assistant, "hi there"),
            turn(Role::User, "tell me more"),
        ]
    );
}

#[test]
fn reply_in_a_thread_asks_for_a_completion() {
    let mut handler = Handler::new(350, None);
    handler.cache_message(human(1, None, "!gpt hello"));
    handler.cache_message(bot(2, Some(1), "hi there"));
    let m3 = human(3, Some(2), "tell me more");
    let outcome = handler.message(&m3).unwrap();
    assert_eq!(
        outcome,
        Action::Complete {
            command: CommandKind::GptReply,
            messages: vec![
                turn(Role::System, DEFAULT),
                turn(Role::User, "hello"),
                turn(Role::Assistant, "hi there"),
                turn(Role::User, "tell me more"),
            ],
        }
    );
    assert_eq!(handler.cached_count(), 2);
}

#[test]
fn longer_thread_keeps_its_order() {
    let mut handler = Handler::new(8, Some("Be brief.".to_string()));
    handler.cache_message(human(1, None, "!gpt one"));
    handler.cache_message(bot(2, Some(1), "two"));
    handler.cache_message(human(3, Some(2), "three"));
    handler.cache_message(bot(4, Some(3), "four"));
    let prompt = reconstruct(&mut handler, &human(5, Some(4), "five")).unwrap();
    assert_eq!(
        prompt,
        vec![
            turn(Role::System, "Be brief."),
            turn(Role::User, "one"),
            turn(Role::Assistant, "two"),
            turn(Role::User, "three"),
            turn(Role::Assistant, "four"),
            turn(Role::User, "five"),
        ]
    );
}

#[test]
fn broken_chain_gives_no_prompt() {
    let mut handler = Handler::new(350, None);
    handler.cache_message(human(1, None, "!gpt hello"));
    handler.cache_message(human(2, Some(1), "hi there"));
    let m3 = human(3, Some(2), "tell me more");
    assert_eq!(reconstruct(&mut handler, &m3), None);
    assert_eq!(handler.message(&m3).unwrap(), Action::Nothing);
}

#[test]
fn chain_that_starts_with_the_bot_gives_no_prompt() {
    let mut handler = Handler::new(350, None);
    handler.cache_message(human(1, None, "!gpt hello"));
    assert_eq!(reconstruct(&mut handler, &bot(2, Some(1), "hi there")), None);
}

#[test]
fn evicted_ancestor_gives_no_prompt_and_no_error() {
    let mut handler = Handler::new(2, None);
    handler.cache_message(human(1, None, "!gpt hello"));
    handler.cache_message(bot(2, Some(1), "hi there"));
    handler.cache_message(human(7, None, "noise"));
    let m3 = human(3, Some(2), "tell me more");
    assert_eq!(reconstruct(&mut handler, &m3), None);
    let outcome = GptReply.handle(&mut handler, &m3);
    assert!(outcome.is_ok());
    assert_eq!(outcome.unwrap(), Action::Nothing);
}

#[test]
fn unseen_reply_target_gives_no_prompt() {
    let mut handler = Handler::new(4, None);
    assert_eq!(reconstruct(&mut handler, &human(3, Some(2), "tell me more")), None);
    assert_eq!(handler.cached_count(), 0);
}

#[test]
fn chain_without_a_question_gives_no_prompt() {
    let mut handler = Handler::new(4, None);
    handler.cache_message(human(1, None, "hello"));
    handler.cache_message(bot(2, Some(1), "hi there"));
    assert_eq!(reconstruct(&mut handler, &human(3, Some(2), "tell me more")), None);
    assert_eq!(reconstruct(&mut handler, &human(4, None, "alone")), None);
}

#[test]
fn question_needs_the_blank_behind_the_command() {
    let mut handler = Handler::new(4, None);
    handler.cache_message(human(1, None, "!gpt-prompt x"));
    handler.cache_message(bot(2, Some(1), "Prompt set"));
    assert_eq!(reconstruct(&mut handler, &human(3, Some(2), "more")), None);
}

#[test]
fn question_alone_is_a_thread() {
    let mut handler = Handler::new(4, None);
    let prompt = reconstruct(&mut handler, &human(1, None, "!gpt  what is 2+2? ")).unwrap();
    assert_eq!(prompt, vec![turn(Role::System, DEFAULT), turn(Role::User, " what is 2+2? ")]);
}

#[test]
fn cycle_ends_the_walk() {
    let mut handler = Handler::new(3, None);
    handler.cache_message(human(1, Some(2), "a"));
    handler.cache_message(bot(2, Some(1), "b"));
    assert_eq!(reconstruct(&mut handler, &human(3, Some(2), "c")), None);
    assert_eq!(handler.cached_count(), 2);
    assert!(is_cached(&mut handler, 1));
    assert!(is_cached(&mut handler, 2));
}

#[test]
fn record_that_replies_to_itself_ends_the_walk() {
    let mut handler = Handler::new(1, None);
    handler.cache_message(human(1, Some(1), "a"));
    assert_eq!(reconstruct(&mut handler, &bot(1, Some(1), "a")), None);
    assert_eq!(reconstruct(&mut handler, &human(2, Some(1), "b")), None);
}

#[test]
fn walk_may_look_up_as_many_records_as_the_cache_holds() {
    let mut handler = Handler::new(2, None);
    handler.cache_message(human(1, None, "!gpt q"));
    handler.cache_message(bot(2, Some(1), "a"));
    let prompt = reconstruct(&mut handler, &human(3, Some(2), "more")).unwrap();
    assert_eq!(prompt.len(), 4);
    assert_eq!(prompt[1], turn(Role::User, "q"));
}

#[test]
fn walk_refreshes_the_records_it_finds() {
    let mut handler = Handler::new(3, None);
    handler.cache_message(human(1, None, "!gpt q"));
    handler.cache_message(bot(2, Some(1), "a"));
    handler.cache_message(human(9, None, "noise"));
    assert!(reconstruct(&mut handler, &human(3, Some(2), "more")).is_some());
    handler.cache_message(human(10, None, "new"));
    assert!(!is_cached(&mut handler, 9));
    assert!(is_cached(&mut handler, 1));
    assert!(is_cached(&mut handler, 2));
}

#[test]
fn walk_uses_the_prompt_in_force() {
    let mut handler = Handler::new(4, None);
    handler.cache_message(human(1, None, "!gpt q"));
    handler.cache_message(bot(2, Some(1), "a"));
    handler.set_prompt("Answer in verse.".to_string());
    let prompt = reconstruct(&mut handler, &human(3, Some(2), "hm")).unwrap();
    assert_eq!(prompt[0], turn(Role::System, "Answer in verse."));
    handler.set_prompt("Another.".to_string());
    assert_eq!(prompt[0], turn(Role::System, "Answer in verse."));
}

#[test]
fn own_question_still_speaks_as_user() {
    let mut handler = Handler::new(4, None);
    handler.cache_message(bot(1, None, "!gpt q"));
    let prompt = reconstruct(&mut handler, &human(2, Some(1), "hm")).unwrap();
    assert_eq!(
        prompt,
        vec![turn(Role::System, DEFAULT), turn(Role::User, "q"), turn(Role::User, "hm")]
    );
}

#[test]
fn ask_command_builds_a_prompt_of_two_turns() {
    let mut handler = Handler::new(4, None);
    let msg = human(1, None, "!gpt   what is 2+2?  ");
    let outcome = handler.message(&msg).unwrap();
    assert_eq!(
        outcome,
        Action::Complete {
            command: CommandKind::Gpt,
            messages: vec![turn(Role::System, DEFAULT), turn(Role::User, "what is 2+2?")],
        }
    );
}

#[test]
fn ask_command_uses_the_prompt_in_force() {
    let mut handler = Handler::new(4, None);
    handler.set_prompt("Be brief.".to_string());
    let outcome = Gpt.handle(&mut handler, &human(1, None, "!gpt hi")).unwrap();
    assert_eq!(
        outcome,
        Action::Complete {
            command: CommandKind::Gpt,
            messages: vec![turn(Role::System, "Be brief."), turn(Role::User, "hi")],
        }
    );
}

#[test]
fn ask_command_refuses_a_message_without_its_text() {
    let mut handler = Handler::new(4, None);
    let error = Gpt.handle(&mut handler, &human(1, None, "hello")).unwrap_err();
    assert_eq!(
        error.to_string(),
        "Error while handling gpt - Failed to get a question from the message"
    );
}

use gpt_bot::cache::MAX_CAPACITY;
use gpt_bot::handler::{Handler, MessageLite, GPT_DEFAULT_SYSTEM_PROMPT};

fn record(id: u64, reply_to: Option<u64>, text: &str, own: bool) -> MessageLite {
    MessageLite::from_msg(id, reply_to, text, "someone", own)
}

fn probe(target: u64) -> MessageLite {
    record(0, Some(target), "probe", false)
}

fn cached(handler: &mut Handler, id: u64) -> Option<String> {
    handler.get_referenced_from_cache(&probe(id)).map(|found| found.content)
}

#[test]
fn new_handler_is_empty() {
    let handler = Handler::new(350, None);
    assert_eq!(handler.cached_count(), 0);
    assert_eq!(handler.capacity(), 350);
    assert_eq!(handler.get_prompt(), GPT_DEFAULT_SYSTEM_PROMPT);
}

#[test]
fn new_handler_takes_largest_capacity() {
    let handler = Handler::new(MAX_CAPACITY, None);
    assert_eq!(handler.capacity(), 1_048_576);
    assert_eq!(handler.cached_count(), 0);
}

#[test]
fn from_msg_copies_every_part() {
    let made = MessageLite::from_msg(7, Some(3), "text", "ann", true);
    assert_eq!(made.id, 7);
    assert_eq!(made.ref_msg_id, Some(3));
    assert_eq!(made.content, "text");
    assert_eq!(made.author_name, "ann");
    assert!(made.is_own);
    let copy = made.clone();
    assert_eq!(copy.id, 7);
    assert_eq!(copy.ref_msg_id, Some(3));
    assert_eq!(copy.content, "text");
    assert_eq!(copy.author_name, "ann");
    assert!(copy.is_own);
}

#[test]
fn cached_message_is_found_under_its_id() {
    let mut handler = Handler::new(4, None);
    handler.cache_message(MessageLite::from_msg(11, Some(5), "hello", "ann", true));
    assert_eq!(handler.cached_count(), 1);
    let found = handler.get_referenced_from_cache(&probe(11)).unwrap();
    assert_eq!(found.id, 11);
    assert_eq!(found.ref_msg_id, Some(5));
    assert_eq!(found.content, "hello");
    assert_eq!(found.author_name, "ann");
    assert!(found.is_own);
}

#[test]
fn overflow_evicts_least_recently_used() {
    let mut handler = Handler::new(2, None);
    handler.cache_message(record(1, None, "one", false));
    handler.cache_message(record(2, None, "two", false));
    handler.cache_message(record(3, None, "three", false));
    assert_eq!(handler.cached_count(), 2);
    assert_eq!(cached(&mut handler, 1), None);
    assert_eq!(cached(&mut handler, 2), Some("two".to_string()));
    assert_eq!(cached(&mut handler, 3), Some("three".to_string()));
}

#[test]
fn overflow_of_a_larger_cache_keeps_the_last_records() {
    let capacity: u64 = 5;
    let mut handler = Handler::new(5, None);
    for id in 1..=capacity + 1 {
        handler.cache_message(record(id, None, "text", false));
    }
    assert_eq!(handler.cached_count(), 5);
    assert_eq!(cached(&mut handler, 1), None);
    for id in 2..=capacity + 1 {
        assert!(cached(&mut handler, id).is_some());
    }
}

#[test]
fn hit_survives_fewer_insertions_than_capacity() {
    let mut handler = Handler::new(3, None);
    handler.cache_message(record(1, None, "one", false));
    handler.cache_message(record(2, None, "two", false));
    handler.cache_message(record(3, None, "three", false));
    assert_eq!(cached(&mut handler, 1), Some("one".to_string()));
    handler.cache_message(record(4, None, "four", false));
    handler.cache_message(record(5, None, "five", false));
    assert_eq!(handler.cached_count(), 3);
    assert_eq!(cached(&mut handler, 1), Some("one".to_string()));
}

#[test]
fn hit_survives_insertions_under_few_ids() {
    let mut handler = Handler::new(2, None);
    handler.cache_message(record(1, None, "one", false));
    handler.cache_message(record(2, None, "two", false));
    assert_eq!(cached(&mut handler, 1), Some("one".to_string()));
    handler.cache_message(record(3, None, "three", false));
    handler.cache_message(record(3, None, "three again", false));
    handler.cache_message(record(3, None, "and again", false));
    assert_eq!(cached(&mut handler, 1), Some("one".to_string()));
    assert_eq!(cached(&mut handler, 3), Some("and again".to_string()));
    assert_eq!(handler.cached_count(), 2);
}

#[test]
fn hit_is_evicted_by_as_many_new_records_as_capacity() {
    let mut handler = Handler::new(2, None);
    handler.cache_message(record(1, None, "one", false));
    handler.cache_message(record(2, None, "two", false));
    assert_eq!(cached(&mut handler, 1), Some("one".to_string()));
    handler.cache_message(record(3, None, "three", false));
    handler.cache_message(record(4, None, "four", false));
    assert_eq!(cached(&mut handler, 1), None);
    assert_eq!(handler.cached_count(), 2);
}

#[test]
fn hit_decides_which_record_leaves() {
    let mut handler = Handler::new(2, None);
    handler.cache_message(record(1, None, "one", false));
    handler.cache_message(record(2, None, "two", false));
    assert_eq!(cached(&mut handler, 1), Some("one".to_string()));
    handler.cache_message(record(3, None, "three", false));
    assert_eq!(cached(&mut handler, 2), None);
    assert_eq!(cached(&mut handler, 1), Some("one".to_string()));
    assert_eq!(cached(&mut handler, 3), Some("three".to_string()));
}

#[test]
fn same_id_replaces_the_record() {
    let mut handler = Handler::new(2, None);
    handler.cache_message(record(1, None, "first", false));
    handler.cache_message(record(2, None, "other", false));
    handler.cache_message(record(1, None, "second", false));
    assert_eq!(handler.cached_count(), 2);
    assert_eq!(cached(&mut handler, 1), Some("second".to_string()));
    assert_eq!(cached(&mut handler, 2), Some("other".to_string()));
}

#[test]
fn replacing_refreshes_the_record() {
    let mut handler = Handler::new(2, None);
    handler.cache_message(record(1, None, "first", false));
    handler.cache_message(record(2, None, "other", false));
    handler.cache_message(record(1, None, "second", false));
    handler.cache_message(record(3, None, "third", false));
    assert_eq!(cached(&mut handler, 2), None);
    assert_eq!(cached(&mut handler, 1), Some("second".to_string()));
}

#[test]
fn miss_changes_nothing() {
    let mut handler = Handler::new(2, None);
    handler.cache_message(record(1, None, "one", false));
    handler.cache_message(record(2, None, "two", false));
    assert_eq!(cached(&mut handler, 9), None);
    assert_eq!(handler.cached_count(), 2);
    handler.cache_message(record(3, None, "three", false));
    assert_eq!(cached(&mut handler, 1), None);
    assert_eq!(cached(&mut handler, 2), Some("two".to_string()));
}

#[test]
fn message_that_replies_to_nothing_finds_nothing() {
    let mut handler = Handler::new(2, None);
    handler.cache_message(record(1, None, "one", false));
    let found = handler.get_referenced_from_cache(&record(5, None, "alone", false));
    assert!(found.is_none());
    assert_eq!(handler.cached_count(), 1);
}

#[test]
fn capacity_of_one_holds_the_last_record() {
    let mut handler = Handler::new(1, None);
    handler.cache_message(record(1, None, "one", false));
    handler.cache_message(record(2, None, "two", false));
    assert_eq!(handler.cached_count(), 1);
    assert_eq!(cached(&mut handler, 1), None);
    assert_eq!(cached(&mut handler, 2), Some("two".to_string()));
}

use crate::rust_gpt::model::chat_message::Message;
use vstd::prelude::*;

verus! {

/// What the service answers to a chat request.
#[derive(Debug)]
pub struct ChatResponse {
    pub id: String,
    pub object: String,
    pub created: i64,
    pub model: String,
    pub usage: Usage,
    pub choices: Vec<Choice>,
}

/// The tokens a request and its answer were charged.
#[derive(Debug)]
pub struct Usage {
    pub prompt_tokens: i64,
    pub completion_tokens: i64,
    pub total_tokens: i64,
}

/// One candidate completion.
#[derive(Debug)]
pub struct Choice {
    pub message: Message,
    pub finish_reason: String,
    pub index: i64,
}

} // verus!

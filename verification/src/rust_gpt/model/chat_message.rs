use vstd::prelude::*;

verus! {

/// One turn of a conversation: who speaks, and what is said.
#[derive(Debug, Clone)]
pub struct Message {
    pub role: Role,
    pub content: String,
}

/// Who speaks in a turn.
#[derive(Debug, Clone, Copy)]
pub enum Role {
    Assistant,
    System,
    User,
}

} // verus!

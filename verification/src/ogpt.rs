//! The chat-completion service as the bot speaks to it: what is sent, what
//! comes back, and how an answer is read out of a response.

pub mod error;
pub mod model;
pub mod utils;

pub mod chat_completions;
pub mod models;

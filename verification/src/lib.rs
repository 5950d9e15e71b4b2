//! Routing of chat commands and reconstruction of reply threads into
//! role-tagged prompts for a completion service.

pub mod cache;
pub mod command;
pub mod error;
pub mod handler;
pub mod ogpt;
pub mod rust_gpt;
pub mod text;

pub use error::ServerError;

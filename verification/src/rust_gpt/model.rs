pub mod chat_message;
pub mod chat_response;

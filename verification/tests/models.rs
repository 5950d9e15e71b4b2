use gpt_bot::command::CommandKind;
use gpt_bot::ogpt::model::chat_completions::{
    ChatCompletionsResponse, Choice, Message, Role, Usage,
};
use gpt_bot::ogpt::model::models::{Data, ModelsResponse, Permission};
use gpt_bot::ogpt::utils::get_chat_message;
use gpt_bot::rust_gpt;

fn response(answers: &[&str]) -> ChatCompletionsResponse {
    ChatCompletionsResponse {
        id: "chatcmpl-1".to_string(),
        object: "chat.completion".to_string(),
        created: 1_700_000_000,
        model: "gpt-3.5-turbo".to_string(),
        usage: Usage { prompt_tokens: 9, completion_tokens: 12, total_tokens: 21 },
        choices: answers
            .iter()
            .enumerate()
            .map(|(index, text)| Choice {
                message: Message { role: Role::Assistant, content: text.to_string() },
                finish_reason: "stop".to_string(),
                index: index as u64,
            })
            .collect(),
    }
}

fn old_response(answers: &[&str]) -> rust_gpt::model::chat_response::ChatResponse {
    rust_gpt::model::chat_response::ChatResponse {
        id: "chatcmpl-1".to_string(),
        object: "chat.completion".to_string(),
        created: 1_700_000_000,
        model: "gpt-3.5-turbo".to_string(),
        usage: rust_gpt::model::chat_response::Usage {
            prompt_tokens: 9,
            completion_tokens: 12,
            total_tokens: 21,
        },
        choices: answers
            .iter()
            .enumerate()
            .map(|(index, text)| rust_gpt::model::chat_response::Choice {
                message: rust_gpt::model::chat_message::Message {
                    role: rust_gpt::model::chat_message::Role::Assistant,
                    content: text.to_string(),
                },
                finish_reason: "stop".to_string(),
                index: index as i64,
            })
            .collect(),
    }
}

#[test]
fn chat_message_is_read_by_index() {
    let answer = response(&["first", "second"]);
    assert_eq!(get_chat_message(&answer, 0), Some("first"));
    assert_eq!(get_chat_message(&answer, 1), Some("second"));
}

#[test]
fn chat_message_out_of_range_is_none() {
    let answer = response(&["first", "second"]);
    assert_eq!(get_chat_message(&answer, 2), None);
    assert_eq!(get_chat_message(&answer, usize::MAX), None);
    assert_eq!(get_chat_message(&response(&[]), 0), None);
}

#[test]
fn older_chat_message_is_read_by_index() {
    let answer = old_response(&["first", "second"]);
    assert_eq!(rust_gpt::get_chat_message(&answer, 0), Some("first"));
    assert_eq!(rust_gpt::get_chat_message(&answer, 1), Some("second"));
    assert_eq!(rust_gpt::get_chat_message(&answer, 2), None);
    assert_eq!(rust_gpt::get_chat_message(&old_response(&[]), 0), None);
}

#[test]
fn answer_is_the_first_candidate() {
    let answer = response(&["four", "five"]);
    assert_eq!(CommandKind::Gpt.answer(&answer).unwrap(), "four");
    assert_eq!(CommandKind::GptReply.answer(&answer).unwrap(), "four");
}

#[test]
fn empty_response_is_an_error_of_the_asking_command() {
    let empty = response(&[]);
    assert_eq!(
        CommandKind::Gpt.answer(&empty).unwrap_err().to_string(),
        "Error while handling gpt - Failed to get a response from ChatGPT"
    );
    assert_eq!(
        CommandKind::GptReply.answer(&empty).unwrap_err().to_string(),
        "Error while handling  - Failed to get 0th choice from response"
    );
    assert_eq!(
        CommandKind::Ping.answer(&empty).unwrap_err().to_string(),
        "Error while handling !ping - Failed to get 0th choice from response"
    );
}

#[test]
fn responses_compare_by_their_parts() {
    assert_eq!(response(&["a"]), response(&["a"]));
    assert_ne!(response(&["a"]), response(&["b"]));
    assert_eq!(response(&["a"]).clone(), response(&["a"]));
    assert_ne!(Role::User, Role::Assistant);
    assert_ne!(Role::System, Role::User);
}

#[test]
fn model_list_holds_its_parts() {
    let permission = Permission {
        id: "modelperm-1".to_string(),
        object: "model_permission".to_string(),
        created: 1,
        allow_create_engine: false,
        allow_sampling: true,
        allow_logprobs: true,
        allow_search_indices: false,
        allow_view: true,
        allow_fine_tuning: false,
        organization: "*".to_string(),
        group: None,
        is_blocking: false,
    };
    let data = Data {
        id: "gpt-3.5-turbo".to_string(),
        object: "model".to_string(),
        created: 2,
        owned_by: "openai".to_string(),
        permission: vec![permission.clone()],
        root: "gpt-3.5-turbo".to_string(),
        parent: None,
    };
    let list = ModelsResponse { object: "list".to_string(), data: vec![data.clone()] };
    assert_eq!(list.data[0], data);
    assert_eq!(list.data[0].permission[0], permission);
    assert_eq!(list.clone(), list);
}

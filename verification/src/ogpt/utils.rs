use crate::ogpt::model::chat_completions::ChatCompletionsResponse;
use vstd::prelude::*;

verus! {

/// The text of the candidate at place `index` of the response, or `None`
/// where the response holds no such candidate.
pub fn get_chat_message(response: &ChatCompletionsResponse, index: usize) -> (text: Option<&str>)
    ensures
        match text {
            Some(text) => index < response.choices@.len()
                && text@ == response.choices@[index as int].message.content@,
            None => index >= response.choices@.len(),
        },
{
    if index < response.choices.len() {
        Some(response.choices[index].message.content.as_str())
    } else {
        None
    }
}

} // verus!

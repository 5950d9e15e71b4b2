//! The chat service as its second client speaks it: the same messages, with
//! signed counts.

pub mod model;

use crate::rust_gpt::model::chat_response::ChatResponse;
use vstd::prelude::*;

verus! {

/// The text of the candidate at place `index` of the response, or `None`
/// where the response holds no such candidate.
pub fn get_chat_message(response: &ChatResponse, index: usize) -> (text: Option<&str>)
    ensures
        match text {
            Some(text) => index < response.choices@.len()
                && text@ == response.choices@[index as int].message.content@,
            None => index >= response.choices@.len(),
        },
{
    if index < response.choices.len() {
        Some(response.choices[index].message.content.as_str())
    } else {
        None
    }
}

} // verus!

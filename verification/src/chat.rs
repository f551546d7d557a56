//! The messages exchanged with the chat-completion service.

use crate::text::{trim, trimmed};
use vstd::prelude::*;

verus! {

/// The body of a request: the model to ask and the conversation so far.
#[derive(Debug)]
pub struct ChatRequest<'a> {
    pub model: &'a str,
    pub messages: &'a [Message<'a>],
}

/// One message of the conversation.
#[derive(Debug)]
pub struct Message<'a> {
    pub role: &'a str,
    pub content: &'a str,
}

/// The body of a successful response.
#[derive(Debug)]
pub struct ChatResponse {
    pub id: String,
    pub object: String,
    pub created: u64,
    pub choices: Vec<Choice>,
    pub usage: Usage,
}

/// One of the answers that the model offers.
#[derive(Debug)]
pub struct Choice {
    pub index: u32,
    pub message: MessageResponse,
    pub finish_reason: String,
}

/// The text of an answer.
#[derive(Debug)]
pub struct MessageResponse {
    pub content: String,
}

/// What the exchange cost, in tokens.
#[derive(Debug)]
pub struct Usage {
    pub prompt_tokens: u32,
    pub completion_tokens: u32,
    pub total_tokens: u32,
}

/// The message that carries the user's prompt.
pub fn user_message<'a>(prompt: &'a str) -> (message: Message<'a>)
    ensures
        message.role@ == "user"@,
        message.content@ == prompt@,
{
    Message { role: "user", content: prompt }
}

/// The request that puts `messages` to the model `gpt-4o-mini`.
pub fn chat_request<'a>(messages: &'a [Message<'a>]) -> (request: ChatRequest<'a>)
    ensures
        request.model@ == "gpt-4o-mini"@,
        request.messages@ == messages@,
{
    ChatRequest { model: "gpt-4o-mini", messages }
}

/// The answer that a response carries: the text of its first choice without
/// the white space around it, and the empty text where it has no choice.
pub open spec fn answer_of(chat: ChatResponse) -> Seq<char> {
    if chat.choices@.len() > 0 {
        trimmed(chat.choices@[0].message.content@)
    } else {
        Seq::empty()
    }
}

/// The answer that a response carries.
pub fn first_answer(chat: &ChatResponse) -> (answer: String)
    ensures
        answer@ == answer_of(*chat),
{
    if chat.choices.len() > 0 {
        trim(chat.choices[0].message.content.as_str())
    } else {
        String::new()
    }
}

} // verus!

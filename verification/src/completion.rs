//! Payload and response shapes of the primary chat-completion backend, and
//! the choice-selection rule applied to its responses.
//!
//! The shapes carry plain values only; the driver that owns the HTTP
//! traffic serializes them at its boundary.

use vstd::prelude::*;
use crate::errors::AdapterError;

verus! {

/// One chat message of a completion request.
#[derive(Debug, PartialEq, Eq)]
pub struct OpenAIPayloadMessage {
    pub role: String,
    pub content: String,
}

impl OpenAIPayloadMessage {
    /// A message with the given role and content.
    pub fn new(role: String, content: String) -> (m: Self)
        ensures
            m.role == role,
            m.content == content,
    {
        OpenAIPayloadMessage { role, content }
    }
}

pub type OpenAIPayloadMessages = Vec<OpenAIPayloadMessage>;

/// A whole completion request: the model name and the message list.
#[derive(Debug, PartialEq, Eq)]
pub struct OpenAIPayload {
    pub model: String,
    pub messages: OpenAIPayloadMessages,
}

impl OpenAIPayload {
    /// The fixed two-message conversation every completion call sends: the
    /// standing system prompt, then the user query.
    pub fn new(model: String, query: String) -> (p: Self)
        ensures
            p.model == model,
            p.messages@.len() == 2,
            p.messages@[0].role@ == "system"@,
            p.messages@[0].content@ == "You are a helpful assistant."@,
            p.messages@[1].role@ == "user"@,
            p.messages@[1].content == query,
    {
        let system_message = OpenAIPayloadMessage::new(
            "system".to_owned(),
            "You are a helpful assistant.".to_owned(),
        );
        let user_message = OpenAIPayloadMessage::new("user".to_owned(), query);
        let mut messages: OpenAIPayloadMessages = Vec::new();
        messages.push(system_message);
        messages.push(user_message);
        OpenAIPayload { model, messages }
    }
}

/// The message inside one choice of a completion response.
#[derive(Debug, PartialEq, Eq)]
pub struct OpenAIChatCompletionResponseChoiceMessage {
    pub content: String,
}

/// One choice of a completion response.
#[derive(Debug, PartialEq, Eq)]
pub struct OpenAIChatCompletionResponseChoice {
    pub message: OpenAIChatCompletionResponseChoiceMessage,
}

pub type OpenAIChatCompletionResponseChoices = Vec<OpenAIChatCompletionResponseChoice>;

/// A whole completion response: the choice list.
#[derive(Debug, PartialEq, Eq)]
pub struct OpenAIChatCompletionResponse {
    pub choices: OpenAIChatCompletionResponseChoices,
}

/// The completion a response carries: the content of its first choice.  An
/// empty choice list is a malformed response.
pub fn first_choice_content(r: &OpenAIChatCompletionResponse) -> (res: Result<
    String,
    AdapterError,
>)
    ensures
        r.choices@.len() > 0 ==> res == Ok::<String, AdapterError>(r.choices@[0].message.content),
        r.choices@.len() == 0 ==> res == Err::<String, AdapterError>(AdapterError::Protocol),
{
    if r.choices.len() > 0 {
        Ok(r.choices[0].message.content.clone())
    } else {
        Err(AdapterError::Protocol)
    }
}

} // verus!

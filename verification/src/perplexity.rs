//! Message and response shapes of the tertiary, live-search backend, and the
//! choice-selection rule applied to its responses.
//!
//! The full request payload of this backend also carries sampling knobs that
//! are floating-point numbers; that record lives with the driver that owns
//! the HTTP traffic, built around the verified message list from
//! [`search_messages`].

use vstd::prelude::*;
use crate::errors::AdapterError;

verus! {

/// One chat message of a live-search request.
#[derive(Debug, PartialEq, Eq)]
pub struct PerplexityPayloadMessage {
    pub role: String,
    pub content: String,
}

impl PerplexityPayloadMessage {
    /// A message with the given role and content.
    pub fn new(role: String, content: String) -> (m: Self)
        ensures
            m.role == role,
            m.content == content,
    {
        PerplexityPayloadMessage { role, content }
    }
}

pub type PerplexityPayloadMessages = Vec<PerplexityPayloadMessage>;

/// The fixed two-message conversation every live-search call sends: the
/// standing system prompt, then the user query.
pub fn search_messages(query: String) -> (messages: PerplexityPayloadMessages)
    ensures
        messages@.len() == 2,
        messages@[0].role@ == "system"@,
        messages@[0].content@ == "Be precise and concise."@,
        messages@[1].role@ == "user"@,
        messages@[1].content == query,
{
    let system_message = PerplexityPayloadMessage::new(
        "system".to_owned(),
        "Be precise and concise.".to_owned(),
    );
    let user_message = PerplexityPayloadMessage::new("user".to_owned(), query);
    let mut messages: PerplexityPayloadMessages = Vec::new();
    messages.push(system_message);
    messages.push(user_message);
    messages
}

/// The message inside one choice of a live-search response.
#[derive(Debug, PartialEq, Eq)]
pub struct PerplexityResponseChoiceMessage {
    pub content: String,
}

/// One choice of a live-search response.
#[derive(Debug, PartialEq, Eq)]
pub struct PerplexityResponseChoice {
    pub message: PerplexityResponseChoiceMessage,
}

pub type PerplexityResponseChoices = Vec<PerplexityResponseChoice>;

/// A whole live-search response: the choice list.
#[derive(Debug, PartialEq, Eq)]
pub struct PerplexityResponse {
    pub choices: PerplexityResponseChoices,
}

/// The completion a response carries: the content of its first choice.  An
/// empty choice list is a malformed response.
pub fn first_choice_content(r: &PerplexityResponse) -> (res: Result<String, AdapterError>)
    ensures
        r.choices@.len() > 0 ==> res == Ok::<String, AdapterError>(r.choices@[0].message.content),
        r.choices@.len() == 0 ==> res == Err::<String, AdapterError>(AdapterError::Protocol),
{
    if r.choices.len() > 0 {
        Ok(r.choices[0].message.content.clone())
    } else {
        Err(AdapterError::Protocol)
    }
}

} // verus!

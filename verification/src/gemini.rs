//! Request and response shapes of the secondary generation backend, and the
//! rule that decides whether one of its responses is usable.
//!
//! The backend occasionally answers with an empty or literal-`"null"` text;
//! the driver polls it, waiting a second between rounds, until
//! [`gemini_reply`] accepts a response.

use vstd::prelude::*;

verus! {

/// One text part of a request.
#[derive(Debug, PartialEq, Eq)]
pub struct GeminiPart {
    pub text: String,
}

/// One content block of a request.
#[derive(Debug, PartialEq, Eq)]
pub struct GeminiContent {
    pub parts: Vec<GeminiPart>,
}

/// A whole generation request.
#[derive(Debug, PartialEq, Eq)]
pub struct GeminiRequest {
    pub contents: Vec<GeminiContent>,
}

/// The fixed request shape every call sends: one content block holding the
/// query as its one part.
pub fn gemini_request(query: String) -> (r: GeminiRequest)
    ensures
        r.contents@.len() == 1,
        r.contents@[0].parts@.len() == 1,
        r.contents@[0].parts@[0].text == query,
{
    let mut parts: Vec<GeminiPart> = Vec::new();
    parts.push(GeminiPart { text: query });
    let mut contents: Vec<GeminiContent> = Vec::new();
    contents.push(GeminiContent { parts });
    GeminiRequest { contents }
}

/// One text part of a response candidate.
#[derive(Debug, PartialEq, Eq)]
pub struct GeminiCandidatePart {
    pub text: String,
}

/// The content of a response candidate.
#[derive(Debug, PartialEq, Eq)]
pub struct GeminiCandidateContent {
    pub parts: Vec<GeminiCandidatePart>,
}

/// One candidate of a response.
#[derive(Debug, PartialEq, Eq)]
pub struct GeminiCandidate {
    pub content: GeminiCandidateContent,
}

/// A whole generation response: the candidate list.
#[derive(Debug, PartialEq, Eq)]
pub struct GeminiResponse {
    pub candidates: Vec<GeminiCandidate>,
}

/// The first part of the first candidate, when the response has one.
pub open spec fn first_part_text(r: GeminiResponse) -> Option<String> {
    if r.candidates@.len() > 0 && r.candidates@[0].content.parts@.len() > 0 {
        Some(r.candidates@[0].content.parts@[0].text)
    } else {
        None
    }
}

/// The usable text a response carries, if any: the first part of the first
/// candidate, accepted exactly when it is neither empty nor the literal text
/// `null`.  `None` tells the driver to wait and poll the backend again.
pub fn gemini_reply(r: &GeminiResponse) -> (res: Option<String>)
    ensures
        res matches Some(t) ==> first_part_text(*r) == Some(t) && t@.len() > 0 && t@ != "null"@,
        res is None ==> match first_part_text(*r) {
            Some(t) => t@.len() == 0 || t@ == "null"@,
            None => true,
        },
{
    if r.candidates.len() > 0 {
        let parts = &r.candidates[0].content.parts;
        if parts.len() > 0 {
            let text = &parts[0].text;
            if !text.as_str().is_empty() && !text.eq(&"null".to_owned()) {
                return Some(text.clone());
            }
        }
    }
    None
}

} // verus!

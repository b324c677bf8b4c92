//! The shapes of the requests to Gemini and of its responses.

use vstd::prelude::*;

verus! {

#[derive(Debug)]
pub struct GeminiContent {
    pub parts: Vec<GeminiPart>,
    pub role: Option<String>,
}

#[derive(Debug)]
pub struct GeminiPart {
    pub text: String,
}

#[derive(Debug)]
pub struct GeminiContentPart {
    pub role: String,
    pub parts: Vec<GeminiPart>,
}

#[derive(Debug)]
pub struct GeminiRequest {
    pub contents: Vec<GeminiContentPart>,
    pub system_instruction: Option<SystemInstruction>,
}

#[derive(Debug)]
pub struct SystemInstruction {
    pub parts: Vec<GeminiPart>,
}

#[derive(Debug)]
pub struct GeminiResponse {
    pub candidates: Vec<GeminiCandidate>,
}

#[derive(Debug)]
pub struct GeminiCandidate {
    pub content: GeminiContent,
}

/// The texts of some parts.
pub open spec fn part_texts(parts: Seq<GeminiPart>) -> Seq<Seq<char>> {
    parts.map_values(|p: GeminiPart| p.text@)
}

/// The contents of a request as a mathematical value: role and texts.
pub open spec fn contents_view(contents: Seq<GeminiContentPart>) -> Seq<
    (Seq<char>, Seq<Seq<char>>),
> {
    contents.map_values(|c: GeminiContentPart| (c.role@, part_texts(c.parts@)))
}

/// The texts of a system instruction, if there is one.
pub open spec fn instruction_view(instruction: Option<SystemInstruction>) -> Option<
    Seq<Seq<char>>,
> {
    match instruction {
        Some(i) => Some(part_texts(i.parts@)),
        None => None,
    }
}

/// One part that holds `text`.
pub fn single_part(text: &str) -> (r: Vec<GeminiPart>)
    ensures
        part_texts(r@) == seq![text@],
{
    let mut parts: Vec<GeminiPart> = Vec::new();
    parts.push(GeminiPart { text: String::from_str(text) });
    assert(part_texts(parts@) =~= seq![text@]);
    parts
}

impl GeminiResponse {
    /// The text of the response: that of the first part of the first
    /// candidate.
    pub open spec fn first_text(self) -> Option<Seq<char>> {
        if self.candidates@.len() > 0 && self.candidates@[0].content.parts@.len() > 0 {
            Some(self.candidates@[0].content.parts@[0].text@)
        } else {
            None
        }
    }

    /// The text of the response; without one the API is at fault.
    pub fn text(&self) -> (r: Result<String, crate::error::SchatError>)
        ensures
            match self.first_text() {
                Some(text) => r matches Ok(t) && t@ == text,
                None => r matches Err(crate::error::SchatError::Api(d)) && d@
                    == "No valid response from Gemini"@,
            },
    {
        if self.candidates.len() > 0 && self.candidates[0].content.parts.len() > 0 {
            Ok(self.candidates[0].content.parts[0].text.clone())
        } else {
            Err(crate::error::SchatError::Api(String::from_str("No valid response from Gemini")))
        }
    }
}

} // verus!

use vstd::prelude::*;

verus! {

/// One role-tagged message of a generation request.
#[derive(Debug, Clone)]
pub struct Message {
    pub role: String,
    pub content: String,
}

/// The text of one answer of the generation service.
#[derive(Debug)]
pub struct ApiMessage {
    pub content: String,
}

/// One choice of an answer of the generation service.
#[derive(Debug)]
pub struct ApiChoice {
    pub message: ApiMessage,
}

/// The answer of the generation service.
#[derive(Debug)]
pub struct ApiResponse {
    pub choices: Vec<ApiChoice>,
}

impl ApiResponse {
    /// The content of the first choice, if there is one.
    pub fn first_content(&self) -> (r: Option<String>)
        ensures
            self.choices@.len() == 0 ==> r is None,
            self.choices@.len() > 0 ==> r == Some(self.choices@[0].message.content),
    {
        if self.choices.len() == 0 {
            None
        } else {
            Some(self.choices[0].message.content.clone())
        }
    }
}

} // verus!

use vstd::prelude::*;

verus! {

/// A newsletter issue as the API takes it.
#[derive(Debug)]
pub struct BodySchema {
    pub title: String,
    pub content: Content,
}

/// The two renderings of an issue.
#[derive(Debug)]
pub struct Content {
    pub text: String,
    pub html: String,
}

} // verus!

use crate::response::{BAD_REQUEST, INTERNAL_SERVER_ERROR};
use vstd::prelude::*;

verus! {

/// Why a subscription request failed.
#[derive(Debug)]
pub enum SubscribeError {
    /// The form holds a value that cannot be accepted; the text says which.
    ValidationError(String),
    /// Something failed on the server's side; the text says what was tried.
    UnexpectedError(String),
}

/// What a `SubscribeError` holds, as mathematics.
pub enum SubscribeErrorView {
    ValidationError(Seq<char>),
    UnexpectedError(Seq<char>),
}

impl View for SubscribeError {
    type V = SubscribeErrorView;

    open spec fn view(&self) -> SubscribeErrorView {
        match self {
            SubscribeError::ValidationError(message) => SubscribeErrorView::ValidationError(
                message@,
            ),
            SubscribeError::UnexpectedError(message) => SubscribeErrorView::UnexpectedError(
                message@,
            ),
        }
    }
}

impl SubscribeError {
    /// The status to answer with: `400` for what the client got wrong, `500`
    /// for the rest.
    pub fn status_code(&self) -> (code: u16)
        ensures
            code == (match self@ {
                SubscribeErrorView::ValidationError(_) => BAD_REQUEST,
                SubscribeErrorView::UnexpectedError(_) => INTERNAL_SERVER_ERROR,
            }),
    {
        match self {
            SubscribeError::ValidationError(_) => BAD_REQUEST,
            _ => INTERNAL_SERVER_ERROR,
        }
    }
}

} // verus!

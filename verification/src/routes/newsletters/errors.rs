use crate::response::{
    HeaderPair, HeaderPairView, Response, ResponseView, INTERNAL_SERVER_ERROR, UNAUTHORIZED,
};
use vstd::prelude::*;

verus! {

/// The header, and its value, that challenges a caller to present
/// credentials.
pub const WWW_AUTHENTICATE: &'static str = "www-authenticate";

pub const BASIC_REALM: &'static str = "Basic realm=\"publish\"";

/// Why publishing through the API failed.
#[derive(Debug)]
pub enum PublishError {
    /// Something failed on the server's side; the text says what.
    UnexpectedError(String),
    /// The caller did not prove who they are; the text says why not.
    AuthError(String),
}

/// The answer to a caller who did not prove who they are: `401`, with the
/// challenge to do so.
pub open spec fn challenge() -> ResponseView {
    ResponseView {
        status_code: UNAUTHORIZED,
        headers: seq![
            HeaderPairView {
                name: WWW_AUTHENTICATE@,
                value: vstd::utf8::encode_utf8(BASIC_REALM@),
            },
        ],
        body: Seq::empty(),
    }
}

impl PublishError {
    /// The answer for the caller: `500` and nothing else for a failure of
    /// the server, the challenge for a caller who is not known.
    pub fn error_response(&self) -> (response: Response)
        ensures
            response@ == (match self {
                PublishError::UnexpectedError(_) => ResponseView::bare(INTERNAL_SERVER_ERROR),
                PublishError::AuthError(_) => challenge(),
            }),
    {
        match self {
            PublishError::UnexpectedError(_) => Response::bare(INTERNAL_SERVER_ERROR),
            PublishError::AuthError(_) => {
                let mut headers: Vec<HeaderPair> = Vec::new();
                headers.push(
                    HeaderPair {
                        name: String::from_str(WWW_AUTHENTICATE),
                        value: BASIC_REALM.as_bytes_vec(),
                    },
                );
                let response = Response { status_code: UNAUTHORIZED, headers, body: Vec::new() };
                assert(response@.headers =~= challenge().headers);
                response
            },
        }
    }
}

} // verus!

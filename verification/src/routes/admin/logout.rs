//! Logging out.

use crate::response::{Response, ResponseView};
use crate::routes::helpers::{see_other, FlashMessage, FlashMessageView, Level};
use vstd::prelude::*;

verus! {

/// Where the browser is sent after logging out.
pub const LOGIN_PAGE: &'static str = "/login";

/// The notice for a user who has logged out.
pub const LOGGED_OUT: &'static str = "You have successfully logged out.";

/// What is to be done about a request to log out.
#[derive(Debug)]
pub struct LogoutStep {
    /// Whether there is a session to end.
    pub end_session: bool,
    /// What the user is shown on the next page, if anything.
    pub notice: Option<FlashMessage>,
    /// The answer to the request.
    pub response: Response,
}

/// The view of a notice that may not be there.
pub open spec fn notice_view(notice: Option<FlashMessage>) -> Option<FlashMessageView> {
    match notice {
        Some(n) => Some(n@),
        None => None,
    }
}

/// Decides what is to be done about a request to log out, `user_id` being
/// the user of the session, if the session has one. Whoever asks is sent to
/// the login page; a user who was logged in has the session ended and is
/// told so.
pub fn logout(user_id: Option<u128>) -> (step: LogoutStep)
    ensures
        step.end_session == user_id is Some,
        notice_view(step.notice) == (if user_id is Some {
            Some(FlashMessageView { level: Level::Info, content: LOGGED_OUT@ })
        } else {
            None
        }),
        step.response@ == ResponseView::see_other(LOGIN_PAGE@),
{
    match user_id {
        None => LogoutStep { end_session: false, notice: None, response: see_other(LOGIN_PAGE) },
        Some(_) => LogoutStep {
            end_session: true,
            notice: Some(FlashMessage::info(LOGGED_OUT)),
            response: see_other(LOGIN_PAGE),
        },
    }
}

} // verus!

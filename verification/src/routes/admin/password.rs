//! Changing the password of the logged-in user, as a state machine: the
//! machine decides, the caller looks the user up, checks the current password
//! and stores the new one, and reports what came of it.

use crate::response::{ResponseView, INTERNAL_SERVER_ERROR};
use crate::routes::helpers::{
    e500, see_other, FlashMessage, FlashMessageView, HttpError, HttpErrorView, Level,
};
use crate::routes::newsletters::helpers::Credentials;
use crate::secret::Secret;
use crate::text::text_equals;
use vstd::prelude::*;

verus! {

/// Where the browser is sent once the request is over.
pub const PASSWORD_PAGE: &'static str = "/admin/password";

/// A new password has at least so many bytes.
pub const MIN_PASSWORD_LENGTH: usize = 12;

/// A new password has at most so many bytes.
pub const MAX_PASSWORD_LENGTH: usize = 128;

pub const PASSWORDS_DIFFER: &'static str =
    "You entered two different new passwords - the field values must match.";

pub const PASSWORD_LENGTH: &'static str =
    "The password should be longer than 12 characters but shorter than 128 characters.";

pub const PASSWORD_INCORRECT: &'static str = "The current password is incorrect.";

pub const PASSWORD_CHANGED: &'static str = "Your password has been changed.";

pub const USERNAME_FAILED: &'static str = "Failed to perform a query to retrieve a username.";

pub const VALIDATION_FAILED: &'static str = "Failed to validate the credentials.";

pub const STORE_FAILED: &'static str = "Failed to change the password.";

/// The form with which a password is changed.
pub struct FormData {
    pub current_password: Secret,
    pub new_password: Secret,
    pub new_password_check: Secret,
}

/// Why credentials were not accepted.
#[derive(Clone, Copy, Debug, PartialEq, Eq, Structural)]
pub enum AuthError {
    InvalidCredentials,
    UnexpectedError,
}

/// Where a request to change the password stands.
pub enum ChangePasswordState {
    /// Nothing has been looked at.
    Received,
    /// The name of the user is being looked up.
    FindingUsername { current_password: Secret, new_password: Secret },
    /// The current password is being checked.
    Validating { new_password: Secret },
    /// The new password is being stored.
    Storing,
}

/// What a `ChangePasswordState` holds, as mathematics.
pub enum ChangePasswordStateView {
    Received,
    FindingUsername { current_password: Seq<char>, new_password: Seq<char> },
    Validating { new_password: Seq<char> },
    Storing,
}

impl View for ChangePasswordState {
    type V = ChangePasswordStateView;

    open spec fn view(&self) -> ChangePasswordStateView {
        match self {
            ChangePasswordState::Received => ChangePasswordStateView::Received,
            ChangePasswordState::FindingUsername {
                current_password,
                new_password,
            } => ChangePasswordStateView::FindingUsername {
                current_password: current_password@,
                new_password: new_password@,
            },
            ChangePasswordState::Validating { new_password } => ChangePasswordStateView::Validating {
                new_password: new_password@,
            },
            ChangePasswordState::Storing => ChangePasswordStateView::Storing,
        }
    }
}

/// What the caller reports.
pub enum ChangePasswordEvent {
    /// The form came in.
    Submitted(FormData),
    /// The name of the user, or `None` if the lookup failed.
    UsernameFound(Option<String>),
    /// What the check of the current password said.
    Validated(Result<(), AuthError>),
    /// Whether the new password was stored.
    Stored(bool),
}

/// What a `ChangePasswordEvent` holds, as mathematics.
pub enum ChangePasswordEventView {
    Submitted { current_password: Seq<char>, new_password: Seq<char>, new_password_check: Seq<char> },
    UsernameFound(Option<Seq<char>>),
    Validated(Result<(), AuthError>),
    Stored(bool),
}

impl View for ChangePasswordEvent {
    type V = ChangePasswordEventView;

    open spec fn view(&self) -> ChangePasswordEventView {
        match self {
            ChangePasswordEvent::Submitted(form) => ChangePasswordEventView::Submitted {
                current_password: form.current_password@,
                new_password: form.new_password@,
                new_password_check: form.new_password_check@,
            },
            ChangePasswordEvent::UsernameFound(Some(name)) => ChangePasswordEventView::UsernameFound(
                Some(name@),
            ),
            ChangePasswordEvent::UsernameFound(None) => ChangePasswordEventView::UsernameFound(None),
            ChangePasswordEvent::Validated(verdict) => ChangePasswordEventView::Validated(*verdict),
            ChangePasswordEvent::Stored(stored) => ChangePasswordEventView::Stored(*stored),
        }
    }
}

/// What the machine asks of the caller.
pub enum ChangePasswordAction {
    /// Look up the name of the user and report `UsernameFound`.
    FindUsername,
    /// Check these credentials and report `Validated`.
    ValidateCredentials(Credentials),
    /// Store this password for the user and report `Stored`.
    StorePassword(Secret),
    /// Show `notice` and send the browser to `location`. The request is over.
    Redirect { notice: FlashMessage, response: crate::response::Response },
    /// Answer with this error. The request is over.
    Fail(HttpError),
}

/// What a `ChangePasswordAction` holds, as mathematics.
pub enum ChangePasswordActionView {
    FindUsername,
    ValidateCredentials { username: Seq<char>, password: Seq<char> },
    StorePassword(Seq<char>),
    Redirect { notice: FlashMessageView, response: ResponseView },
    Fail(HttpErrorView),
}

impl View for ChangePasswordAction {
    type V = ChangePasswordActionView;

    open spec fn view(&self) -> ChangePasswordActionView {
        match self {
            ChangePasswordAction::FindUsername => ChangePasswordActionView::FindUsername,
            ChangePasswordAction::ValidateCredentials(
                credentials,
            ) => ChangePasswordActionView::ValidateCredentials {
                username: credentials.username@,
                password: credentials.password@,
            },
            ChangePasswordAction::StorePassword(password) => ChangePasswordActionView::StorePassword(
                password@,
            ),
            ChangePasswordAction::Redirect { notice, response } => ChangePasswordActionView::Redirect {
                notice: notice@,
                response: response@,
            },
            ChangePasswordAction::Fail(e) => ChangePasswordActionView::Fail(e@),
        }
    }
}

/// The view of a step of the machine.
pub open spec fn step_view(step: Option<(Option<ChangePasswordState>, ChangePasswordAction)>) -> Option<
    (Option<ChangePasswordStateView>, ChangePasswordActionView),
> {
    match step {
        Some((Some(state), action)) => Some((Some(state@), action@)),
        Some((None, action)) => Some((None, action@)),
        None => None,
    }
}

/// The redirect back to the password page with an error notice.
pub open spec fn turned_down(notice: Seq<char>) -> ChangePasswordActionView {
    ChangePasswordActionView::Redirect {
        notice: FlashMessageView { level: Level::Error, content: notice },
        response: ResponseView::see_other(PASSWORD_PAGE@),
    }
}

/// The end of a request on which the server failed.
pub open spec fn failed(message: Seq<char>) -> ChangePasswordActionView {
    ChangePasswordActionView::Fail(
        HttpErrorView { status_code: INTERNAL_SERVER_ERROR, message },
    )
}

/// The length of a password is counted in bytes of its UTF-8 encoding.
pub open spec fn password_length(password: Seq<char>) -> nat {
    vstd::utf8::encode_utf8(password).len()
}

/// The machine's transition: the next state, if the request goes on, and
/// what to do; `None` where the event is not one the state waits for.
///
/// A form whose two new passwords differ is turned down; so is one whose new
/// password is shorter than `MIN_PASSWORD_LENGTH` or longer than
/// `MAX_PASSWORD_LENGTH`. Then the user is looked up and the current
/// password checked: a wrong one is turned down, any other failure ends the
/// request with `500`. At last the new password is stored.
pub open spec fn change_password_transition(
    state: ChangePasswordStateView,
    event: ChangePasswordEventView,
) -> Option<(Option<ChangePasswordStateView>, ChangePasswordActionView)> {
    match (state, event) {
        (
            ChangePasswordStateView::Received,
            ChangePasswordEventView::Submitted { current_password, new_password, new_password_check },
        ) => if new_password != new_password_check {
            Some((None, turned_down(PASSWORDS_DIFFER@)))
        } else if password_length(new_password) < MIN_PASSWORD_LENGTH || password_length(
            new_password,
        ) > MAX_PASSWORD_LENGTH {
            Some((None, turned_down(PASSWORD_LENGTH@)))
        } else {
            Some(
                (
                    Some(ChangePasswordStateView::FindingUsername { current_password, new_password }),
                    ChangePasswordActionView::FindUsername,
                ),
            )
        },
        (
            ChangePasswordStateView::FindingUsername { current_password, new_password },
            ChangePasswordEventView::UsernameFound(found),
        ) => match found {
            Some(username) => Some(
                (
                    Some(ChangePasswordStateView::Validating { new_password }),
                    ChangePasswordActionView::ValidateCredentials {
                        username,
                        password: current_password,
                    },
                ),
            ),
            None => Some((None, failed(USERNAME_FAILED@))),
        },
        (
            ChangePasswordStateView::Validating { new_password },
            ChangePasswordEventView::Validated(verdict),
        ) => match verdict {
            Ok(()) => Some(
                (
                    Some(ChangePasswordStateView::Storing),
                    ChangePasswordActionView::StorePassword(new_password),
                ),
            ),
            Err(AuthError::InvalidCredentials) => Some((None, turned_down(PASSWORD_INCORRECT@))),
            Err(AuthError::UnexpectedError) => Some((None, failed(VALIDATION_FAILED@))),
        },
        (ChangePasswordStateView::Storing, ChangePasswordEventView::Stored(stored)) => if stored {
            Some((None, turned_down(PASSWORD_CHANGED@)))
        } else {
            Some((None, failed(STORE_FAILED@)))
        },
        _ => None,
    }
}

fn turn_down(notice: &str) -> (action: ChangePasswordAction)
    ensures
        action@ == turned_down(notice@),
{
    ChangePasswordAction::Redirect {
        notice: FlashMessage::error(notice),
        response: see_other(PASSWORD_PAGE),
    }
}

fn fail(message: &str) -> (action: ChangePasswordAction)
    ensures
        action@ == failed(message@),
{
    ChangePasswordAction::Fail(e500(message.to_owned()))
}

/// Takes one step of the machine: what `change_password_transition` says for
/// the state and the event. The state that is handed back is `None` once the
/// request is over.
pub fn change_password(state: ChangePasswordState, event: ChangePasswordEvent) -> (step: Option<
    (Option<ChangePasswordState>, ChangePasswordAction),
>)
    ensures
        step_view(step) == change_password_transition(state@, event@),
{
    match (state, event) {
        (ChangePasswordState::Received, ChangePasswordEvent::Submitted(form)) => {
            let FormData { current_password, new_password, new_password_check } = form;
            if !text_equals(new_password.expose(), new_password_check.expose()) {
                return Some((None, turn_down(PASSWORDS_DIFFER)));
            }
            let length = new_password.expose().as_bytes().len();
            if length < MIN_PASSWORD_LENGTH || length > MAX_PASSWORD_LENGTH {
                return Some((None, turn_down(PASSWORD_LENGTH)));
            }
            Some(
                (
                    Some(ChangePasswordState::FindingUsername { current_password, new_password }),
                    ChangePasswordAction::FindUsername,
                ),
            )
        },
        (
            ChangePasswordState::FindingUsername { current_password, new_password },
            ChangePasswordEvent::UsernameFound(found),
        ) => match found {
            Some(username) => Some(
                (
                    Some(ChangePasswordState::Validating { new_password }),
                    ChangePasswordAction::ValidateCredentials(
                        Credentials { username, password: current_password },
                    ),
                ),
            ),
            None => Some((None, fail(USERNAME_FAILED))),
        },
        (ChangePasswordState::Validating { new_password }, ChangePasswordEvent::Validated(verdict)) => {
            match verdict {
                Ok(()) => Some(
                    (
                        Some(ChangePasswordState::Storing),
                        ChangePasswordAction::StorePassword(new_password),
                    ),
                ),
                Err(AuthError::InvalidCredentials) => Some((None, turn_down(PASSWORD_INCORRECT))),
                Err(AuthError::UnexpectedError) => Some((None, fail(VALIDATION_FAILED))),
            }
        },
        (ChangePasswordState::Storing, ChangePasswordEvent::Stored(stored)) => {
            if stored {
                Some((None, turn_down(PASSWORD_CHANGED)))
            } else {
                Some((None, fail(STORE_FAILED)))
            }
        },
        _ => None,
    }
}

} // verus!

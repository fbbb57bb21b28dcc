//! What the e-mail transport is asked: the request for one e-mail, as plain
//! values. Sending it is left to the caller.

use crate::domain::SubscriberEmail;
use crate::secret::Secret;
use vstd::prelude::*;

verus! {

/// The route of the transport that takes e-mails, relative to its base
/// address.
pub const EMAIL_ROUTE: &'static str = "v1/email";

/// The scheme of the transport's authentication.
pub const BEARER: &'static str = "Bearer ";

/// An address in a request to the transport.
#[derive(Debug)]
pub struct EmailUnit<'a> {
    pub email: &'a str,
}

impl<'a> EmailUnit<'a> {
    /// The address `email` as a unit of a request.
    pub fn new(email: &'a str) -> (unit: Self)
        ensures
            unit.email@ == email@,
    {
        Self { email }
    }
}

/// The body of a request to the transport.
#[derive(Debug)]
pub struct SendEmailRequest<'a> {
    pub from: EmailUnit<'a>,
    pub to: Vec<EmailUnit<'a>>,
    pub subject: &'a str,
    pub html: &'a str,
    pub text: &'a str,
}

/// The request that has `sender` send one e-mail to `recipient`.
pub fn send_email_request<'a>(
    sender: &'a SubscriberEmail,
    recipient: &'a SubscriberEmail,
    subject: &'a str,
    html_content: &'a str,
    text_content: &'a str,
) -> (request: SendEmailRequest<'a>)
    ensures
        request.from.email@ == sender@,
        request.to@.len() == 1,
        request.to@[0].email@ == recipient@,
        request.subject@ == subject@,
        request.html@ == html_content@,
        request.text@ == text_content@,
{
    let mut to: Vec<EmailUnit<'a>> = Vec::new();
    to.push(EmailUnit::new(recipient.as_ref()));
    SendEmailRequest {
        from: EmailUnit::new(sender.as_ref()),
        to,
        subject,
        html: html_content,
        text: text_content,
    }
}

/// The value of the `Authorization` header for the transport: the word
/// `Bearer`, a space, the token. It is a secret as the token is.
pub fn authorization_header(auth_token: &Secret) -> (value: Secret)
    ensures
        value@ == BEARER@ + auth_token@,
{
    let mut value = String::from_str(BEARER);
    value.append(auth_token.expose());
    Secret::new(value)
}

/// Why the transport did not take an e-mail.
#[derive(Clone, Copy, Debug, PartialEq, Eq, Structural)]
pub enum SendError {
    /// The transport will never take this e-mail.
    Permanent,
    /// The transport could not be reached or failed; a later try may succeed.
    Transient,
}

impl SendError {
    /// The kind of failure that a transport's answer stands for: an answer
    /// with a status from 400 to 499 says that the e-mail itself is refused;
    /// any other status, or no answer at all, may not come again.
    pub open spec fn of_status(status: Option<u16>) -> SendError {
        match status {
            Some(code) if 400 <= code <= 499 => SendError::Permanent,
            _ => SendError::Transient,
        }
    }

    /// The kind of failure that the status of the transport's answer, if
    /// there was an answer, stands for.
    pub fn from_status(status: Option<u16>) -> (e: SendError)
        ensures
            e == Self::of_status(status),
    {
        match status {
            Some(code) => if 400 <= code && code <= 499 {
                SendError::Permanent
            } else {
                SendError::Transient
            },
            None => SendError::Transient,
        }
    }
}

} // verus!

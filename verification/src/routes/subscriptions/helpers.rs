use vstd::prelude::*;

verus! {

/// The fixed parts of the plain-text body of the confirmation e-mail.
pub const EMAIL_TEXT_OPENING: &'static str = "\n        🎉 Welcome, ";

pub const EMAIL_TEXT_MIDDLE: &'static str =
    "!\n\n        Thank you for subscribing!\n\n        To start receiving updates, please confirm your subscription by clicking the link below:\n\n        ";

pub const EMAIL_TEXT_CLOSING: &'static str =
    "\n\n        If you did not request this subscription, you can safely ignore this email.\n    ";

/// The route that confirms, up to the token.
pub const CONFIRMATION_PATH: &'static str = "/subscriptions/confirm?subscription_token=";

/// The plain-text body of the confirmation e-mail.
pub open spec fn email_text(name: Seq<char>, link: Seq<char>) -> Seq<char> {
    EMAIL_TEXT_OPENING@ + name + EMAIL_TEXT_MIDDLE@ + link + EMAIL_TEXT_CLOSING@
}

/// The plain-text body of the confirmation e-mail for `name`, with `link`
/// to follow.
pub fn get_email_text(name: &str, link: &str) -> (text: String)
    ensures
        text@ == email_text(name@, link@),
{
    let mut text = String::from_str(EMAIL_TEXT_OPENING);
    text.append(name);
    text.append(EMAIL_TEXT_MIDDLE);
    text.append(link);
    text.append(EMAIL_TEXT_CLOSING);
    text
}

/// The link a subscriber follows to confirm.
pub open spec fn confirmation_link_text(base_url: Seq<char>, token: Seq<char>) -> Seq<char> {
    base_url + CONFIRMATION_PATH@ + token
}

/// The link that confirms with `confirmation_token`.
pub fn confirmation_link(base_url: &str, confirmation_token: &str) -> (link: String)
    ensures
        link@ == confirmation_link_text(base_url@, confirmation_token@),
{
    let mut link = base_url.to_owned();
    link.append(CONFIRMATION_PATH);
    link.append(confirmation_token);
    link
}

} // verus!

use crate::domain::SubscriberEmail;
use vstd::prelude::*;

verus! {

/// The form with which a newsletter issue is published.
#[derive(Debug)]
pub struct BodySchema {
    pub title: String,
    pub text: String,
    pub html: String,
    pub idempotency_key: String,
}

/// What a `BodySchema` holds, as mathematics.
pub struct BodySchemaView {
    pub title: Seq<char>,
    pub text: Seq<char>,
    pub html: Seq<char>,
    pub idempotency_key: Seq<char>,
}

impl View for BodySchema {
    type V = BodySchemaView;

    open spec fn view(&self) -> BodySchemaView {
        BodySchemaView {
            title: self.title@,
            text: self.text@,
            html: self.html@,
            idempotency_key: self.idempotency_key@,
        }
    }
}

/// Which field of the form is missing: the first of title, text, HTML and
/// idempotency key that is not there.
pub open spec fn missing_field(
    title: Option<String>,
    text: Option<String>,
    html: Option<String>,
    idempotency_key: Option<String>,
) -> Option<Seq<char>> {
    if title is None {
        Some("missing field `title`"@)
    } else if text is None {
        Some("missing field `text`"@)
    } else if html is None {
        Some("missing field `html`"@)
    } else if idempotency_key is None {
        Some("missing field `idempotency_key`"@)
    } else {
        None
    }
}

impl BodySchema {
    /// The form made of its four fields, each of which must be there. The
    /// error names the first that is not.
    pub fn from_fields(
        title: Option<String>,
        text: Option<String>,
        html: Option<String>,
        idempotency_key: Option<String>,
    ) -> (r: Result<BodySchema, String>)
        ensures
            match missing_field(title, text, html, idempotency_key) {
                Some(message) => r matches Err(m) && m@ == message,
                None => r matches Ok(body) && body@ == (BodySchemaView {
                    title: title->0@,
                    text: text->0@,
                    html: html->0@,
                    idempotency_key: idempotency_key->0@,
                }),
            },
    {
        let title = match title {
            Some(title) => title,
            None => {
                return Err(String::from_str("missing field `title`"));
            },
        };
        let text = match text {
            Some(text) => text,
            None => {
                return Err(String::from_str("missing field `text`"));
            },
        };
        let html = match html {
            Some(html) => html,
            None => {
                return Err(String::from_str("missing field `html`"));
            },
        };
        let idempotency_key = match idempotency_key {
            Some(idempotency_key) => idempotency_key,
            None => {
                return Err(String::from_str("missing field `idempotency_key`"));
            },
        };
        Ok(BodySchema { title, text, html, idempotency_key })
    }
}

/// A subscriber who has confirmed and whose stored address is valid.
pub struct ConfirmedSubscriber {
    pub email: SubscriberEmail,
}

} // verus!

//! Subscribing: a new subscriber is stored, pending confirmation, once the
//! confirmation e-mail has gone out; one who is still pending is sent the
//! e-mail again; one who has confirmed is turned down.

use super::errors::{SubscribeError, SubscribeErrorView};
use super::helpers::{confirmation_link, confirmation_link_text, email_text, get_email_text};
use super::store::{
    get_stored_confirmation_token, insert_subscriber_with_id, pending_subscriber, store_token,
    try_find_subscriber_by_email,
};
use crate::domain::confirmation_token::{is_acceptable_token, is_generated_token, ConfirmationToken};
use crate::domain::subscriber_email::is_valid_email;
use crate::domain::subscriber_name::is_valid_name;
use crate::domain::{NewSubscriber, SubscriberEmail, SubscriberName};
use crate::email_client::SendError;
use crate::response::{Response, ResponseView, CONFLICT, OK};
use crate::startup::ApplicationBaseURL;
use crate::store::ids::{is_random_uuid, new_uuid};
use crate::store::rows::SubscriptionStatus;
use crate::store::tables::{Store, StoreView};
use vstd::prelude::*;

verus! {

/// The subject of the confirmation e-mail.
pub const CONFIRMATION_SUBJECT: &'static str = "HELLO!";

/// What the log is told when a step of a subscription request fails.
pub const READ_FAILED: &'static str = "Failed to read data from database.";

pub const INSERT_FAILED: &'static str = "Failed to insert a new subscriber in the database.";

pub const STORE_TOKEN_FAILED: &'static str =
    "Failed to store the confirmation token for a new subscriber.";

pub const SEND_FAILED: &'static str = "Failed to send a confirmation email.";

/// The subscription form.
#[derive(Debug)]
pub struct FormData {
    pub name: String,
    pub email: String,
}

/// What a `FormData` holds, as mathematics.
pub struct FormDataView {
    pub name: Seq<char>,
    pub email: Seq<char>,
}

impl View for FormData {
    type V = FormDataView;

    open spec fn view(&self) -> FormDataView {
        FormDataView { name: self.name@, email: self.email@ }
    }
}

impl TryFrom<FormData> for NewSubscriber {
    type Error = String;

    /// Validates the two fields of the form, the name first.
    fn try_from(form: FormData) -> (r: Result<NewSubscriber, String>)
        ensures
            r is Ok <==> is_valid_name(form.name@) && is_valid_email(form.email@),
            r matches Ok(subscriber) ==> subscriber.name@ == form.name@ && subscriber.email@
                == form.email@,
            r matches Err(message) ==> message@ == (if !is_valid_name(form.name@) {
                SubscriberName::rejection(form.name@)
            } else {
                SubscriberEmail::rejection(form.email@)
            }),
    {
        NewSubscriber::parse(form.name, form.email)
    }
}

impl vstd::std_specs::convert::TryFromSpecImpl<FormData> for NewSubscriber {
    open spec fn obeys_try_from_spec() -> bool {
        false
    }

    open spec fn try_from_spec(form: FormData) -> Result<Self, String> {
        Err(form.name)
    }
}

/// The e-mail that asks a subscriber to confirm. Its HTML body is rendered
/// from `name` and `confirmation_link` by whoever sends it.
#[derive(Debug)]
pub struct ConfirmationEmail {
    pub recipient: SubscriberEmail,
    pub name: SubscriberName,
    pub subject: String,
    pub confirmation_link: String,
    pub text_content: String,
}

/// What a `ConfirmationEmail` holds, as mathematics.
pub struct ConfirmationEmailView {
    pub recipient: Seq<char>,
    pub name: Seq<char>,
    pub subject: Seq<char>,
    pub confirmation_link: Seq<char>,
    pub text_content: Seq<char>,
}

impl View for ConfirmationEmail {
    type V = ConfirmationEmailView;

    open spec fn view(&self) -> ConfirmationEmailView {
        ConfirmationEmailView {
            recipient: self.recipient@,
            name: self.name@,
            subject: self.subject@,
            confirmation_link: self.confirmation_link@,
            text_content: self.text_content@,
        }
    }
}

/// The confirmation e-mail for the subscriber of `form` with `token`.
pub open spec fn confirmation_email(
    form: FormDataView,
    base_url: Seq<char>,
    token: Seq<char>,
) -> ConfirmationEmailView {
    ConfirmationEmailView {
        recipient: form.email,
        name: form.name,
        subject: CONFIRMATION_SUBJECT@,
        confirmation_link: confirmation_link_text(base_url, token),
        text_content: email_text(form.name, confirmation_link_text(base_url, token)),
    }
}

/// A subscriber and a token that are stored once the e-mail has gone out.
#[derive(Debug)]
pub struct NewSubscription {
    pub subscriber_id: u128,
    pub subscriber: NewSubscriber,
    pub subscribed_at: u64,
    pub confirmation_token: ConfirmationToken,
}

/// What a `NewSubscription` holds, as mathematics.
pub struct NewSubscriptionView {
    pub subscriber_id: u128,
    pub email: Seq<char>,
    pub name: Seq<char>,
    pub subscribed_at: u64,
    pub confirmation_token: Seq<char>,
}

impl View for NewSubscription {
    type V = NewSubscriptionView;

    open spec fn view(&self) -> NewSubscriptionView {
        NewSubscriptionView {
            subscriber_id: self.subscriber_id,
            email: self.subscriber.email@,
            name: self.subscriber.name@,
            subscribed_at: self.subscribed_at,
            confirmation_token: self.confirmation_token@,
        }
    }
}

/// The view of a subscription that may not be pending.
pub open spec fn subscription_view(pending: Option<NewSubscription>) -> Option<NewSubscriptionView> {
    match pending {
        Some(p) => Some(p@),
        None => None,
    }
}

/// What is to be done about a subscription request.
#[derive(Debug)]
pub enum SubscribeStep {
    /// Answer with this response; nothing else is to be done.
    Respond(Response),
    /// Answer with this error; nothing else is to be done.
    Fail(SubscribeError),
    /// Send `email`, then report to `finish_subscribe` how that went, with
    /// `pending` as it is here.
    SendConfirmation { email: ConfirmationEmail, pending: Option<NewSubscription> },
}

/// What a `SubscribeStep` holds, as mathematics.
pub enum SubscribeStepView {
    Respond(ResponseView),
    Fail(SubscribeErrorView),
    SendConfirmation { email: ConfirmationEmailView, pending: Option<NewSubscriptionView> },
}

impl View for SubscribeStep {
    type V = SubscribeStepView;

    open spec fn view(&self) -> SubscribeStepView {
        match self {
            SubscribeStep::Respond(response) => SubscribeStepView::Respond(response@),
            SubscribeStep::Fail(e) => SubscribeStepView::Fail(e@),
            SubscribeStep::SendConfirmation { email, pending } => SubscribeStepView::SendConfirmation {
                email: email@,
                pending: subscription_view(*pending),
            },
        }
    }
}

impl StoreView {
    /// What is to be done about the subscription request `form`, should it
    /// be a new subscriber's, with `subscriber_id` and `token` at hand for
    /// that case.
    ///
    /// The name is validated first, the address second. Someone who has
    /// confirmed is answered `409`. Someone still pending is sent the stored
    /// token again. A new subscriber is sent `token`, unless the store would
    /// refuse the subscriber or the token.
    pub open spec fn subscribe(
        self,
        form: FormDataView,
        base_url: Seq<char>,
        subscriber_id: u128,
        token: Seq<char>,
        subscribed_at: u64,
    ) -> SubscribeStepView {
        if !is_valid_name(form.name) {
            SubscribeStepView::Fail(
                SubscribeErrorView::ValidationError(SubscriberName::rejection(form.name)),
            )
        } else if !is_valid_email(form.email) {
            SubscribeStepView::Fail(
                SubscribeErrorView::ValidationError(SubscriberEmail::rejection(form.email)),
            )
        } else {
            match self.subscriber_by_email(form.email) {
                Some(existing) => if existing.status != SubscriptionStatus::PendingConfirmation {
                    SubscribeStepView::Respond(ResponseView::bare(CONFLICT))
                } else {
                    match self.stored_token(existing.id) {
                        None => SubscribeStepView::Fail(
                            SubscribeErrorView::UnexpectedError(READ_FAILED@),
                        ),
                        Some(stored) => if !is_acceptable_token(stored) {
                            SubscribeStepView::Fail(
                                SubscribeErrorView::ValidationError(
                                    ConfirmationToken::rejection(stored),
                                ),
                            )
                        } else {
                            SubscribeStepView::SendConfirmation {
                                email: confirmation_email(form, base_url, stored),
                                pending: None,
                            }
                        },
                    }
                },
                None => if self.has_subscriber(subscriber_id) {
                    SubscribeStepView::Fail(SubscribeErrorView::UnexpectedError(INSERT_FAILED@))
                } else if self.with_subscriber(
                    pending_subscriber(subscriber_id, form.email, form.name, subscribed_at),
                ).store_token_obstacle(subscriber_id, token) is Some {
                    SubscribeStepView::Fail(SubscribeErrorView::UnexpectedError(STORE_TOKEN_FAILED@))
                } else {
                    SubscribeStepView::SendConfirmation {
                        email: confirmation_email(form, base_url, token),
                        pending: Some(
                            NewSubscriptionView {
                                subscriber_id,
                                email: form.email,
                                name: form.name,
                                subscribed_at,
                                confirmation_token: token,
                            },
                        ),
                    }
                },
            }
        }
    }

    /// How a subscription request ends once the transport has come back, and
    /// what the store then holds: a new subscriber is stored, with the
    /// token, only if the e-mail went out and the store takes both.
    pub open spec fn finish_subscribe(
        self,
        pending: Option<NewSubscriptionView>,
        sent: bool,
    ) -> (StoreView, Result<ResponseView, SubscribeErrorView>) {
        if !sent {
            (self, Err(SubscribeErrorView::UnexpectedError(SEND_FAILED@)))
        } else {
            match pending {
                None => (self, Ok(ResponseView::bare(OK))),
                Some(p) => {
                    let row = pending_subscriber(p.subscriber_id, p.email, p.name, p.subscribed_at);
                    if self.insert_subscriber_obstacle(p.subscriber_id, p.email) is Some {
                        (self, Err(SubscribeErrorView::UnexpectedError(INSERT_FAILED@)))
                    } else if self.with_subscriber(row).store_token_obstacle(
                        p.subscriber_id,
                        p.confirmation_token,
                    ) is Some {
                        (self, Err(SubscribeErrorView::UnexpectedError(STORE_TOKEN_FAILED@)))
                    } else {
                        (
                            self.with_subscriber(row).with_token(
                                p.subscriber_id,
                                p.confirmation_token,
                            ),
                            Ok(ResponseView::bare(OK)),
                        )
                    }
                },
            }
        }
    }
}

fn compose_email(
    new_subscriber: &NewSubscriber,
    base_url: &ApplicationBaseURL,
    confirmation_token: &str,
) -> (email: ConfirmationEmail)
    ensures
        email@ == confirmation_email(
            FormDataView { name: new_subscriber.name@, email: new_subscriber.email@ },
            base_url@,
            confirmation_token@,
        ),
{
    let link = confirmation_link(base_url.0.as_str(), confirmation_token);
    let text_content = get_email_text(new_subscriber.name.as_ref(), link.as_str());
    let recipient = new_subscriber.email.clone();
    ConfirmationEmail {
        recipient,
        name: new_subscriber.name.clone(),
        subject: String::from_str(CONFIRMATION_SUBJECT),
        confirmation_link: link,
        text_content,
    }
}

/// Decides what is to be done about a subscription request, with the id and
/// the token for a new subscriber given.
pub fn subscribe_with(
    store: &Store,
    form: FormData,
    base_url: &ApplicationBaseURL,
    subscriber_id: u128,
    confirmation_token: ConfirmationToken,
    subscribed_at: u64,
) -> (step: SubscribeStep)
    requires
        store@.wf(),
    ensures
        step@ == store@.subscribe(
            form@,
            base_url@,
            subscriber_id,
            confirmation_token@,
            subscribed_at,
        ),
{
    let new_subscriber = match NewSubscriber::try_from(form) {
        Ok(new_subscriber) => new_subscriber,
        Err(message) => {
            return SubscribeStep::Fail(SubscribeError::ValidationError(message));
        },
    };
    match try_find_subscriber_by_email(store, &new_subscriber.email) {
        Some((id, status)) => {
            if status != SubscriptionStatus::PendingConfirmation {
                return SubscribeStep::Respond(Response::bare(CONFLICT));
            }
            let token_string = match get_stored_confirmation_token(store, id) {
                Some(token_string) => token_string,
                None => {
                    return SubscribeStep::Fail(
                        SubscribeError::UnexpectedError(String::from_str(READ_FAILED)),
                    );
                },
            };
            let stored_token = match ConfirmationToken::parse(token_string) {
                Ok(token) => token,
                Err(message) => {
                    return SubscribeStep::Fail(SubscribeError::ValidationError(message));
                },
            };
            let email = compose_email(&new_subscriber, base_url, stored_token.as_ref());
            SubscribeStep::SendConfirmation { email, pending: None }
        },
        None => {
            if store.find_subscriber(subscriber_id).is_some() {
                return SubscribeStep::Fail(
                    SubscribeError::UnexpectedError(String::from_str(INSERT_FAILED)),
                );
            }
            if store.find_token(confirmation_token.as_ref()).is_some() {
                return SubscribeStep::Fail(
                    SubscribeError::UnexpectedError(String::from_str(STORE_TOKEN_FAILED)),
                );
            }
            proof {
                let row = pending_subscriber(
                    subscriber_id,
                    form.email@,
                    form.name@,
                    subscribed_at,
                );
                let t = store@.with_subscriber(row);
                assert(t.subscribers[store@.subscribers.len() as int].id == subscriber_id);
                assert(!crate::store::tables::contains_token_of(t.tokens, subscriber_id)) by {
                    if crate::store::tables::contains_token_of(t.tokens, subscriber_id) {
                        let i = super::store::index_of_token_of(t.tokens, subscriber_id);
                        assert(store@.has_subscriber(store@.tokens[i].subscriber_id));
                    }
                }
            }
            let email = compose_email(&new_subscriber, base_url, confirmation_token.as_ref());
            SubscribeStep::SendConfirmation {
                email,
                pending: Some(
                    NewSubscription {
                        subscriber_id,
                        subscriber: new_subscriber,
                        subscribed_at,
                        confirmation_token,
                    },
                ),
            }
        },
    }
}

/// Decides what is to be done about a subscription request, with a fresh
/// random id and a fresh random token for a new subscriber: what
/// `subscribe_with` does for the two that were drawn.
pub fn subscribe(
    store: &Store,
    form: FormData,
    base_url: &ApplicationBaseURL,
    subscribed_at: u64,
) -> (step: SubscribeStep)
    requires
        store@.wf(),
    ensures
        exists|subscriber_id: u128, token: Seq<char>|
            is_random_uuid(subscriber_id) && is_generated_token(token) && step@
                == #[trigger] store@.subscribe(
                form@,
                base_url@,
                subscriber_id,
                token,
                subscribed_at,
            ),
{
    let subscriber_id = new_uuid();
    let confirmation_token = ConfirmationToken::new();
    subscribe_with(store, form, base_url, subscriber_id, confirmation_token, subscribed_at)
}

/// Ends a subscription request once the transport has come back.
pub fn finish_subscribe(
    store: &mut Store,
    pending: Option<NewSubscription>,
    sent: Result<(), SendError>,
) -> (r: Result<Response, SubscribeError>)
    requires
        old(store)@.wf(),
    ensures
        final(store)@.wf(),
        final(store)@ == old(store)@.finish_subscribe(subscription_view(pending), sent is Ok).0,
        match old(store)@.finish_subscribe(subscription_view(pending), sent is Ok).1 {
            Ok(response) => r matches Ok(answer) && answer@ == response,
            Err(e) => r matches Err(error) && error@ == e,
        },
{
    if sent.is_err() {
        return Err(SubscribeError::UnexpectedError(String::from_str(SEND_FAILED)));
    }
    let pending = match pending {
        Some(pending) => pending,
        None => {
            return Ok(Response::bare(OK));
        },
    };
    if insert_subscriber_with_id(
        store,
        pending.subscriber_id,
        &pending.subscriber,
        pending.subscribed_at,
    ).is_err() {
        return Err(SubscribeError::UnexpectedError(String::from_str(INSERT_FAILED)));
    }
    if store_token(store, pending.subscriber_id, pending.confirmation_token.as_ref()).is_err() {
        store.pop_subscriber();
        assert(store@.subscribers =~= old(store)@.subscribers);
        return Err(SubscribeError::UnexpectedError(String::from_str(STORE_TOKEN_FAILED)));
    }
    Ok(Response::bare(OK))
}

} // verus!

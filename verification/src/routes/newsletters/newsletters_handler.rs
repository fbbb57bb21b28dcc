//! Publishing through the API: who is written to, and in which batches.

use super::errors::PublishError;
use super::helpers::{basic_auth, header_credentials, Credentials};
use super::types::BodySchema;
use crate::domain::subscriber_email::{is_valid_email, SubscriberEmail};
use crate::response::{Response, ResponseView, OK};
use crate::routes::admin::newsletters::types::ConfirmedSubscriber;
use crate::store::rows::{SubscriberView, SubscriptionStatus};
use crate::store::tables::Store;
use vstd::prelude::*;

verus! {

/// So many recipients at most are handed to the transport at once.
pub const BATCH_SIZE: usize = 50;

/// A confirmed subscriber as read from the store: the address, or why the
/// stored address cannot be used.
pub open spec fn confirmed_row(subscriber: SubscriberView) -> Result<Seq<char>, Seq<char>> {
    if is_valid_email(subscriber.email) {
        Ok(subscriber.email)
    } else {
        Err(SubscriberEmail::rejection(subscriber.email))
    }
}

/// The confirmed subscribers among `subscribers`, in the order of the table.
pub open spec fn confirmed_rows(subscribers: Seq<SubscriberView>) -> Seq<
    Result<Seq<char>, Seq<char>>,
>
    decreases subscribers.len(),
{
    if subscribers.len() == 0 {
        Seq::empty()
    } else {
        let earlier = confirmed_rows(subscribers.drop_last());
        if subscribers.last().status == SubscriptionStatus::Confirmed {
            earlier.push(confirmed_row(subscribers.last()))
        } else {
            earlier
        }
    }
}

/// The view of a confirmed subscriber as read from the store.
pub open spec fn row_view(row: Result<ConfirmedSubscriber, String>) -> Result<Seq<char>, Seq<char>> {
    match row {
        Ok(subscriber) => Ok(subscriber.email@),
        Err(message) => Err(message@),
    }
}

/// The views of confirmed subscribers as read from the store, in order.
pub open spec fn row_views(rows: Seq<Result<ConfirmedSubscriber, String>>) -> Seq<
    Result<Seq<char>, Seq<char>>,
> {
    rows.map_values(|row: Result<ConfirmedSubscriber, String>| row_view(row))
}

/// Reads the confirmed subscribers. One whose stored address is no e-mail
/// address is reported as an error, in its place.
pub fn get_confirmed_subscribers(store: &Store) -> (rows: Vec<Result<ConfirmedSubscriber, String>>)
    ensures
        row_views(rows@) == confirmed_rows(store@.subscribers),
{
    let mut rows: Vec<Result<ConfirmedSubscriber, String>> = Vec::new();
    let mut i: usize = 0;
    assert(row_views(rows@) =~= Seq::empty());
    assert(store@.subscribers.take(0) =~= Seq::empty());
    while i < store.subscriber_count()
        invariant
            i <= store@.subscribers.len(),
            row_views(rows@) == confirmed_rows(store@.subscribers.take(i as int)),
        decreases store@.subscribers.len() - i,
    {
        let subscriber = store.subscriber(i);
        proof {
            assert(store@.subscribers.take(i + 1).drop_last() =~= store@.subscribers.take(i as int));
        }
        if subscriber.status == SubscriptionStatus::Confirmed {
            let row = match SubscriberEmail::parse(subscriber.email.clone()) {
                Ok(email) => Ok(ConfirmedSubscriber { email }),
                Err(message) => Err(message),
            };
            let ghost before = rows@;
            rows.push(row);
            assert(row_views(rows@) =~= row_views(before).push(row_view(row)));
        }
        i = i + 1;
    }
    assert(store@.subscribers.take(i as int) =~= store@.subscribers);
    rows
}

/// The addresses among `rows`, in order; the errors are skipped.
pub open spec fn recipients(rows: Seq<Result<Seq<char>, Seq<char>>>) -> Seq<Seq<char>>
    decreases rows.len(),
{
    if rows.len() == 0 {
        Seq::empty()
    } else {
        let earlier = recipients(rows.drop_last());
        match rows.last() {
            Ok(email) => earlier.push(email),
            Err(_) => earlier,
        }
    }
}

/// In how many batches `n` recipients are written to.
pub open spec fn batch_count(n: int) -> int {
    (n + BATCH_SIZE - 1) / (BATCH_SIZE as int)
}

/// The batch at place `k`: `BATCH_SIZE` recipients, fewer in the last batch.
pub open spec fn batch(all: Seq<Seq<char>>, k: int) -> Seq<Seq<char>> {
    all.subrange(
        k * BATCH_SIZE,
        if (k + 1) * BATCH_SIZE <= all.len() {
            (k + 1) * BATCH_SIZE
        } else {
            all.len() as int
        },
    )
}

/// The views of addresses, in order.
pub open spec fn email_views(emails: Seq<SubscriberEmail>) -> Seq<Seq<char>> {
    emails.map_values(|email: SubscriberEmail| email@)
}

/// The subscribers whose stored address can be used, in order.
pub fn valid_recipients(subscribers: &Vec<Result<ConfirmedSubscriber, String>>) -> (emails: Vec<
    SubscriberEmail,
>)
    ensures
        email_views(emails@) == recipients(row_views(subscribers@)),
{
    let mut emails: Vec<SubscriberEmail> = Vec::new();
    let mut i: usize = 0;
    assert(email_views(emails@) =~= Seq::empty());
    assert(row_views(subscribers@.take(0)) =~= Seq::empty());
    while i < subscribers.len()
        invariant
            i <= subscribers.len(),
            email_views(emails@) == recipients(row_views(subscribers@.take(i as int))),
        decreases subscribers.len() - i,
    {
        proof {
            assert(row_views(subscribers@.take(i + 1)).drop_last() =~= row_views(
                subscribers@.take(i as int),
            ));
        }
        match &subscribers[i] {
            Ok(subscriber) => {
                let email = subscriber.email.clone();
                let ghost before = emails@;
                emails.push(email);
                assert(email_views(emails@) =~= email_views(before).push(email@));
            },
            Err(_) => {},
        }
        i = i + 1;
    }
    assert(subscribers@.take(i as int) =~= subscribers@);
    emails
}

/// Plans the sending of an issue to the confirmed subscribers: those whose
/// stored address cannot be used are skipped, and the others are written to
/// in order, `BATCH_SIZE` at a time.
pub fn send_newsletters(subscribers: &Vec<Result<ConfirmedSubscriber, String>>) -> (batches: Vec<
    Vec<SubscriberEmail>,
>)
    ensures
        batches@.len() == batch_count(recipients(row_views(subscribers@)).len() as int),
        forall|k: int|
            0 <= k < batches@.len() ==> email_views((#[trigger] batches@[k])@) == batch(
                recipients(row_views(subscribers@)),
                k,
            ),
{
    let emails = valid_recipients(subscribers);
    let ghost all = recipients(row_views(subscribers@));
    let mut batches: Vec<Vec<SubscriberEmail>> = Vec::new();
    let mut start: usize = 0;
    while start < emails.len()
        invariant
            email_views(emails@) == all,
            start <= emails.len(),
            start == batches@.len() * BATCH_SIZE || start == emails.len(),
            batches@.len() == batch_count(start as int),
            forall|k: int|
                0 <= k < batches@.len() ==> email_views((#[trigger] batches@[k])@) == batch(all, k),
        decreases emails.len() - start,
    {
        let end = if emails.len() - start > BATCH_SIZE {
            start + BATCH_SIZE
        } else {
            emails.len()
        };
        let mut current: Vec<SubscriberEmail> = Vec::new();
        let mut j: usize = start;
        while j < end
            invariant
                email_views(emails@) == all,
                start <= j <= end <= emails.len(),
                current@.len() == j - start,
                forall|m: int|
                    0 <= m < current@.len() ==> (#[trigger] current@[m])@ == all[start + m],
            decreases end - j,
        {
            let email = emails[j].clone();
            assert(email@ == email_views(emails@)[j as int]);
            current.push(email);
            j = j + 1;
        }
        proof {
            let k = batches@.len() as int;
            assert(start == k * BATCH_SIZE);
            assert(email_views(current@) =~= batch(all, k));
        }
        batches.push(current);
        start = end;
    }
    batches
}

/// What is to be sent for an issue published through the API, and on whose
/// word.
pub struct Publication {
    pub credentials: Credentials,
    pub batches: Vec<Vec<SubscriberEmail>>,
    pub subject: String,
    pub html: String,
    pub text: String,
}

/// Plans the publication of an issue through the API. The caller must
/// present credentials; the issue then goes to the confirmed subscribers whose
/// stored address can be used, in batches.
pub fn publish_newsletter(store: &Store, authorization: Option<&[u8]>, body: BodySchema) -> (r:
    Result<Publication, PublishError>)
    ensures
        match header_credentials(
            match authorization {
                Some(bytes) => Some(bytes@),
                None => None,
            },
        ) {
            Err(e) => r matches Err(PublishError::AuthError(message)) && message@ == e.text(),
            Ok((username, password)) => {
                &&& r matches Ok(publication)
                &&& publication.credentials.username@ == username
                &&& publication.credentials.password@ == password
                &&& publication.subject@ == body.title@
                &&& publication.html@ == body.content.html@
                &&& publication.text@ == body.content.text@
                &&& publication.batches@.len() == batch_count(
                    recipients(confirmed_rows(store@.subscribers)).len() as int,
                )
                &&& forall|k: int|
                    0 <= k < publication.batches@.len() ==> email_views(
                        (#[trigger] publication.batches@[k])@,
                    ) == batch(recipients(confirmed_rows(store@.subscribers)), k)
            },
        },
{
    let credentials = match basic_auth(authorization) {
        Ok(credentials) => credentials,
        Err(e) => {
            return Err(PublishError::AuthError(e.message()));
        },
    };
    let confirmed_subscribers = get_confirmed_subscribers(store);
    let batches = send_newsletters(&confirmed_subscribers);
    let BodySchema { title, content } = body;
    Ok(Publication { credentials, batches, subject: title, html: content.html, text: content.text })
}

/// How the publication of an issue through the API ends: `200` if every
/// batch went out, an unexpected error naming the batch that did not.
pub fn finish_publication(failed_batch: Option<usize>) -> (r: Result<Response, PublishError>)
    ensures
        match failed_batch {
            None => r matches Ok(response) && response@ == ResponseView::bare(OK),
            Some(_) => r matches Err(PublishError::UnexpectedError(message)) && message@
                == SEND_FAILED@,
        },
{
    match failed_batch {
        None => Ok(Response::bare(OK)),
        Some(_) => Err(PublishError::UnexpectedError(String::from_str(SEND_FAILED))),
    }
}

/// What the log is told when a batch did not go out.
pub const SEND_FAILED: &'static str = "Failed to send newsletter issue";

} // verus!

//! The rows of the five tables, each with its mathematical view.

use crate::response::{Response, ResponseView};
use vstd::prelude::*;

verus! {

/// Whether a subscriber has confirmed the subscription.
#[derive(Clone, Copy, Debug, PartialEq, Eq, Structural)]
pub enum SubscriptionStatus {
    PendingConfirmation,
    Confirmed,
}

/// A row of `subscriptions`.
#[derive(Debug)]
pub struct Subscriber {
    pub id: u128,
    pub email: String,
    pub name: String,
    pub subscribed_at: u64,
    pub status: SubscriptionStatus,
}

/// What a `Subscriber` holds, as mathematics.
pub struct SubscriberView {
    pub id: u128,
    pub email: Seq<char>,
    pub name: Seq<char>,
    pub subscribed_at: u64,
    pub status: SubscriptionStatus,
}

impl View for Subscriber {
    type V = SubscriberView;

    open spec fn view(&self) -> SubscriberView {
        SubscriberView {
            id: self.id,
            email: self.email@,
            name: self.name@,
            subscribed_at: self.subscribed_at,
            status: self.status,
        }
    }
}

impl Clone for Subscriber {
    fn clone(&self) -> (copy: Self)
        ensures
            copy@ == self@,
    {
        Subscriber {
            id: self.id,
            email: self.email.clone(),
            name: self.name.clone(),
            subscribed_at: self.subscribed_at,
            status: self.status,
        }
    }
}

/// A row of `subscription_tokens`.
#[derive(Debug)]
pub struct SubscriptionToken {
    pub subscription_token: String,
    pub subscriber_id: u128,
}

/// What a `SubscriptionToken` holds, as mathematics.
pub struct SubscriptionTokenView {
    pub subscription_token: Seq<char>,
    pub subscriber_id: u128,
}

impl View for SubscriptionToken {
    type V = SubscriptionTokenView;

    open spec fn view(&self) -> SubscriptionTokenView {
        SubscriptionTokenView {
            subscription_token: self.subscription_token@,
            subscriber_id: self.subscriber_id,
        }
    }
}

/// A row of `newsletter_issues`: one accepted publication. Never changed once
/// written.
#[derive(Debug)]
pub struct NewsletterIssue {
    pub newsletter_issue_id: u128,
    pub title: String,
    pub text_content: String,
    pub html_content: String,
    pub published_at: u64,
}

/// What a `NewsletterIssue` holds, as mathematics.
pub struct NewsletterIssueView {
    pub newsletter_issue_id: u128,
    pub title: Seq<char>,
    pub text_content: Seq<char>,
    pub html_content: Seq<char>,
    pub published_at: u64,
}

impl View for NewsletterIssue {
    type V = NewsletterIssueView;

    open spec fn view(&self) -> NewsletterIssueView {
        NewsletterIssueView {
            newsletter_issue_id: self.newsletter_issue_id,
            title: self.title@,
            text_content: self.text_content@,
            html_content: self.html_content@,
            published_at: self.published_at,
        }
    }
}

impl Clone for NewsletterIssue {
    fn clone(&self) -> (copy: Self)
        ensures
            copy@ == self@,
    {
        NewsletterIssue {
            newsletter_issue_id: self.newsletter_issue_id,
            title: self.title.clone(),
            text_content: self.text_content.clone(),
            html_content: self.html_content.clone(),
            published_at: self.published_at,
        }
    }
}

/// A row of `idempotency`. `response` is `None` while the request that
/// claimed the key is still being processed.
#[derive(Debug)]
pub struct IdempotencyRecord {
    pub user_id: u128,
    pub idempotency_key: String,
    pub response: Option<Response>,
}

/// What a `IdempotencyRecord` holds, as mathematics.
pub struct IdempotencyRecordView {
    pub user_id: u128,
    pub idempotency_key: Seq<char>,
    pub response: Option<ResponseView>,
}

impl IdempotencyRecordView {
    /// Whether this is the record of `(user_id, key)`.
    pub open spec fn is_for(self, user_id: u128, key: Seq<char>) -> bool {
        self.user_id == user_id && self.idempotency_key == key
    }
}

/// The view of a response that may not be there yet.
pub open spec fn response_view(response: Option<Response>) -> Option<ResponseView> {
    match response {
        Some(r) => Some(r@),
        None => None,
    }
}

impl View for IdempotencyRecord {
    type V = IdempotencyRecordView;

    open spec fn view(&self) -> IdempotencyRecordView {
        IdempotencyRecordView {
            user_id: self.user_id,
            idempotency_key: self.idempotency_key@,
            response: response_view(self.response),
        }
    }
}

/// A row of `issue_delivery_queue`: one issue still owed to one recipient.
/// `claimed` is set while a worker holds the row.
#[derive(Debug)]
pub struct DeliveryQueueEntry {
    pub newsletter_issue_id: u128,
    pub subscriber_email: String,
    pub claimed: bool,
}

/// What a `DeliveryQueueEntry` holds, as mathematics.
pub struct DeliveryQueueEntryView {
    pub newsletter_issue_id: u128,
    pub subscriber_email: Seq<char>,
    pub claimed: bool,
}

impl DeliveryQueueEntryView {
    /// Whether this entry owes issue `issue_id` to `email`.
    pub open spec fn is_for(self, issue_id: u128, email: Seq<char>) -> bool {
        self.newsletter_issue_id == issue_id && self.subscriber_email == email
    }
}

impl View for DeliveryQueueEntry {
    type V = DeliveryQueueEntryView;

    open spec fn view(&self) -> DeliveryQueueEntryView {
        DeliveryQueueEntryView {
            newsletter_issue_id: self.newsletter_issue_id,
            subscriber_email: self.subscriber_email@,
            claimed: self.claimed,
        }
    }
}

impl Clone for DeliveryQueueEntry {
    fn clone(&self) -> (copy: Self)
        ensures
            copy@ == self@,
    {
        DeliveryQueueEntry {
            newsletter_issue_id: self.newsletter_issue_id,
            subscriber_email: self.subscriber_email.clone(),
            claimed: self.claimed,
        }
    }
}

/// The views of a sequence of rows, in order.
pub open spec fn views<T: View>(rows: Seq<T>) -> Seq<T::V> {
    rows.map_values(|row: T| row@)
}

/// The views of rows follow the rows when one is appended.
pub proof fn lemma_views_push<T: View>(rows: Seq<T>, row: T)
    ensures
        views(rows.push(row)) == views(rows).push(row@),
{
    assert(views(rows.push(row)) =~= views(rows).push(row@));
}

/// The views of rows follow the rows when two sequences are joined.
pub proof fn lemma_views_add<T: View>(front: Seq<T>, back: Seq<T>)
    ensures
        views(front + back) == views(front) + views(back),
{
    assert(views(front + back) =~= views(front) + views(back));
}

/// The views of rows follow the rows when one is removed.
pub proof fn lemma_views_remove<T: View>(rows: Seq<T>, i: int)
    requires
        0 <= i < rows.len(),
    ensures
        views(rows.remove(i)) == views(rows).remove(i),
{
    assert(views(rows.remove(i)) =~= views(rows).remove(i));
}

/// The views of rows follow the rows when one is replaced.
pub proof fn lemma_views_update<T: View>(rows: Seq<T>, i: int, row: T)
    requires
        0 <= i < rows.len(),
    ensures
        views(rows.update(i, row)) == views(rows).update(i, row@),
{
    assert(views(rows.update(i, row)) =~= views(rows).update(i, row@));
}

} // verus!

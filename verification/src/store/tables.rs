//! The tables and the elementary operations on them. Everything else in the
//! crate reaches the rows through these operations and reasons about the
//! store through its view.

use super::rows::{
    lemma_views_add, lemma_views_push, lemma_views_remove, lemma_views_update, views,
    DeliveryQueueEntry, DeliveryQueueEntryView, IdempotencyRecord, IdempotencyRecordView,
    NewsletterIssue, NewsletterIssueView, Subscriber, SubscriberView, SubscriptionStatus,
    SubscriptionToken, SubscriptionTokenView,
};
use crate::text::text_equals;
use vstd::prelude::*;

verus! {

/// The store: five tables, rows in insertion order.
pub struct Store {
    subscribers: Vec<Subscriber>,
    tokens: Vec<SubscriptionToken>,
    issues: Vec<NewsletterIssue>,
    idempotency: Vec<IdempotencyRecord>,
    queue: Vec<DeliveryQueueEntry>,
}

/// What a store holds, as mathematics.
pub struct StoreView {
    pub subscribers: Seq<SubscriberView>,
    pub tokens: Seq<SubscriptionTokenView>,
    pub issues: Seq<NewsletterIssueView>,
    pub idempotency: Seq<IdempotencyRecordView>,
    pub queue: Seq<DeliveryQueueEntryView>,
}

impl View for Store {
    type V = StoreView;

    closed spec fn view(&self) -> StoreView {
        StoreView {
            subscribers: views(self.subscribers@),
            tokens: views(self.tokens@),
            issues: views(self.issues@),
            idempotency: views(self.idempotency@),
            queue: views(self.queue@),
        }
    }
}

/// Whether one of `issues` has the id `issue_id`.
pub open spec fn contains_issue(issues: Seq<NewsletterIssueView>, issue_id: u128) -> bool {
    exists|i: int| 0 <= i < issues.len() && (#[trigger] issues[i]).newsletter_issue_id == issue_id
}

/// Whether one of `subscribers` has the id `id`.
pub open spec fn contains_subscriber(subscribers: Seq<SubscriberView>, id: u128) -> bool {
    exists|i: int| 0 <= i < subscribers.len() && (#[trigger] subscribers[i]).id == id
}

/// Whether one of `subscribers` has the address `email`.
pub open spec fn contains_email(subscribers: Seq<SubscriberView>, email: Seq<char>) -> bool {
    exists|i: int| 0 <= i < subscribers.len() && (#[trigger] subscribers[i]).email == email
}

/// Whether one of `tokens` is the token `token`.
pub open spec fn contains_token(tokens: Seq<SubscriptionTokenView>, token: Seq<char>) -> bool {
    exists|i: int| 0 <= i < tokens.len() && (#[trigger] tokens[i]).subscription_token == token
}

/// Whether one of `tokens` belongs to the subscriber `subscriber_id`.
pub open spec fn contains_token_of(tokens: Seq<SubscriptionTokenView>, subscriber_id: u128) -> bool {
    exists|i: int| 0 <= i < tokens.len() && (#[trigger] tokens[i]).subscriber_id == subscriber_id
}

impl StoreView {
    /// A store without rows.
    pub open spec fn empty() -> StoreView {
        StoreView {
            subscribers: Seq::empty(),
            tokens: Seq::empty(),
            issues: Seq::empty(),
            idempotency: Seq::empty(),
            queue: Seq::empty(),
        }
    }

    /// Whether an issue with this id has been stored.
    pub open spec fn has_issue(self, issue_id: u128) -> bool {
        contains_issue(self.issues, issue_id)
    }

    /// Whether a subscriber with this id exists.
    pub open spec fn has_subscriber(self, id: u128) -> bool {
        contains_subscriber(self.subscribers, id)
    }

    /// The invariants of the schema: primary keys are unique, no two
    /// subscribers share an address, a subscriber has one token at most,
    /// foreign keys point at existing rows, and no issue is owed twice to one
    /// address.
    pub open spec fn wf(self) -> bool {
        &&& forall|i: int, j: int|
            0 <= i < j < self.subscribers.len() ==> (#[trigger] self.subscribers[i]).id != (
            #[trigger] self.subscribers[j]).id
        &&& forall|i: int, j: int|
            0 <= i < j < self.subscribers.len() ==> (#[trigger] self.subscribers[i]).email != (
            #[trigger] self.subscribers[j]).email
        &&& forall|i: int, j: int|
            0 <= i < j < self.tokens.len() ==> (#[trigger] self.tokens[i]).subscription_token != (
            #[trigger] self.tokens[j]).subscription_token
        &&& forall|i: int, j: int|
            0 <= i < j < self.tokens.len() ==> (#[trigger] self.tokens[i]).subscriber_id != (
            #[trigger] self.tokens[j]).subscriber_id
        &&& forall|i: int|
            0 <= i < self.tokens.len() ==> self.has_subscriber(
                (#[trigger] self.tokens[i]).subscriber_id,
            )
        &&& forall|i: int, j: int|
            0 <= i < j < self.issues.len() ==> (#[trigger] self.issues[i]).newsletter_issue_id != (
            #[trigger] self.issues[j]).newsletter_issue_id
        &&& forall|i: int, j: int|
            0 <= i < j < self.idempotency.len() ==> !(#[trigger] self.idempotency[i]).is_for(
                (#[trigger] self.idempotency[j]).user_id,
                self.idempotency[j].idempotency_key,
            )
        &&& forall|i: int|
            0 <= i < self.queue.len() ==> self.has_issue(
                (#[trigger] self.queue[i]).newsletter_issue_id,
            )
        &&& forall|i: int, j: int|
            0 <= i < j < self.queue.len() ==> !(#[trigger] self.queue[i]).is_for(
                (#[trigger] self.queue[j]).newsletter_issue_id,
                self.queue[j].subscriber_email,
            )
    }
}

impl Store {
    /// A store with no rows.
    pub fn new() -> (store: Store)
        ensures
            store@ == StoreView::empty(),
            store@.wf(),
    {
        let store = Store {
            subscribers: Vec::new(),
            tokens: Vec::new(),
            issues: Vec::new(),
            idempotency: Vec::new(),
            queue: Vec::new(),
        };
        assert(views(store.subscribers@) =~= Seq::empty());
        assert(views(store.tokens@) =~= Seq::empty());
        assert(views(store.issues@) =~= Seq::empty());
        assert(views(store.idempotency@) =~= Seq::empty());
        assert(views(store.queue@) =~= Seq::empty());
        store
    }

    /// The number of subscribers.
    pub fn subscriber_count(&self) -> (n: usize)
        ensures
            n == self@.subscribers.len(),
    {
        self.subscribers.len()
    }

    /// The row at place `i` of the subscribers.
    pub fn subscriber(&self, i: usize) -> (row: &Subscriber)
        requires
            i < self@.subscribers.len(),
        ensures
            row@ == self@.subscribers[i as int],
    {
        &self.subscribers[i]
    }

    /// Where the first subscriber with this id stands.
    pub fn find_subscriber(&self, id: u128) -> (found: Option<usize>)
        ensures
            found is Some <==> self@.has_subscriber(id),
            found matches Some(i) ==> {
                &&& i < self@.subscribers.len()
                &&& self@.subscribers[i as int].id == id
                &&& forall|j: int| 0 <= j < i ==> (#[trigger] self@.subscribers[j]).id != id
            },
    {
        let mut i: usize = 0;
        while i < self.subscribers.len()
            invariant
                i <= self.subscribers.len(),
                forall|j: int| 0 <= j < i ==> (#[trigger] self@.subscribers[j]).id != id,
            decreases self.subscribers.len() - i,
        {
            if self.subscribers[i].id == id {
                assert(self@.subscribers[i as int].id == id);
                return Some(i);
            }
            i = i + 1;
        }
        None
    }

    /// Where the first subscriber with this address stands.
    pub fn find_subscriber_by_email(&self, email: &str) -> (found: Option<usize>)
        ensures
            found is Some <==> contains_email(self@.subscribers, email@),
            found matches Some(i) ==> {
                &&& i < self@.subscribers.len()
                &&& self@.subscribers[i as int].email == email@
                &&& forall|j: int| 0 <= j < i ==> (#[trigger] self@.subscribers[j]).email != email@
            },
    {
        let mut i: usize = 0;
        while i < self.subscribers.len()
            invariant
                i <= self.subscribers.len(),
                forall|j: int| 0 <= j < i ==> (#[trigger] self@.subscribers[j]).email != email@,
            decreases self.subscribers.len() - i,
        {
            if text_equals(self.subscribers[i].email.as_str(), email) {
                assert(self@.subscribers[i as int].email == email@);
                return Some(i);
            }
            i = i + 1;
        }
        None
    }

    pub(crate) fn pop_subscriber(&mut self)
        requires
            old(self)@.subscribers.len() > 0,
        ensures
            final(self)@ == (StoreView {
                subscribers: old(self)@.subscribers.drop_last(),
                ..old(self)@
            }),
    {
        self.subscribers.pop();
        assert(views(self.subscribers@) =~= views(old(self).subscribers@).drop_last());
    }

    pub(crate) fn push_subscriber(&mut self, row: Subscriber)
        ensures
            final(self)@ == (StoreView {
                subscribers: old(self)@.subscribers.push(row@),
                ..old(self)@
            }),
    {
        proof {
            lemma_views_push(self.subscribers@, row);
        }
        self.subscribers.push(row);
    }

    pub(crate) fn set_subscriber_status(&mut self, i: usize, status: SubscriptionStatus)
        requires
            i < old(self)@.subscribers.len(),
        ensures
            final(self)@ == (StoreView {
                subscribers: old(self)@.subscribers.update(
                    i as int,
                    SubscriberView { status, ..old(self)@.subscribers[i as int] },
                ),
                ..old(self)@
            }),
    {
        let mut row = self.subscribers[i].clone();
        row.status = status;
        proof {
            lemma_views_update(self.subscribers@, i as int, row);
        }
        self.subscribers.set(i, row);
    }

    /// The number of subscription tokens.
    pub fn token_count(&self) -> (n: usize)
        ensures
            n == self@.tokens.len(),
    {
        self.tokens.len()
    }

    /// The row at place `i` of the subscription tokens.
    pub fn token(&self, i: usize) -> (row: &SubscriptionToken)
        requires
            i < self@.tokens.len(),
        ensures
            row@ == self@.tokens[i as int],
    {
        &self.tokens[i]
    }

    /// Where the first row with this token stands.
    pub fn find_token(&self, token: &str) -> (found: Option<usize>)
        ensures
            found is Some <==> contains_token(self@.tokens, token@),
            found matches Some(i) ==> {
                &&& i < self@.tokens.len()
                &&& self@.tokens[i as int].subscription_token == token@
                &&& forall|j: int|
                    0 <= j < i ==> (#[trigger] self@.tokens[j]).subscription_token != token@
            },
    {
        let mut i: usize = 0;
        while i < self.tokens.len()
            invariant
                i <= self.tokens.len(),
                forall|j: int|
                    0 <= j < i ==> (#[trigger] self@.tokens[j]).subscription_token != token@,
            decreases self.tokens.len() - i,
        {
            if text_equals(self.tokens[i].subscription_token.as_str(), token) {
                assert(self@.tokens[i as int].subscription_token == token@);
                return Some(i);
            }
            i = i + 1;
        }
        None
    }

    /// Where the first token of this subscriber stands.
    pub fn find_token_of(&self, subscriber_id: u128) -> (found: Option<usize>)
        ensures
            found is Some <==> contains_token_of(self@.tokens, subscriber_id),
            found matches Some(i) ==> {
                &&& i < self@.tokens.len()
                &&& self@.tokens[i as int].subscriber_id == subscriber_id
                &&& forall|j: int|
                    0 <= j < i ==> (#[trigger] self@.tokens[j]).subscriber_id != subscriber_id
            },
    {
        let mut i: usize = 0;
        while i < self.tokens.len()
            invariant
                i <= self.tokens.len(),
                forall|j: int|
                    0 <= j < i ==> (#[trigger] self@.tokens[j]).subscriber_id != subscriber_id,
            decreases self.tokens.len() - i,
        {
            if self.tokens[i].subscriber_id == subscriber_id {
                assert(self@.tokens[i as int].subscriber_id == subscriber_id);
                return Some(i);
            }
            i = i + 1;
        }
        None
    }

    pub(crate) fn push_token(&mut self, row: SubscriptionToken)
        ensures
            final(self)@ == (StoreView { tokens: old(self)@.tokens.push(row@), ..old(self)@ }),
    {
        proof {
            lemma_views_push(self.tokens@, row);
        }
        self.tokens.push(row);
    }

    /// The number of newsletter issues.
    pub fn issue_count(&self) -> (n: usize)
        ensures
            n == self@.issues.len(),
    {
        self.issues.len()
    }

    /// The row at place `i` of the newsletter issues.
    pub fn issue(&self, i: usize) -> (row: &NewsletterIssue)
        requires
            i < self@.issues.len(),
        ensures
            row@ == self@.issues[i as int],
    {
        &self.issues[i]
    }

    /// Where the issue with this id stands.
    pub fn find_issue(&self, issue_id: u128) -> (found: Option<usize>)
        ensures
            found is Some <==> self@.has_issue(issue_id),
            found matches Some(i) ==> {
                &&& i < self@.issues.len()
                &&& self@.issues[i as int].newsletter_issue_id == issue_id
                &&& forall|j: int|
                    0 <= j < i ==> (#[trigger] self@.issues[j]).newsletter_issue_id != issue_id
            },
    {
        let mut i: usize = 0;
        while i < self.issues.len()
            invariant
                i <= self.issues.len(),
                forall|j: int|
                    0 <= j < i ==> (#[trigger] self@.issues[j]).newsletter_issue_id != issue_id,
            decreases self.issues.len() - i,
        {
            if self.issues[i].newsletter_issue_id == issue_id {
                assert(self@.issues[i as int].newsletter_issue_id == issue_id);
                return Some(i);
            }
            i = i + 1;
        }
        None
    }

    pub(crate) fn push_issue(&mut self, row: NewsletterIssue)
        ensures
            final(self)@ == (StoreView { issues: old(self)@.issues.push(row@), ..old(self)@ }),
    {
        proof {
            lemma_views_push(self.issues@, row);
        }
        self.issues.push(row);
    }

    /// The number of idempotency records.
    pub fn record_count(&self) -> (n: usize)
        ensures
            n == self@.idempotency.len(),
    {
        self.idempotency.len()
    }

    /// The row at place `i` of the idempotency records.
    pub fn record(&self, i: usize) -> (row: &IdempotencyRecord)
        requires
            i < self@.idempotency.len(),
        ensures
            row@ == self@.idempotency[i as int],
    {
        &self.idempotency[i]
    }

    pub(crate) fn push_record(&mut self, row: IdempotencyRecord)
        ensures
            final(self)@ == (StoreView {
                idempotency: old(self)@.idempotency.push(row@),
                ..old(self)@
            }),
    {
        proof {
            lemma_views_push(self.idempotency@, row);
        }
        self.idempotency.push(row);
    }

    pub(crate) fn replace_record(&mut self, i: usize, row: IdempotencyRecord)
        requires
            i < old(self)@.idempotency.len(),
        ensures
            final(self)@ == (StoreView {
                idempotency: old(self)@.idempotency.update(i as int, row@),
                ..old(self)@
            }),
    {
        proof {
            lemma_views_update(self.idempotency@, i as int, row);
        }
        self.idempotency.set(i, row);
    }

    pub(crate) fn remove_record(&mut self, i: usize)
        requires
            i < old(self)@.idempotency.len(),
        ensures
            final(self)@ == (StoreView {
                idempotency: old(self)@.idempotency.remove(i as int),
                ..old(self)@
            }),
    {
        proof {
            lemma_views_remove(self.idempotency@, i as int);
        }
        self.idempotency.remove(i);
    }

    /// The number of deliveries still owed.
    pub fn queue_len(&self) -> (n: usize)
        ensures
            n == self@.queue.len(),
    {
        self.queue.len()
    }

    /// The entry at place `i` of the delivery queue.
    pub fn queue_entry(&self, i: usize) -> (row: &DeliveryQueueEntry)
        requires
            i < self@.queue.len(),
        ensures
            row@ == self@.queue[i as int],
    {
        &self.queue[i]
    }

    pub(crate) fn push_queue_entry(&mut self, row: DeliveryQueueEntry)
        ensures
            final(self)@ == (StoreView { queue: old(self)@.queue.push(row@), ..old(self)@ }),
    {
        proof {
            lemma_views_push(self.queue@, row);
        }
        self.queue.push(row);
    }

    pub(crate) fn extend_queue(&mut self, rows: Vec<DeliveryQueueEntry>)
        ensures
            final(self)@ == (StoreView { queue: old(self)@.queue + views(rows@), ..old(self)@ }),
    {
        let mut rows = rows;
        proof {
            lemma_views_add(self.queue@, rows@);
        }
        self.queue.append(&mut rows);
    }

    pub(crate) fn replace_queue_entry(&mut self, i: usize, row: DeliveryQueueEntry)
        requires
            i < old(self)@.queue.len(),
        ensures
            final(self)@ == (StoreView {
                queue: old(self)@.queue.update(i as int, row@),
                ..old(self)@
            }),
    {
        proof {
            lemma_views_update(self.queue@, i as int, row);
        }
        self.queue.set(i, row);
    }

    pub(crate) fn remove_queue_entry(&mut self, i: usize) -> (row: DeliveryQueueEntry)
        requires
            i < old(self)@.queue.len(),
        ensures
            row@ == old(self)@.queue[i as int],
            final(self)@ == (StoreView { queue: old(self)@.queue.remove(i as int), ..old(self)@ }),
    {
        proof {
            lemma_views_remove(self.queue@, i as int);
        }
        self.queue.remove(i)
    }
}

} // verus!

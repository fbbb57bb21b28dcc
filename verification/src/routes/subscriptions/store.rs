//! The statements that the subscription routes run against the store.

use crate::domain::{NewSubscriber, SubscriberEmail};
use crate::store::error::StoreError;
use crate::store::ids::{is_random_uuid, new_uuid};
use crate::store::rows::{
    Subscriber, SubscriberView, SubscriptionStatus, SubscriptionToken, SubscriptionTokenView,
};
use crate::store::tables::{contains_email, contains_token, contains_token_of, Store, StoreView};
use vstd::prelude::*;

verus! {

/// The place of the subscriber with the address `email`, where there is one.
pub open spec fn index_of_email(subscribers: Seq<SubscriberView>, email: Seq<char>) -> int {
    choose|i: int| 0 <= i < subscribers.len() && (#[trigger] subscribers[i]).email == email
}

/// The place of the subscriber with the id `id`, where there is one.
pub open spec fn index_of_subscriber(subscribers: Seq<SubscriberView>, id: u128) -> int {
    choose|i: int| 0 <= i < subscribers.len() && (#[trigger] subscribers[i]).id == id
}

/// The place of the token `token`, where there is one.
pub open spec fn index_of_token(tokens: Seq<SubscriptionTokenView>, token: Seq<char>) -> int {
    choose|i: int| 0 <= i < tokens.len() && (#[trigger] tokens[i]).subscription_token == token
}

/// The place of the token of the subscriber `subscriber_id`, where there is one.
pub open spec fn index_of_token_of(tokens: Seq<SubscriptionTokenView>, subscriber_id: u128) -> int {
    choose|i: int| 0 <= i < tokens.len() && (#[trigger] tokens[i]).subscriber_id == subscriber_id
}

impl StoreView {
    /// The subscriber with this address, if there is one.
    pub open spec fn subscriber_by_email(self, email: Seq<char>) -> Option<SubscriberView> {
        if contains_email(self.subscribers, email) {
            Some(self.subscribers[index_of_email(self.subscribers, email)])
        } else {
            None
        }
    }

    /// The token stored for this subscriber, if there is one.
    pub open spec fn stored_token(self, subscriber_id: u128) -> Option<Seq<char>> {
        if contains_token_of(self.tokens, subscriber_id) {
            Some(self.tokens[index_of_token_of(self.tokens, subscriber_id)].subscription_token)
        } else {
            None
        }
    }

    /// The subscriber to whom this token was given, if it was given.
    pub open spec fn token_owner(self, token: Seq<char>) -> Option<u128> {
        if contains_token(self.tokens, token) {
            Some(self.tokens[index_of_token(self.tokens, token)].subscriber_id)
        } else {
            None
        }
    }

    /// Why a subscriber with this id and address cannot be added, if that is
    /// so.
    pub open spec fn insert_subscriber_obstacle(self, id: u128, email: Seq<char>) -> Option<
        StoreError,
    > {
        if self.has_subscriber(id) || contains_email(self.subscribers, email) {
            Some(StoreError::DuplicateSubscriber)
        } else {
            None
        }
    }

    /// The store with one more subscriber.
    pub open spec fn with_subscriber(self, row: SubscriberView) -> StoreView {
        StoreView { subscribers: self.subscribers.push(row), ..self }
    }

    /// Why this token cannot be stored for this subscriber, if that is so.
    pub open spec fn store_token_obstacle(self, subscriber_id: u128, token: Seq<char>) -> Option<
        StoreError,
    > {
        if !self.has_subscriber(subscriber_id) {
            Some(StoreError::UnknownSubscriber)
        } else if contains_token(self.tokens, token) || contains_token_of(
            self.tokens,
            subscriber_id,
        ) {
            Some(StoreError::DuplicateToken)
        } else {
            None
        }
    }

    /// The store with one more token.
    pub open spec fn with_token(self, subscriber_id: u128, token: Seq<char>) -> StoreView {
        StoreView {
            tokens: self.tokens.push(
                SubscriptionTokenView { subscription_token: token, subscriber_id },
            ),
            ..self
        }
    }

    /// The store after the subscriber with this id, if there is one, has
    /// confirmed. Nothing but that subscriber's status changes.
    pub open spec fn confirm_subscriber(self, id: u128) -> StoreView {
        if self.has_subscriber(id) {
            let i = index_of_subscriber(self.subscribers, id);
            StoreView {
                subscribers: self.subscribers.update(
                    i,
                    SubscriberView { status: SubscriptionStatus::Confirmed, ..self.subscribers[i] },
                ),
                ..self
            }
        } else {
            self
        }
    }
}

/// In a well-formed store a subscriber is found by id, and by address, in one
/// place only.
pub proof fn lemma_subscriber_index(s: StoreView, i: int)
    requires
        s.wf(),
        0 <= i < s.subscribers.len(),
    ensures
        s.has_subscriber(s.subscribers[i].id),
        index_of_subscriber(s.subscribers, s.subscribers[i].id) == i,
        contains_email(s.subscribers, s.subscribers[i].email),
        index_of_email(s.subscribers, s.subscribers[i].email) == i,
{
    let a = index_of_subscriber(s.subscribers, s.subscribers[i].id);
    if a < i {
        assert(s.subscribers[a].id != s.subscribers[i].id);
    } else if i < a {
        assert(s.subscribers[i].id != s.subscribers[a].id);
    }
    let b = index_of_email(s.subscribers, s.subscribers[i].email);
    if b < i {
        assert(s.subscribers[b].email != s.subscribers[i].email);
    } else if i < b {
        assert(s.subscribers[i].email != s.subscribers[b].email);
    }
}

/// In a well-formed store a token is found by its text, and by its owner, in
/// one place only.
pub proof fn lemma_token_index(s: StoreView, i: int)
    requires
        s.wf(),
        0 <= i < s.tokens.len(),
    ensures
        contains_token(s.tokens, s.tokens[i].subscription_token),
        index_of_token(s.tokens, s.tokens[i].subscription_token) == i,
        contains_token_of(s.tokens, s.tokens[i].subscriber_id),
        index_of_token_of(s.tokens, s.tokens[i].subscriber_id) == i,
{
    let a = index_of_token(s.tokens, s.tokens[i].subscription_token);
    if a < i {
        assert(s.tokens[a].subscription_token != s.tokens[i].subscription_token);
    } else if i < a {
        assert(s.tokens[i].subscription_token != s.tokens[a].subscription_token);
    }
    let b = index_of_token_of(s.tokens, s.tokens[i].subscriber_id);
    if b < i {
        assert(s.tokens[b].subscriber_id != s.tokens[i].subscriber_id);
    } else if i < b {
        assert(s.tokens[i].subscriber_id != s.tokens[b].subscriber_id);
    }
}

/// Adding a subscriber whose id and address are new keeps the store well
/// formed.
pub proof fn lemma_with_subscriber_wf(s: StoreView, row: SubscriberView)
    requires
        s.wf(),
        s.insert_subscriber_obstacle(row.id, row.email) is None,
    ensures
        s.with_subscriber(row).wf(),
{
    let t = s.with_subscriber(row);
    let n = s.subscribers.len() as int;
    assert forall|i: int, j: int| 0 <= i < j < t.subscribers.len() implies (
    #[trigger] t.subscribers[i]).id != (#[trigger] t.subscribers[j]).id by {
        assert(t.subscribers[i] == s.subscribers[i]);
        if j < n {
            assert(t.subscribers[j] == s.subscribers[j]);
        }
    }
    assert forall|i: int, j: int| 0 <= i < j < t.subscribers.len() implies (
    #[trigger] t.subscribers[i]).email != (#[trigger] t.subscribers[j]).email by {
        assert(t.subscribers[i] == s.subscribers[i]);
        if j < n {
            assert(t.subscribers[j] == s.subscribers[j]);
        }
    }
    assert forall|i: int| 0 <= i < t.tokens.len() implies t.has_subscriber(
        (#[trigger] t.tokens[i]).subscriber_id,
    ) by {
        assert(s.has_subscriber(s.tokens[i].subscriber_id));
        let k = index_of_subscriber(s.subscribers, s.tokens[i].subscriber_id);
        assert(t.subscribers[k] == s.subscribers[k]);
    }
}

/// Storing a new token for a subscriber who has none keeps the store well
/// formed.
pub proof fn lemma_with_token_wf(s: StoreView, subscriber_id: u128, token: Seq<char>)
    requires
        s.wf(),
        s.store_token_obstacle(subscriber_id, token) is None,
    ensures
        s.with_token(subscriber_id, token).wf(),
{
    let t = s.with_token(subscriber_id, token);
    let n = s.tokens.len() as int;
    assert forall|i: int, j: int| 0 <= i < j < t.tokens.len() implies (
    #[trigger] t.tokens[i]).subscription_token != (#[trigger] t.tokens[j]).subscription_token by {
        assert(t.tokens[i] == s.tokens[i]);
        if j < n {
            assert(t.tokens[j] == s.tokens[j]);
        }
    }
    assert forall|i: int, j: int| 0 <= i < j < t.tokens.len() implies (
    #[trigger] t.tokens[i]).subscriber_id != (#[trigger] t.tokens[j]).subscriber_id by {
        assert(t.tokens[i] == s.tokens[i]);
        if j < n {
            assert(t.tokens[j] == s.tokens[j]);
        }
    }
    assert forall|i: int| 0 <= i < t.tokens.len() implies t.has_subscriber(
        (#[trigger] t.tokens[i]).subscriber_id,
    ) by {
        if i < n {
            assert(t.tokens[i] == s.tokens[i]);
        }
    }
}

/// A confirmation keeps the store well formed.
pub proof fn lemma_confirm_subscriber_wf(s: StoreView, id: u128)
    requires
        s.wf(),
    ensures
        s.confirm_subscriber(id).wf(),
{
    if s.has_subscriber(id) {
        let t = s.confirm_subscriber(id);
        assert forall|i: int, j: int| 0 <= i < j < t.subscribers.len() implies (
        #[trigger] t.subscribers[i]).id != (#[trigger] t.subscribers[j]).id by {
            assert(t.subscribers[i].id == s.subscribers[i].id);
            assert(t.subscribers[j].id == s.subscribers[j].id);
        }
        assert forall|i: int, j: int| 0 <= i < j < t.subscribers.len() implies (
        #[trigger] t.subscribers[i]).email != (#[trigger] t.subscribers[j]).email by {
            assert(t.subscribers[i].email == s.subscribers[i].email);
            assert(t.subscribers[j].email == s.subscribers[j].email);
        }
        assert forall|i: int| 0 <= i < t.tokens.len() implies t.has_subscriber(
            (#[trigger] t.tokens[i]).subscriber_id,
        ) by {
            assert(s.has_subscriber(s.tokens[i].subscriber_id));
            let k = index_of_subscriber(s.subscribers, s.tokens[i].subscriber_id);
            assert(t.subscribers[k].id == s.subscribers[k].id);
        }
    }
}

/// Looks a subscriber up by address: the id and the status, if there is one.
pub fn try_find_subscriber_by_email(store: &Store, email: &SubscriberEmail) -> (found: Option<
    (u128, SubscriptionStatus),
>)
    requires
        store@.wf(),
    ensures
        match store@.subscriber_by_email(email@) {
            None => found is None,
            Some(row) => found == Some((row.id, row.status)),
        },
{
    match store.find_subscriber_by_email(email.as_ref()) {
        Some(i) => {
            proof {
                lemma_subscriber_index(store@, i as int);
            }
            let row = store.subscriber(i);
            Some((row.id, row.status))
        },
        None => None,
    }
}

/// The confirmation token stored for a subscriber, if there is one.
pub fn get_stored_confirmation_token(store: &Store, subscriber_id: u128) -> (token: Option<String>)
    requires
        store@.wf(),
    ensures
        match store@.stored_token(subscriber_id) {
            None => token is None,
            Some(text) => token matches Some(t) && t@ == text,
        },
{
    match store.find_token_of(subscriber_id) {
        Some(i) => {
            proof {
                lemma_token_index(store@, i as int);
            }
            Some(store.token(i).subscription_token.clone())
        },
        None => None,
    }
}

/// The subscriber to whom a token was given, if it was given.
pub fn get_subscriber_id_from_token(store: &Store, token: &str) -> (owner: Option<u128>)
    requires
        store@.wf(),
    ensures
        owner == store@.token_owner(token@),
{
    match store.find_token(token) {
        Some(i) => {
            proof {
                lemma_token_index(store@, i as int);
            }
            Some(store.token(i).subscriber_id)
        },
        None => None,
    }
}

/// The row of a subscriber who has just asked to subscribe.
pub open spec fn pending_subscriber(
    id: u128,
    email: Seq<char>,
    name: Seq<char>,
    subscribed_at: u64,
) -> SubscriberView {
    SubscriberView {
        id,
        email,
        name,
        subscribed_at,
        status: SubscriptionStatus::PendingConfirmation,
    }
}

impl StoreView {
    /// What adding the subscriber `row` comes to: the store holds the row,
    /// unless it holds a subscriber with that id or that address already.
    pub open spec fn insert_subscriber(self, row: SubscriberView) -> (
        StoreView,
        Result<u128, StoreError>,
    ) {
        match self.insert_subscriber_obstacle(row.id, row.email) {
            Some(e) => (self, Err(e)),
            None => (self.with_subscriber(row), Ok(row.id)),
        }
    }
}

/// Adds a subscriber row as it stands, with the status it has and with its
/// address taken as it is: a row that was written under other rules may hold
/// an address that is none today.
pub fn restore_subscriber(store: &mut Store, row: Subscriber) -> (r: Result<(), StoreError>)
    requires
        old(store)@.wf(),
    ensures
        final(store)@.wf(),
        match old(store)@.insert_subscriber_obstacle(row.id, row.email@) {
            Some(e) => r == Err::<(), StoreError>(e) && final(store)@ == old(store)@,
            None => r is Ok && final(store)@ == old(store)@.with_subscriber(row@),
        },
{
    if store.find_subscriber(row.id).is_some() {
        return Err(StoreError::DuplicateSubscriber);
    }
    if store.find_subscriber_by_email(row.email.as_str()).is_some() {
        return Err(StoreError::DuplicateSubscriber);
    }
    proof {
        lemma_with_subscriber_wf(store@, row@);
    }
    store.push_subscriber(row);
    Ok(())
}

/// Adds a subscriber, pending confirmation, under the given id.
pub fn insert_subscriber_with_id(
    store: &mut Store,
    id: u128,
    new_subscriber: &NewSubscriber,
    subscribed_at: u64,
) -> (r: Result<u128, StoreError>)
    requires
        old(store)@.wf(),
    ensures
        final(store)@.wf(),
        (final(store)@, r) == old(store)@.insert_subscriber(
            pending_subscriber(id, new_subscriber.email@, new_subscriber.name@, subscribed_at),
        ),
{
    let row = Subscriber {
        id,
        email: new_subscriber.email.as_ref().to_owned(),
        name: new_subscriber.name.as_ref().to_owned(),
        subscribed_at,
        status: SubscriptionStatus::PendingConfirmation,
    };
    match restore_subscriber(store, row) {
        Ok(()) => Ok(id),
        Err(e) => Err(e),
    }
}

/// Adds a subscriber, pending confirmation, under a fresh random id, and
/// hands the id out: what `insert_subscriber_with_id` does for the id that
/// was drawn.
pub fn insert_subscriber(
    store: &mut Store,
    new_subscriber: &NewSubscriber,
    subscribed_at: u64,
) -> (r: Result<u128, StoreError>)
    requires
        old(store)@.wf(),
    ensures
        final(store)@.wf(),
        exists|id: u128|
            is_random_uuid(id) && (final(store)@, r) == #[trigger] old(store)@.insert_subscriber(
                pending_subscriber(id, new_subscriber.email@, new_subscriber.name@, subscribed_at),
            ),
{
    let id = new_uuid();
    insert_subscriber_with_id(store, id, new_subscriber, subscribed_at)
}

/// Stores the confirmation token of a subscriber.
pub fn store_token(store: &mut Store, id: u128, token: &str) -> (r: Result<(), StoreError>)
    requires
        old(store)@.wf(),
    ensures
        final(store)@.wf(),
        match old(store)@.store_token_obstacle(id, token@) {
            Some(e) => r == Err::<(), StoreError>(e) && final(store)@ == old(store)@,
            None => r is Ok && final(store)@ == old(store)@.with_token(id, token@),
        },
{
    if store.find_subscriber(id).is_none() {
        return Err(StoreError::UnknownSubscriber);
    }
    if store.find_token(token).is_some() {
        return Err(StoreError::DuplicateToken);
    }
    if store.find_token_of(id).is_some() {
        return Err(StoreError::DuplicateToken);
    }
    proof {
        lemma_with_token_wf(store@, id, token@);
    }
    store.push_token(SubscriptionToken { subscription_token: token.to_owned(), subscriber_id: id });
    Ok(())
}

/// Marks the subscriber with this id, if there is one, as confirmed.
pub fn confirm_subscriber(store: &mut Store, id: u128)
    requires
        old(store)@.wf(),
    ensures
        final(store)@.wf(),
        final(store)@ == old(store)@.confirm_subscriber(id),
{
    proof {
        lemma_confirm_subscriber_wf(store@, id);
    }
    match store.find_subscriber(id) {
        Some(i) => {
            proof {
                lemma_subscriber_index(store@, i as int);
            }
            store.set_subscriber_status(i, SubscriptionStatus::Confirmed);
        },
        None => {},
    }
}

} // verus!

//! Claiming an idempotency key, and committing or abandoning the work done
//! under the claim.

use super::key::IdempotencyKey;
use crate::response::{Response, ResponseView};
use crate::store::error::StoreError;
use crate::store::rows::{
    DeliveryQueueEntry, DeliveryQueueEntryView, IdempotencyRecord, IdempotencyRecordView,
    NewsletterIssue, NewsletterIssueView, views,
};
use crate::store::tables::{Store, StoreView};
use crate::text::text_equals;
use vstd::prelude::*;

verus! {

/// What the store knows of an idempotency key.
pub enum KeyState {
    /// No request has used the key.
    Fresh,
    /// A request has claimed the key and has not finished.
    InProgress,
    /// A request with the key was answered with this response.
    Completed(ResponseView),
}

/// The writes of one publish request, held back until `save_response`
/// commits them together with the response.
pub struct Transaction {
    user_id: u128,
    idempotency_key: String,
    issue: Option<NewsletterIssue>,
    tasks: Vec<DeliveryQueueEntry>,
    enqueued: bool,
}

/// What a `Transaction` holds, as mathematics.
pub struct TransactionView {
    pub user_id: u128,
    pub idempotency_key: Seq<char>,
    pub issue: Option<NewsletterIssueView>,
    pub tasks: Seq<DeliveryQueueEntryView>,
    pub enqueued: bool,
}

/// The view of an issue that may not have been stored yet.
pub open spec fn issue_view(issue: Option<NewsletterIssue>) -> Option<NewsletterIssueView> {
    match issue {
        Some(i) => Some(i@),
        None => None,
    }
}

impl TransactionView {
    /// A transaction that has claimed `(user_id, key)` and written nothing.
    pub open spec fn fresh(user_id: u128, key: Seq<char>) -> TransactionView {
        TransactionView {
            user_id,
            idempotency_key: key,
            issue: None,
            tasks: Seq::empty(),
            enqueued: false,
        }
    }

    /// Tasks are enqueued once, for the issue of the same transaction, one
    /// for each address.
    pub open spec fn wf(self) -> bool {
        &&& self.enqueued ==> self.issue is Some
        &&& !self.enqueued ==> self.tasks.len() == 0
        &&& forall|i: int|
            0 <= i < self.tasks.len() ==> {
                &&& (#[trigger] self.tasks[i]).newsletter_issue_id
                    == self.issue->0.newsletter_issue_id
                &&& !self.tasks[i].claimed
            }
        &&& forall|i: int, j: int|
            0 <= i < j < self.tasks.len() ==> (#[trigger] self.tasks[i]).subscriber_email != (
            #[trigger] self.tasks[j]).subscriber_email
    }
}

impl Transaction {
    /// Every transaction is well formed.
    #[verifier::type_invariant]
    pub open spec fn well_formed(&self) -> bool {
        self@.wf()
    }

    /// The user whose request the transaction carries.
    pub fn user_id(&self) -> (user_id: u128)
        ensures
            user_id == self@.user_id,
    {
        self.user_id
    }

    /// The key the transaction holds.
    pub fn idempotency_key(&self) -> (key: &str)
        ensures
            key@ == self@.idempotency_key,
    {
        self.idempotency_key.as_str()
    }

    /// The id of the issue stored in this transaction, if one was.
    pub fn issue_id(&self) -> (id: Option<u128>)
        ensures
            self@.wf(),
            id is Some <==> self@.issue is Some,
            id matches Some(i) ==> i == self@.issue->0.newsletter_issue_id,
    {
        proof {
            use_type_invariant(self);
        }
        match &self.issue {
            Some(issue) => Some(issue.newsletter_issue_id),
            None => None,
        }
    }

    /// Whether the delivery tasks have been enqueued in this transaction.
    pub fn is_enqueued(&self) -> (enqueued: bool)
        ensures
            self@.wf(),
            enqueued == self@.enqueued,
    {
        proof {
            use_type_invariant(self);
        }
        self.enqueued
    }

    pub(crate) fn stage_issue(&mut self, issue: NewsletterIssue)
        requires
            old(self)@.issue is None,
        ensures
            final(self)@ == (TransactionView { issue: Some(issue@), ..old(self)@ }),
    {
        proof {
            use_type_invariant(&*self);
        }
        self.issue = Some(issue);
    }

    pub(crate) fn stage_tasks(&mut self, tasks: Vec<DeliveryQueueEntry>)
        requires
            old(self)@.issue is Some,
            !old(self)@.enqueued,
            (TransactionView { tasks: views(tasks@), enqueued: true, ..old(self)@ }).wf(),
        ensures
            final(self)@ == (TransactionView { tasks: views(tasks@), enqueued: true, ..old(self)@ }),
    {
        proof {
            use_type_invariant(&*self);
        }
        self.enqueued = true;
        self.tasks = tasks;
    }
}

impl View for Transaction {
    type V = TransactionView;

    closed spec fn view(&self) -> TransactionView {
        TransactionView {
            user_id: self.user_id,
            idempotency_key: self.idempotency_key@,
            issue: issue_view(self.issue),
            tasks: views(self.tasks@),
            enqueued: self.enqueued,
        }
    }
}

/// Whether one of `records` is the record of `(user_id, key)`.
pub open spec fn contains_record(
    records: Seq<IdempotencyRecordView>,
    user_id: u128,
    key: Seq<char>,
) -> bool {
    exists|i: int| 0 <= i < records.len() && (#[trigger] records[i]).is_for(user_id, key)
}

/// The place of the record of `(user_id, key)` among `records`, where it
/// has one.
pub open spec fn index_of_record(
    records: Seq<IdempotencyRecordView>,
    user_id: u128,
    key: Seq<char>,
) -> int {
    choose|i: int| 0 <= i < records.len() && (#[trigger] records[i]).is_for(user_id, key)
}

impl StoreView {
    /// Whether the key `(user_id, key)` has a record.
    pub open spec fn has_record(self, user_id: u128, key: Seq<char>) -> bool {
        contains_record(self.idempotency, user_id, key)
    }

    /// The place of the record of `(user_id, key)`, where it has one.
    pub open spec fn record_index(self, user_id: u128, key: Seq<char>) -> int {
        index_of_record(self.idempotency, user_id, key)
    }

    /// What the store knows of the key `(user_id, key)`.
    pub open spec fn key_state(self, user_id: u128, key: Seq<char>) -> KeyState {
        if !self.has_record(user_id, key) {
            KeyState::Fresh
        } else {
            match self.idempotency[self.record_index(user_id, key)].response {
                None => KeyState::InProgress,
                Some(response) => KeyState::Completed(response),
            }
        }
    }

    /// The store after `(user_id, key)` has been claimed.
    pub open spec fn claim_key(self, user_id: u128, key: Seq<char>) -> StoreView {
        StoreView {
            idempotency: self.idempotency.push(
                IdempotencyRecordView { user_id, idempotency_key: key, response: None },
            ),
            ..self
        }
    }

    /// The store after the claim on `(user_id, key)`, if there is one, is
    /// given up: the key is fresh again.
    pub open spec fn release_claim(self, user_id: u128, key: Seq<char>) -> StoreView {
        if self.key_state(user_id, key) is InProgress {
            StoreView {
                idempotency: self.idempotency.remove(self.record_index(user_id, key)),
                ..self
            }
        } else {
            self
        }
    }

    /// Why `transaction` cannot be committed, if it cannot.
    pub open spec fn commit_obstacle(self, transaction: TransactionView) -> Option<StoreError> {
        if !(self.key_state(transaction.user_id, transaction.idempotency_key) is InProgress) {
            Some(StoreError::ClaimLost)
        } else if transaction.issue is Some && self.has_issue(
            transaction.issue->0.newsletter_issue_id,
        ) {
            Some(StoreError::DuplicateIssue)
        } else {
            None
        }
    }

    /// The store after `transaction` is committed with `response`: its issue
    /// and its tasks are added, and its key is completed.
    pub open spec fn commit(self, transaction: TransactionView, response: ResponseView) -> StoreView {
        StoreView {
            issues: match transaction.issue {
                Some(issue) => self.issues.push(issue),
                None => self.issues,
            },
            queue: self.queue + transaction.tasks,
            idempotency: self.idempotency.update(
                self.record_index(transaction.user_id, transaction.idempotency_key),
                IdempotencyRecordView {
                    user_id: transaction.user_id,
                    idempotency_key: transaction.idempotency_key,
                    response: Some(response),
                },
            ),
            ..self
        }
    }
}

/// Claiming a fresh key keeps the store well formed.
pub proof fn lemma_claim_key_wf(s: StoreView, user_id: u128, key: Seq<char>)
    requires
        s.wf(),
        !s.has_record(user_id, key),
    ensures
        s.claim_key(user_id, key).wf(),
        s.claim_key(user_id, key).key_state(user_id, key) is InProgress,
        s.claim_key(user_id, key).record_index(user_id, key) == s.idempotency.len(),
        s.claim_key(user_id, key).release_claim(user_id, key) == s,
{
    let t = s.claim_key(user_id, key);
    let n = s.idempotency.len() as int;
    assert forall|i: int, j: int| 0 <= i < j < t.idempotency.len() implies !(
    #[trigger] t.idempotency[i]).is_for(
        (#[trigger] t.idempotency[j]).user_id,
        t.idempotency[j].idempotency_key,
    ) by {
        if j < n {
            assert(t.idempotency[i] == s.idempotency[i]);
            assert(t.idempotency[j] == s.idempotency[j]);
        } else {
            assert(t.idempotency[i] == s.idempotency[i]);
            assert(!s.idempotency[i].is_for(user_id, key));
        }
    }
    assert(t.idempotency[n].is_for(user_id, key));
    let c = t.record_index(user_id, key);
    assert(c == n) by {
        if c < n {
            assert(t.idempotency[c] == s.idempotency[c]);
            assert(s.idempotency[c].is_for(user_id, key));
        }
    }
    assert(t.idempotency.remove(n) =~= s.idempotency);
}

/// Committing keeps the store well formed and completes the key.
pub proof fn lemma_commit_wf(s: StoreView, transaction: TransactionView, response: ResponseView)
    requires
        s.wf(),
        transaction.wf(),
        s.commit_obstacle(transaction) is None,
    ensures
        s.commit(transaction, response).wf(),
        s.commit(transaction, response).key_state(
            transaction.user_id,
            transaction.idempotency_key,
        ) == KeyState::Completed(response),
{
    let t = s.commit(transaction, response);
    let user_id = transaction.user_id;
    let key = transaction.idempotency_key;
    let c = s.record_index(user_id, key);
    assert(0 <= c < s.idempotency.len() && s.idempotency[c].is_for(user_id, key));
    assert forall|i: int, j: int| 0 <= i < j < t.idempotency.len() implies !(
    #[trigger] t.idempotency[i]).is_for(
        (#[trigger] t.idempotency[j]).user_id,
        t.idempotency[j].idempotency_key,
    ) by {
        assert(s.idempotency[i].user_id == t.idempotency[i].user_id);
        assert(s.idempotency[j].user_id == t.idempotency[j].user_id);
        assert(s.idempotency[i].idempotency_key == t.idempotency[i].idempotency_key);
        assert(s.idempotency[j].idempotency_key == t.idempotency[j].idempotency_key);
    }
    assert forall|i: int, j: int| 0 <= i < j < t.issues.len() implies (
    #[trigger] t.issues[i]).newsletter_issue_id != (#[trigger] t.issues[j]).newsletter_issue_id by {
        if j >= s.issues.len() {
            assert(t.issues[i] == s.issues[i]);
        } else {
            assert(t.issues[i] == s.issues[i]);
            assert(t.issues[j] == s.issues[j]);
        }
    }
    assert forall|i: int| 0 <= i < t.queue.len() implies t.has_issue(
        (#[trigger] t.queue[i]).newsletter_issue_id,
    ) by {
        if i < s.queue.len() {
            assert(t.queue[i] == s.queue[i]);
            assert(s.has_issue(s.queue[i].newsletter_issue_id));
            let k = choose|k: int|
                0 <= k < s.issues.len() && (#[trigger] s.issues[k]).newsletter_issue_id
                    == s.queue[i].newsletter_issue_id;
            assert(t.issues[k] == s.issues[k]);
        } else {
            assert(t.queue[i] == transaction.tasks[i - s.queue.len()]);
            assert(t.issues[s.issues.len() as int] == transaction.issue->0);
        }
    }
    assert forall|i: int, j: int| 0 <= i < j < t.queue.len() implies !(#[trigger] t.queue[i]).is_for(
        (#[trigger] t.queue[j]).newsletter_issue_id,
        t.queue[j].subscriber_email,
    ) by {
        let n = s.queue.len() as int;
        if j < n {
            assert(t.queue[i] == s.queue[i]);
            assert(t.queue[j] == s.queue[j]);
        } else if i < n {
            assert(t.queue[i] == s.queue[i]);
            assert(t.queue[j] == transaction.tasks[j - n]);
            assert(s.has_issue(s.queue[i].newsletter_issue_id));
        } else {
            assert(t.queue[i] == transaction.tasks[i - n]);
            assert(t.queue[j] == transaction.tasks[j - n]);
        }
    }
    assert(t.idempotency[c].is_for(user_id, key));
    let d = t.record_index(user_id, key);
    assert(d == c) by {
        assert(s.idempotency[d].user_id == t.idempotency[d].user_id);
        assert(s.idempotency[d].idempotency_key == t.idempotency[d].idempotency_key);
        if d < c {
            assert(!s.idempotency[d].is_for(
                s.idempotency[c].user_id,
                s.idempotency[c].idempotency_key,
            ));
        } else if c < d {
            assert(!s.idempotency[c].is_for(
                s.idempotency[d].user_id,
                s.idempotency[d].idempotency_key,
            ));
        }
    }
}

/// Giving up a claim keeps the store well formed and makes the key fresh.
pub proof fn lemma_release_claim_wf(s: StoreView, user_id: u128, key: Seq<char>)
    requires
        s.wf(),
    ensures
        s.release_claim(user_id, key).wf(),
        s.key_state(user_id, key) is InProgress ==> s.release_claim(user_id, key).key_state(
            user_id,
            key,
        ) is Fresh,
{
    if s.key_state(user_id, key) is InProgress {
        let t = s.release_claim(user_id, key);
        let c = s.record_index(user_id, key);
        assert forall|i: int, j: int| 0 <= i < j < t.idempotency.len() implies !(
        #[trigger] t.idempotency[i]).is_for(
            (#[trigger] t.idempotency[j]).user_id,
            t.idempotency[j].idempotency_key,
        ) by {
            let a = if i < c { i } else { i + 1 };
            let b = if j < c { j } else { j + 1 };
            assert(t.idempotency[i] == s.idempotency[a]);
            assert(t.idempotency[j] == s.idempotency[b]);
        }
        assert forall|i: int| 0 <= i < t.idempotency.len() implies !(
        #[trigger] t.idempotency[i]).is_for(user_id, key) by {
            let a = if i < c { i } else { i + 1 };
            assert(t.idempotency[i] == s.idempotency[a]);
            if a < c {
                assert(!s.idempotency[a].is_for(
                    s.idempotency[c].user_id,
                    s.idempotency[c].idempotency_key,
                ));
            } else {
                assert(!s.idempotency[c].is_for(
                    s.idempotency[a].user_id,
                    s.idempotency[a].idempotency_key,
                ));
            }
        }
    }
}

/// What a request is to do after asking for its key.
pub enum NextAction {
    /// The key was fresh and is now claimed: do the work inside the
    /// transaction and end it with `save_response` or `abort`.
    StartProcessing(Transaction),
    /// The request was answered before: answer with the same response.
    ReturnSavedResponse(Response),
    /// Another request holds the key and has not finished: wait for it, then
    /// ask again.
    AwaitPeer,
}

impl Store {
    /// Where the record of `(user_id, key)` stands.
    pub fn find_record(&self, user_id: u128, key: &str) -> (found: Option<usize>)
        requires
            self@.wf(),
        ensures
            found is Some <==> self@.has_record(user_id, key@),
            found matches Some(i) ==> i == self@.record_index(user_id, key@),
    {
        let mut i: usize = 0;
        while i < self.record_count()
            invariant
                self@.wf(),
                i <= self@.idempotency.len(),
                forall|j: int| 0 <= j < i ==> !(#[trigger] self@.idempotency[j]).is_for(user_id, key@),
            decreases self@.idempotency.len() - i,
        {
            let record = self.record(i);
            if record.user_id == user_id && text_equals(record.idempotency_key.as_str(), key) {
                return Some(i);
            }
            i = i + 1;
        }
        None
    }
}

/// Asks for the key `(user_id, idempotency_key)`. A fresh key is claimed and
/// a transaction is opened for the request; a key that was answered before
/// yields that answer; a key that another request holds yields nothing but
/// the advice to wait. Only the first changes the store.
pub fn try_processing(store: &mut Store, idempotency_key: &IdempotencyKey, user_id: u128) -> (next:
    NextAction)
    requires
        old(store)@.wf(),
    ensures
        final(store)@.wf(),
        match old(store)@.key_state(user_id, idempotency_key@) {
            KeyState::Fresh => {
                &&& next matches NextAction::StartProcessing(transaction)
                &&& transaction@ == TransactionView::fresh(user_id, idempotency_key@)
                &&& final(store)@ == old(store)@.claim_key(user_id, idempotency_key@)
            },
            KeyState::InProgress => {
                &&& next is AwaitPeer
                &&& final(store)@ == old(store)@
            },
            KeyState::Completed(response) => {
                &&& next matches NextAction::ReturnSavedResponse(saved)
                &&& saved@ == response
                &&& final(store)@ == old(store)@
            },
        },
{
    let key = idempotency_key.as_ref();
    match store.find_record(user_id, key) {
        Some(i) => {
            match &store.record(i).response {
                Some(response) => NextAction::ReturnSavedResponse(response.clone()),
                None => NextAction::AwaitPeer,
            }
        },
        None => {
            proof {
                lemma_claim_key_wf(store@, user_id, key@);
            }
            store.push_record(
                IdempotencyRecord { user_id, idempotency_key: key.to_owned(), response: None },
            );
            let transaction = Transaction {
                user_id,
                idempotency_key: key.to_owned(),
                issue: None,
                tasks: Vec::new(),
                enqueued: false,
            };
            assert(views(transaction.tasks@) =~= Seq::empty());
            NextAction::StartProcessing(transaction)
        },
    }
}

/// Ends `transaction` by committing it: the issue and the tasks written in it
/// become part of the store, and `response` is saved under its key. Where the
/// store refuses, nothing of the transaction is kept. A transaction is to be
/// ended on the store that opened it.
pub fn save_response(store: &mut Store, transaction: Transaction, response: Response) -> (r: Result<
    Response,
    StoreError,
>)
    requires
        old(store)@.wf(),
    ensures
        final(store)@.wf(),
        match old(store)@.commit_obstacle(transaction@) {
            None => {
                &&& r matches Ok(saved)
                &&& saved@ == response@
                &&& final(store)@ == old(store)@.commit(transaction@, response@)
            },
            Some(e) => {
                &&& r == Err::<Response, StoreError>(e)
                &&& final(store)@ == old(store)@.release_claim(
                    transaction@.user_id,
                    transaction@.idempotency_key,
                )
            },
        },
{
    proof {
        use_type_invariant(&transaction);
        lemma_release_claim_wf(store@, transaction@.user_id, transaction@.idempotency_key);
    }
    let Transaction { user_id, idempotency_key, issue, tasks, enqueued: _ } = transaction;
    let i = match store.find_record(user_id, idempotency_key.as_str()) {
        Some(i) => i,
        None => { return Err(StoreError::ClaimLost); },
    };
    if store.record(i).response.is_some() {
        return Err(StoreError::ClaimLost);
    }
    if let Some(issue) = issue {
        if store.find_issue(issue.newsletter_issue_id).is_some() {
            store.remove_record(i);
            return Err(StoreError::DuplicateIssue);
        }
        store.push_issue(issue);
    }
    proof {
        lemma_commit_wf(old(store)@, transaction@, response@);
    }
    store.extend_queue(tasks);
    store.replace_record(
        i,
        IdempotencyRecord { user_id, idempotency_key, response: Some(response.clone()) },
    );
    Ok(response)
}

/// Ends `transaction` by abandoning it: nothing written in it is kept, and
/// its key is fresh again.
pub fn abort(store: &mut Store, transaction: Transaction)
    requires
        old(store)@.wf(),
    ensures
        final(store)@.wf(),
        final(store)@ == old(store)@.release_claim(
            transaction@.user_id,
            transaction@.idempotency_key,
        ),
{
    proof {
        lemma_release_claim_wf(store@, transaction@.user_id, transaction@.idempotency_key);
    }
    match store.find_record(transaction.user_id, transaction.idempotency_key.as_str()) {
        Some(i) => {
            if store.record(i).response.is_none() {
                store.remove_record(i);
            }
        },
        None => {},
    }
}

} // verus!

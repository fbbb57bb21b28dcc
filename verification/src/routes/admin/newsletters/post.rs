//! Publishing a newsletter issue: the issue and one delivery task for each
//! confirmed subscriber are written under the request's idempotency key,
//! all of them or none.

use super::types::{BodySchema, BodySchemaView};
use crate::idempotency::key::{key_verdict, IdempotencyKey};
use crate::idempotency::persistence::{
    abort, lemma_claim_key_wf, save_response, try_processing, KeyState, NextAction, Transaction,
    TransactionView,
};
use crate::response::ResponseView;
use crate::routes::helpers::{
    e400, e500, see_other, FlashMessage, FlashMessageView, HttpError, HttpErrorView, Level,
};
use crate::store::error::StoreError;
use crate::store::ids::{is_random_uuid, new_uuid};
use crate::store::rows::{
    views, DeliveryQueueEntry, DeliveryQueueEntryView, IdempotencyRecordView, NewsletterIssue,
    NewsletterIssueView, SubscriberView, SubscriptionStatus,
};
use crate::store::tables::{Store, StoreView};
use vstd::prelude::*;

verus! {

/// The delivery tasks of an issue: one for each subscriber who is confirmed,
/// in the order of the table, none of them claimed.
pub open spec fn delivery_tasks(subscribers: Seq<SubscriberView>, issue_id: u128) -> Seq<
    DeliveryQueueEntryView,
>
    decreases subscribers.len(),
{
    if subscribers.len() == 0 {
        Seq::empty()
    } else {
        let earlier = delivery_tasks(subscribers.drop_last(), issue_id);
        if subscribers.last().status == SubscriptionStatus::Confirmed {
            earlier.push(
                DeliveryQueueEntryView {
                    newsletter_issue_id: issue_id,
                    subscriber_email: subscribers.last().email,
                    claimed: false,
                },
            )
        } else {
            earlier
        }
    }
}

/// Whether the address `email` belongs to a subscriber who is confirmed.
pub open spec fn is_confirmed_address(subscribers: Seq<SubscriberView>, email: Seq<char>) -> bool {
    exists|i: int|
        0 <= i < subscribers.len() && (#[trigger] subscribers[i]).email == email
            && subscribers[i].status == SubscriptionStatus::Confirmed
}

/// Whether `tasks` holds a task for the address `email`.
pub open spec fn has_task_for(tasks: Seq<DeliveryQueueEntryView>, email: Seq<char>) -> bool {
    exists|k: int| 0 <= k < tasks.len() && (#[trigger] tasks[k]).subscriber_email == email
}

/// The delivery tasks of an issue are owed to the confirmed subscribers and
/// to nobody else, each of them once.
pub proof fn lemma_delivery_tasks(subscribers: Seq<SubscriberView>, issue_id: u128)
    requires
        forall|i: int, j: int|
            0 <= i < j < subscribers.len() ==> (#[trigger] subscribers[i]).email != (
            #[trigger] subscribers[j]).email,
    ensures
        delivery_tasks(subscribers, issue_id).len() <= subscribers.len(),
        forall|k: int|
            0 <= k < delivery_tasks(subscribers, issue_id).len() ==> {
                let task = #[trigger] delivery_tasks(subscribers, issue_id)[k];
                &&& task.newsletter_issue_id == issue_id
                &&& !task.claimed
                &&& is_confirmed_address(subscribers, task.subscriber_email)
            },
        forall|i: int|
            0 <= i < subscribers.len() && (#[trigger] subscribers[i]).status
                == SubscriptionStatus::Confirmed ==> has_task_for(
                delivery_tasks(subscribers, issue_id),
                subscribers[i].email,
            ),
        forall|k: int, l: int|
            0 <= k < l < delivery_tasks(subscribers, issue_id).len() ==> (
            #[trigger] delivery_tasks(subscribers, issue_id)[k]).subscriber_email != (
            #[trigger] delivery_tasks(subscribers, issue_id)[l]).subscriber_email,
    decreases subscribers.len(),
{
    if subscribers.len() > 0 {
        let front = subscribers.drop_last();
        let last = subscribers.last();
        let earlier = delivery_tasks(front, issue_id);
        let tasks = delivery_tasks(subscribers, issue_id);
        assert forall|i: int, j: int| 0 <= i < j < front.len() implies (#[trigger] front[i]).email != (
        #[trigger] front[j]).email by {
            assert(front[i] == subscribers[i]);
            assert(front[j] == subscribers[j]);
        }
        lemma_delivery_tasks(front, issue_id);
        assert forall|k: int| 0 <= k < earlier.len() implies is_confirmed_address(
            subscribers,
            (#[trigger] earlier[k]).subscriber_email,
        ) by {
            let i = choose|i: int|
                0 <= i < front.len() && (#[trigger] front[i]).email == earlier[k].subscriber_email
                    && front[i].status == SubscriptionStatus::Confirmed;
            assert(subscribers[i] == front[i]);
        }
        assert forall|k: int| 0 <= k < earlier.len() implies (#[trigger] earlier[k]).subscriber_email
            != last.email by {
            let i = choose|i: int|
                0 <= i < front.len() && (#[trigger] front[i]).email == earlier[k].subscriber_email
                    && front[i].status == SubscriptionStatus::Confirmed;
            assert(subscribers[i] == front[i]);
            assert(subscribers[subscribers.len() - 1] == last);
        }
        assert forall|k: int| 0 <= k < tasks.len() implies {
            let task = #[trigger] tasks[k];
            &&& task.newsletter_issue_id == issue_id
            &&& !task.claimed
            &&& is_confirmed_address(subscribers, task.subscriber_email)
        } by {
            if k < earlier.len() {
                assert(tasks[k] == earlier[k]);
            } else {
                assert(subscribers[subscribers.len() - 1] == last);
            }
        }
        assert forall|i: int|
            0 <= i < subscribers.len() && (#[trigger] subscribers[i]).status
                == SubscriptionStatus::Confirmed implies has_task_for(tasks, subscribers[i].email) by {
            if i < front.len() {
                assert(front[i] == subscribers[i]);
                let k = choose|k: int|
                    0 <= k < earlier.len() && (#[trigger] earlier[k]).subscriber_email
                        == front[i].email;
                assert(tasks[k] == earlier[k]);
            } else {
                assert(tasks[tasks.len() - 1].subscriber_email == last.email);
            }
        }
        assert forall|k: int, l: int| 0 <= k < l < tasks.len() implies (
        #[trigger] tasks[k]).subscriber_email != (#[trigger] tasks[l]).subscriber_email by {
            assert(tasks[k] == earlier[k]);
            if l < earlier.len() {
                assert(tasks[l] == earlier[l]);
            }
        }
    }
}

impl StoreView {
    /// The delivery tasks that an issue published now would get.
    pub open spec fn delivery_tasks(self, issue_id: u128) -> Seq<DeliveryQueueEntryView> {
        delivery_tasks(self.subscribers, issue_id)
    }
}

/// Why an issue cannot be stored in `transaction`, if it cannot.
pub open spec fn insert_obstacle(
    s: StoreView,
    transaction: TransactionView,
    issue_id: u128,
) -> Option<StoreError> {
    if transaction.issue is Some {
        Some(StoreError::IssueAlreadyStored)
    } else if s.has_issue(issue_id) {
        Some(StoreError::DuplicateIssue)
    } else {
        None
    }
}

/// What storing `issue` in `transaction` comes to: the transaction holds the
/// issue and its id is handed out, unless the store or the transaction
/// stands against it.
pub open spec fn insert_issue(
    s: StoreView,
    transaction: TransactionView,
    issue: NewsletterIssueView,
) -> (TransactionView, Result<u128, StoreError>) {
    match insert_obstacle(s, transaction, issue.newsletter_issue_id) {
        Some(e) => (transaction, Err(e)),
        None => (
            TransactionView { issue: Some(issue), ..transaction },
            Ok(issue.newsletter_issue_id),
        ),
    }
}

/// Stores a newsletter issue with the given id in `transaction`.
pub fn insert_newsletter_issue_with_id(
    store: &Store,
    transaction: &mut Transaction,
    newsletter_issue_id: u128,
    title: &str,
    text_content: &str,
    html_content: &str,
    published_at: u64,
) -> (r: Result<u128, StoreError>)
    ensures
        (final(transaction)@, r) == insert_issue(
            store@,
            old(transaction)@,
            NewsletterIssueView {
                newsletter_issue_id,
                title: title@,
                text_content: text_content@,
                html_content: html_content@,
                published_at,
            },
        ),
{
    if transaction.issue_id().is_some() {
        return Err(StoreError::IssueAlreadyStored);
    }
    if store.find_issue(newsletter_issue_id).is_some() {
        return Err(StoreError::DuplicateIssue);
    }
    transaction.stage_issue(
        NewsletterIssue {
            newsletter_issue_id,
            title: title.to_owned(),
            text_content: text_content.to_owned(),
            html_content: html_content.to_owned(),
            published_at,
        },
    );
    Ok(newsletter_issue_id)
}

/// Stores a newsletter issue under a fresh random id in `transaction` and
/// hands the id out: what `insert_newsletter_issue_with_id` does for the id
/// that was drawn.
pub fn insert_newsletter_issue(
    store: &Store,
    transaction: &mut Transaction,
    title: &str,
    text_content: &str,
    html_content: &str,
    published_at: u64,
) -> (r: Result<u128, StoreError>)
    ensures
        exists|id: u128|
            is_random_uuid(id) && (final(transaction)@, r) == #[trigger] insert_issue(
                store@,
                old(transaction)@,
                NewsletterIssueView {
                    newsletter_issue_id: id,
                    title: title@,
                    text_content: text_content@,
                    html_content: html_content@,
                    published_at,
                },
            ),
{
    let newsletter_issue_id = new_uuid();
    insert_newsletter_issue_with_id(
        store,
        transaction,
        newsletter_issue_id,
        title,
        text_content,
        html_content,
        published_at,
    )
}

/// Why the delivery tasks of issue `issue_id` cannot be enqueued in
/// `transaction`, if they cannot.
pub open spec fn enqueue_obstacle(transaction: TransactionView, issue_id: u128) -> Option<StoreError> {
    if !(transaction.issue matches Some(issue) && issue.newsletter_issue_id == issue_id) {
        Some(StoreError::UnknownIssue)
    } else if transaction.enqueued {
        Some(StoreError::TasksAlreadyEnqueued)
    } else {
        None
    }
}

/// Enqueues, in `transaction`, one delivery task for each subscriber who is
/// confirmed at this moment. Who confirms later gets no task for this issue.
pub fn enqueue_delivery_tasks(
    store: &Store,
    transaction: &mut Transaction,
    newsletter_issue_id: u128,
) -> (r: Result<(), StoreError>)
    requires
        store@.wf(),
    ensures
        match enqueue_obstacle(old(transaction)@, newsletter_issue_id) {
            Some(e) => r == Err::<(), StoreError>(e) && final(transaction)@ == old(transaction)@,
            None => {
                &&& r is Ok
                &&& final(transaction)@ == (TransactionView {
                    tasks: store@.delivery_tasks(newsletter_issue_id),
                    enqueued: true,
                    ..old(transaction)@
                })
            },
        },
{
    match transaction.issue_id() {
        Some(id) => {
            if id != newsletter_issue_id {
                return Err(StoreError::UnknownIssue);
            }
        },
        None => {
            return Err(StoreError::UnknownIssue);
        },
    }
    if transaction.is_enqueued() {
        return Err(StoreError::TasksAlreadyEnqueued);
    }
    let mut tasks: Vec<DeliveryQueueEntry> = Vec::new();
    let mut i: usize = 0;
    assert(store@.subscribers.take(0) =~= Seq::empty());
    assert(views(tasks@) =~= Seq::empty());
    while i < store.subscriber_count()
        invariant
            i <= store@.subscribers.len(),
            views(tasks@) == delivery_tasks(store@.subscribers.take(i as int), newsletter_issue_id),
        decreases store@.subscribers.len() - i,
    {
        let subscriber = store.subscriber(i);
        proof {
            assert(store@.subscribers.take(i + 1).drop_last() =~= store@.subscribers.take(i as int));
        }
        if subscriber.status == SubscriptionStatus::Confirmed {
            let task = DeliveryQueueEntry {
                newsletter_issue_id,
                subscriber_email: subscriber.email.clone(),
                claimed: false,
            };
            proof {
                crate::store::rows::lemma_views_push(tasks@, task);
            }
            tasks.push(task);
        }
        i = i + 1;
    }
    proof {
        assert(store@.subscribers.take(i as int) =~= store@.subscribers);
        lemma_delivery_tasks(store@.subscribers, newsletter_issue_id);
    }
    transaction.stage_tasks(tasks);
    Ok(())
}

/// Where the browser is sent once an issue has been accepted.
pub const NEWSLETTERS_PAGE: &'static str = "/admin/newsletters";

/// The notice shown once an issue has been accepted.
pub const SUCCESS_NOTICE: &'static str =
    "The newsletter issue has been accepted - emails will go out shortly.";

/// What the log is told when the store refuses a step of a publish request.
pub const STORE_ISSUE_FAILED: &'static str = "Failed to store newsletter issue details";

pub const ENQUEUE_FAILED: &'static str = "Failed to enqueue delivery tasks";

pub const SAVE_RESPONSE_FAILED: &'static str = "Failed to save the response";

/// The notice for the user whose issue has been accepted.
pub fn success_message() -> (m: FlashMessage)
    ensures
        m@ == success_notice(),
{
    FlashMessage::info(SUCCESS_NOTICE)
}

/// The notice for the user whose issue has been accepted.
pub open spec fn success_notice() -> FlashMessageView {
    FlashMessageView { level: Level::Info, content: SUCCESS_NOTICE@ }
}

/// How a publish request ends.
#[derive(Debug)]
pub enum PublishOutcome {
    /// The request is answered, for the first time or from the record of the
    /// first time, and the user is shown `notice`.
    Respond { response: crate::response::Response, notice: FlashMessage },
    /// The request is refused. Nothing of it is kept.
    Fail(HttpError),
    /// Another request with the same key is being processed: wait for it,
    /// then try again.
    AwaitPeer,
}

/// What a `PublishOutcome` holds, as mathematics.
pub enum PublishOutcomeView {
    Respond { response: ResponseView, notice: FlashMessageView },
    Fail(HttpErrorView),
    AwaitPeer,
}

impl View for PublishOutcome {
    type V = PublishOutcomeView;

    open spec fn view(&self) -> PublishOutcomeView {
        match self {
            PublishOutcome::Respond { response, notice } => PublishOutcomeView::Respond {
                response: response@,
                notice: notice@,
            },
            PublishOutcome::Fail(e) => PublishOutcomeView::Fail(e@),
            PublishOutcome::AwaitPeer => PublishOutcomeView::AwaitPeer,
        }
    }
}

/// The answer to an accepted publish request.
pub open spec fn accepted_response() -> ResponseView {
    ResponseView::see_other(NEWSLETTERS_PAGE@)
}

impl StoreView {
    /// The store after a publish request has been accepted: the issue is
    /// stored, every subscriber confirmed at that moment is owed a delivery,
    /// and the answer is on record under the request's key.
    pub open spec fn accept(
        self,
        user_id: u128,
        body: BodySchemaView,
        issue_id: u128,
        published_at: u64,
    ) -> StoreView {
        StoreView {
            issues: self.issues.push(
                NewsletterIssueView {
                    newsletter_issue_id: issue_id,
                    title: body.title,
                    text_content: body.text,
                    html_content: body.html,
                    published_at,
                },
            ),
            queue: self.queue + self.delivery_tasks(issue_id),
            idempotency: self.idempotency.push(
                IdempotencyRecordView {
                    user_id,
                    idempotency_key: body.idempotency_key,
                    response: Some(accepted_response()),
                },
            ),
            ..self
        }
    }

    /// What a publish request does to the store, and how it ends.
    pub open spec fn publish(
        self,
        user_id: u128,
        body: BodySchemaView,
        issue_id: u128,
        published_at: u64,
    ) -> (StoreView, PublishOutcomeView) {
        match key_verdict(body.idempotency_key) {
            Some(e) => (
                self,
                PublishOutcomeView::Fail(
                    HttpErrorView { status_code: crate::response::BAD_REQUEST, message: e.text() },
                ),
            ),
            None => match self.key_state(user_id, body.idempotency_key) {
                KeyState::Completed(response) => (
                    self,
                    PublishOutcomeView::Respond { response, notice: success_notice() },
                ),
                KeyState::InProgress => (self, PublishOutcomeView::AwaitPeer),
                KeyState::Fresh => if self.has_issue(issue_id) {
                    (
                        self,
                        PublishOutcomeView::Fail(
                            HttpErrorView {
                                status_code: crate::response::INTERNAL_SERVER_ERROR,
                                message: STORE_ISSUE_FAILED@,
                            },
                        ),
                    )
                } else {
                    (
                        self.accept(user_id, body, issue_id, published_at),
                        PublishOutcomeView::Respond {
                            response: accepted_response(),
                            notice: success_notice(),
                        },
                    )
                },
            },
        }
    }
}

/// Publishes a newsletter issue under the given id.
///
/// A key that is no idempotency key is refused with `400` before the store is
/// touched. A request whose key was answered before gets that answer again
/// and changes nothing. A request whose key another request holds is told to
/// wait. Otherwise the issue, the delivery tasks and the answer are committed
/// together; where the store refuses, the request fails with `500` and
/// leaves nothing behind.
pub fn publish_newsletter_with_id(
    store: &mut Store,
    user_id: u128,
    body: BodySchema,
    newsletter_issue_id: u128,
    published_at: u64,
) -> (outcome: PublishOutcome)
    requires
        old(store)@.wf(),
    ensures
        final(store)@.wf(),
        (final(store)@, outcome@) == old(store)@.publish(
            user_id,
            body@,
            newsletter_issue_id,
            published_at,
        ),
{
    let BodySchema { title, text, html, idempotency_key } = body;
    let idempotency_key = match IdempotencyKey::parse(idempotency_key) {
        Ok(key) => key,
        Err(e) => {
            return PublishOutcome::Fail(e400(e.message()));
        },
    };
    let mut transaction = match try_processing(store, &idempotency_key, user_id) {
        NextAction::StartProcessing(transaction) => transaction,
        NextAction::ReturnSavedResponse(saved_response) => {
            return PublishOutcome::Respond { response: saved_response, notice: success_message() };
        },
        NextAction::AwaitPeer => {
            return PublishOutcome::AwaitPeer;
        },
    };
    proof {
        lemma_claim_key_wf(old(store)@, user_id, idempotency_key@);
    }
    if insert_newsletter_issue_with_id(
        store,
        &mut transaction,
        newsletter_issue_id,
        title.as_str(),
        text.as_str(),
        html.as_str(),
        published_at,
    ).is_err() {
        abort(store, transaction);
        return PublishOutcome::Fail(e500(String::from_str(STORE_ISSUE_FAILED)));
    }
    if enqueue_delivery_tasks(store, &mut transaction, newsletter_issue_id).is_err() {
        abort(store, transaction);
        return PublishOutcome::Fail(e500(String::from_str(ENQUEUE_FAILED)));
    }
    let response = see_other(NEWSLETTERS_PAGE);
    match save_response(store, transaction, response) {
        Ok(response) => {
            proof {
                let claimed = old(store)@.claim_key(user_id, idempotency_key@);
                assert(final(store)@.idempotency =~= old(store)@.accept(
                    user_id,
                    body@,
                    newsletter_issue_id,
                    published_at,
                ).idempotency);
            }
            PublishOutcome::Respond { response, notice: success_message() }
        },
        Err(_) => PublishOutcome::Fail(e500(String::from_str(SAVE_RESPONSE_FAILED))),
    }
}

/// Publishes a newsletter issue under a fresh random id: what
/// `publish_newsletter_with_id` does for the id that was drawn.
pub fn publish_newsletter(
    store: &mut Store,
    user_id: u128,
    body: BodySchema,
    published_at: u64,
) -> (outcome: PublishOutcome)
    requires
        old(store)@.wf(),
    ensures
        final(store)@.wf(),
        exists|issue_id: u128|
            is_random_uuid(issue_id) && (final(store)@, outcome@) == #[trigger] old(store)@.publish(
                user_id,
                body@,
                issue_id,
                published_at,
            ),
{
    let newsletter_issue_id = new_uuid();
    publish_newsletter_with_id(store, user_id, body, newsletter_issue_id, published_at)
}

/// How long, and how often, a request waits for another request that holds
/// its key.
#[derive(Clone, Copy, Debug, PartialEq, Eq, Structural)]
pub struct AwaitPolicy {
    /// The pause before the key is asked for again, in milliseconds.
    pub delay_ms: u64,
    /// After so many pauses the request gives up.
    pub max_attempts: u32,
}

/// What a waiting request does next.
#[derive(Debug)]
pub enum AwaitDecision {
    /// Pause for so many milliseconds, then publish again.
    RetryAfter(u64),
    /// Give up with this error.
    GiveUp(HttpError),
}

/// What a request says that gives up waiting.
pub const PEER_TIMEOUT: &'static str =
    "Another request with the same idempotency key did not finish in time";

/// Decides what a request does that has been told to wait, having paused
/// `attempts` times already: it pauses again while it has paused fewer than
/// `max_attempts` times, and gives up with `500` after that.
pub fn await_peer(attempts: u32, policy: &AwaitPolicy) -> (decision: AwaitDecision)
    ensures
        attempts < policy.max_attempts ==> (decision matches AwaitDecision::RetryAfter(ms) && ms
            == policy.delay_ms),
        attempts >= policy.max_attempts ==> (decision matches AwaitDecision::GiveUp(e) && e@ == (
        HttpErrorView {
            status_code: crate::response::INTERNAL_SERVER_ERROR,
            message: PEER_TIMEOUT@,
        })),
{
    if attempts < policy.max_attempts {
        AwaitDecision::RetryAfter(policy.delay_ms)
    } else {
        AwaitDecision::GiveUp(e500(String::from_str(PEER_TIMEOUT)))
    }
}

} // verus!

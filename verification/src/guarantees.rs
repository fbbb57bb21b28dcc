//! What the publish protocol and the delivery worker guarantee, stated over
//! the views of the store and proved from the definitions the functions are
//! specified with.

use crate::domain::subscriber_email::is_valid_email;
use crate::idempotency::key::is_valid_key;
use crate::idempotency::persistence::{
    lemma_claim_key_wf, lemma_commit_wf, lemma_release_claim_wf, KeyState, TransactionView,
};
use crate::issue_delivery_worker::queue::{
    first_unclaimed, has_unclaimed, is_first_unclaimed, lemma_claim_wf, lemma_drop_task_wf,
    lemma_release_task_wf, ClaimedTaskView,
};
use crate::response::{ResponseView, INTERNAL_SERVER_ERROR};
use crate::routes::admin::newsletters::post::{
    accepted_response, delivery_tasks, is_confirmed_address, lemma_delivery_tasks, success_notice,
    PublishOutcomeView,
};
use crate::routes::admin::newsletters::types::BodySchemaView;
use crate::store::error::StoreError;
use crate::store::rows::{DeliveryQueueEntryView, NewsletterIssueView, SubscriptionStatus};
use crate::store::tables::StoreView;
use vstd::prelude::*;

verus! {

/// Accepting a publish request with a fresh key and a new issue id keeps the
/// store well formed, and leaves the answer on record under the key.
pub proof fn lemma_accept(
    s: StoreView,
    user_id: u128,
    body: BodySchemaView,
    issue_id: u128,
    published_at: u64,
)
    requires
        s.wf(),
        s.key_state(user_id, body.idempotency_key) is Fresh,
        !s.has_issue(issue_id),
    ensures
        s.accept(user_id, body, issue_id, published_at).wf(),
        s.accept(user_id, body, issue_id, published_at).key_state(user_id, body.idempotency_key)
            == KeyState::Completed(accepted_response()),
{
    let key = body.idempotency_key;
    let claimed = s.claim_key(user_id, key);
    lemma_claim_key_wf(s, user_id, key);
    lemma_delivery_tasks(s.subscribers, issue_id);
    let transaction = TransactionView {
        user_id,
        idempotency_key: key,
        issue: Some(
            NewsletterIssueView {
                newsletter_issue_id: issue_id,
                title: body.title,
                text_content: body.text,
                html_content: body.html,
                published_at,
            },
        ),
        tasks: s.delivery_tasks(issue_id),
        enqueued: true,
    };
    assert(claimed.has_issue(issue_id) == s.has_issue(issue_id));
    lemma_commit_wf(claimed, transaction, accepted_response());
    assert(claimed.commit(transaction, accepted_response()).idempotency =~= s.accept(
        user_id,
        body,
        issue_id,
        published_at,
    ).idempotency);
}

/// Idempotence of publishing. A publish request that is sent a second time,
/// right after the first, ends as the first did: with the same response, byte
/// for byte, or the same refusal. The second request changes nothing: one
/// issue and one set of delivery tasks at most have been added by the two.
///
/// The first request must not have failed on the server's side: such a
/// request leaves nothing behind, so that a retry starts afresh and may well
/// succeed.
pub proof fn lemma_publish_is_idempotent(
    s: StoreView,
    user_id: u128,
    body: BodySchemaView,
    first_issue_id: u128,
    first_published_at: u64,
    second_issue_id: u128,
    second_published_at: u64,
)
    requires
        s.wf(),
        !(s.publish(user_id, body, first_issue_id, first_published_at).1 matches PublishOutcomeView::Fail(
            e,
        ) && e.status_code == INTERNAL_SERVER_ERROR),
    ensures
        ({
            let (after_first, first) = s.publish(user_id, body, first_issue_id, first_published_at);
            let (after_second, second) = after_first.publish(
                user_id,
                body,
                second_issue_id,
                second_published_at,
            );
            &&& second == first
            &&& after_second == after_first
            &&& after_first.wf()
            &&& after_first.issues.len() <= s.issues.len() + 1
            &&& after_first.issues.len() == s.issues.len() + 1 ==> {
                &&& after_first == s.accept(user_id, body, first_issue_id, first_published_at)
                &&& first == (PublishOutcomeView::Respond {
                    response: accepted_response(),
                    notice: success_notice(),
                })
            }
        }),
{
    if is_valid_key(body.idempotency_key) && s.key_state(user_id, body.idempotency_key) is Fresh {
        lemma_accept(s, user_id, body, first_issue_id, first_published_at);
    }
}

/// Duplicates in flight. While one request holds a key, a second request
/// with that key is told to wait and changes nothing.
pub proof fn lemma_duplicate_waits(
    s: StoreView,
    user_id: u128,
    body: BodySchemaView,
    issue_id: u128,
    published_at: u64,
)
    requires
        s.wf(),
        is_valid_key(body.idempotency_key),
        s.key_state(user_id, body.idempotency_key) is Fresh,
    ensures
        s.claim_key(user_id, body.idempotency_key).publish(user_id, body, issue_id, published_at)
            == (s.claim_key(user_id, body.idempotency_key), PublishOutcomeView::AwaitPeer),
{
    lemma_claim_key_wf(s, user_id, body.idempotency_key);
}

/// Duplicates in flight, continued. Once the request that holds a key has
/// committed with `response`, a request with that key is answered with
/// `response` and changes nothing; had the holder given up instead, the key
/// would be fresh again and the store as it was before the claim.
pub proof fn lemma_duplicate_is_replayed(
    s: StoreView,
    transaction: TransactionView,
    response: ResponseView,
    body: BodySchemaView,
    issue_id: u128,
    published_at: u64,
)
    requires
        s.wf(),
        transaction.wf(),
        is_valid_key(body.idempotency_key),
        body.idempotency_key == transaction.idempotency_key,
        s.key_state(transaction.user_id, body.idempotency_key) is Fresh,
        s.claim_key(transaction.user_id, body.idempotency_key).commit_obstacle(transaction) is None,
    ensures
        ({
            let claimed = s.claim_key(transaction.user_id, body.idempotency_key);
            let committed = claimed.commit(transaction, response);
            &&& committed.publish(transaction.user_id, body, issue_id, published_at) == (
                committed,
                PublishOutcomeView::Respond { response, notice: success_notice() },
            )
            &&& claimed.release_claim(transaction.user_id, body.idempotency_key) == s
        }),
{
    let claimed = s.claim_key(transaction.user_id, body.idempotency_key);
    lemma_claim_key_wf(s, transaction.user_id, body.idempotency_key);
    lemma_commit_wf(claimed, transaction, response);
}

/// Requests with different keys do not interfere. What the store knows of a
/// key is not changed when another key is claimed, given up or completed:
/// a request that holds a key goes on holding it, and an answer on record
/// stays on record, whatever other requests do in between.
pub proof fn lemma_keys_do_not_interfere(
    s: StoreView,
    user_id: u128,
    key: Seq<char>,
    other: TransactionView,
    response: ResponseView,
)
    requires
        s.wf(),
        other.wf(),
        !(other.user_id == user_id && other.idempotency_key == key),
    ensures
        !s.has_record(other.user_id, other.idempotency_key) ==> s.claim_key(
            other.user_id,
            other.idempotency_key,
        ).key_state(user_id, key) == s.key_state(user_id, key),
        s.release_claim(other.user_id, other.idempotency_key).key_state(user_id, key)
            == s.key_state(user_id, key),
        s.commit_obstacle(other) is None ==> s.commit(other, response).key_state(user_id, key)
            == s.key_state(user_id, key),
{
    let ou = other.user_id;
    let ok = other.idempotency_key;
    if !s.has_record(ou, ok) {
        let t = s.claim_key(ou, ok);
        lemma_claim_key_wf(s, ou, ok);
        if s.has_record(user_id, key) {
            let c = s.record_index(user_id, key);
            assert(t.idempotency[c] == s.idempotency[c]);
            lemma_record_index(t, c);
        } else {
            if t.has_record(user_id, key) {
                let d = t.record_index(user_id, key);
                if d < s.idempotency.len() {
                    assert(t.idempotency[d] == s.idempotency[d]);
                }
            }
        }
    }
    if s.key_state(ou, ok) is InProgress {
        let t = s.release_claim(ou, ok);
        let o = s.record_index(ou, ok);
        lemma_release_claim_wf(s, ou, ok);
        if s.has_record(user_id, key) {
            let c = s.record_index(user_id, key);
            let moved = if c < o { c } else { c - 1 };
            assert(t.idempotency[moved] == s.idempotency[c]);
            lemma_record_index(t, moved);
        } else {
            if t.has_record(user_id, key) {
                let d = t.record_index(user_id, key);
                let from = if d < o { d } else { d + 1 };
                assert(t.idempotency[d] == s.idempotency[from]);
            }
        }
    }
    if s.commit_obstacle(other) is None {
        let t = s.commit(other, response);
        let o = s.record_index(ou, ok);
        lemma_commit_wf(s, other, response);
        if s.has_record(user_id, key) {
            let c = s.record_index(user_id, key);
            assert(c != o);
            assert(t.idempotency[c] == s.idempotency[c]);
            lemma_record_index(t, c);
        } else {
            if t.has_record(user_id, key) {
                let d = t.record_index(user_id, key);
                if d != o {
                    assert(t.idempotency[d] == s.idempotency[d]);
                }
            }
        }
    }
}

/// An answer on record is final. Once a key is completed, no request with
/// that key can change the record: asking for the key yields the answer and
/// nothing else, a transaction for the key cannot be committed, and giving
/// up a claim on it changes nothing.
pub proof fn lemma_completed_is_final(
    s: StoreView,
    transaction: TransactionView,
    response: ResponseView,
    body: BodySchemaView,
    issue_id: u128,
    published_at: u64,
)
    requires
        s.wf(),
        is_valid_key(body.idempotency_key),
        transaction.idempotency_key == body.idempotency_key,
        s.key_state(transaction.user_id, body.idempotency_key) == KeyState::Completed(response),
    ensures
        s.publish(transaction.user_id, body, issue_id, published_at) == (
            s,
            PublishOutcomeView::Respond { response, notice: success_notice() },
        ),
        s.commit_obstacle(transaction) == Some(StoreError::ClaimLost),
        s.release_claim(transaction.user_id, body.idempotency_key) == s,
{
}

/// In a well-formed store the record of a key stands in one place only.
pub proof fn lemma_record_index(s: StoreView, i: int)
    requires
        s.wf(),
        0 <= i < s.idempotency.len(),
    ensures
        s.has_record(s.idempotency[i].user_id, s.idempotency[i].idempotency_key),
        s.record_index(s.idempotency[i].user_id, s.idempotency[i].idempotency_key) == i,
{
    let user_id = s.idempotency[i].user_id;
    let key = s.idempotency[i].idempotency_key;
    assert(s.idempotency[i].is_for(user_id, key));
    let c = s.record_index(user_id, key);
    if c < i {
        assert(!s.idempotency[c].is_for(
            s.idempotency[i].user_id,
            s.idempotency[i].idempotency_key,
        ));
    } else if i < c {
        assert(!s.idempotency[i].is_for(
            s.idempotency[c].user_id,
            s.idempotency[c].idempotency_key,
        ));
    }
}

/// Snapshot isolation. The delivery tasks of an accepted issue are owed to
/// subscribers who were confirmed when the issue was accepted. Whoever was
/// pending at that moment is owed nothing for the issue, and stays owed
/// nothing when confirming afterwards.
pub proof fn lemma_snapshot_isolation(
    s: StoreView,
    user_id: u128,
    body: BodySchemaView,
    issue_id: u128,
    published_at: u64,
    late: int,
)
    requires
        s.wf(),
        s.key_state(user_id, body.idempotency_key) is Fresh,
        !s.has_issue(issue_id),
        0 <= late < s.subscribers.len(),
        s.subscribers[late].status == SubscriptionStatus::PendingConfirmation,
    ensures
        ({
            let accepted = s.accept(user_id, body, issue_id, published_at);
            let confirmed = accepted.confirm_subscriber(s.subscribers[late].id);
            &&& forall|k: int|
                0 <= k < accepted.queue.len() && (#[trigger] accepted.queue[k]).newsletter_issue_id
                    == issue_id ==> is_confirmed_address(
                    s.subscribers,
                    accepted.queue[k].subscriber_email,
                )
            &&& confirmed.queue == accepted.queue
            &&& forall|k: int|
                0 <= k < confirmed.queue.len() ==> !(#[trigger] confirmed.queue[k]).is_for(
                    issue_id,
                    s.subscribers[late].email,
                )
        }),
{
    let accepted = s.accept(user_id, body, issue_id, published_at);
    let tasks = s.delivery_tasks(issue_id);
    lemma_delivery_tasks(s.subscribers, issue_id);
    assert forall|k: int|
        0 <= k < accepted.queue.len() && (#[trigger] accepted.queue[k]).newsletter_issue_id
            == issue_id implies is_confirmed_address(
        s.subscribers,
        accepted.queue[k].subscriber_email,
    ) by {
        if k < s.queue.len() {
            assert(accepted.queue[k] == s.queue[k]);
            assert(s.has_issue(s.queue[k].newsletter_issue_id));
        } else {
            assert(accepted.queue[k] == tasks[k - s.queue.len()]);
        }
    }
    assert forall|k: int| 0 <= k < accepted.queue.len() implies !(
    #[trigger] accepted.queue[k]).is_for(issue_id, s.subscribers[late].email) by {
        if accepted.queue[k].is_for(issue_id, s.subscribers[late].email) {
            let i = choose|i: int|
                0 <= i < s.subscribers.len() && (#[trigger] s.subscribers[i]).email
                    == accepted.queue[k].subscriber_email && s.subscribers[i].status
                    == SubscriptionStatus::Confirmed;
            if i < late {
                assert(s.subscribers[i].email != s.subscribers[late].email);
            } else if late < i {
                assert(s.subscribers[late].email != s.subscribers[i].email);
            }
        }
    }
}

/// Whether no worker holds an entry of the queue.
pub open spec fn nothing_claimed(queue: Seq<DeliveryQueueEntryView>) -> bool {
    forall|k: int| 0 <= k < queue.len() ==> !(#[trigger] queue[k]).claimed
}

/// The task that the entry stands for.
pub open spec fn task_of(entry: DeliveryQueueEntryView) -> ClaimedTaskView {
    ClaimedTaskView {
        newsletter_issue_id: entry.newsletter_issue_id,
        subscriber_email: entry.subscriber_email,
    }
}

/// One poll cycle of a single worker takes the entry at the head of the
/// queue. The entry leaves the queue if its address is no e-mail address or
/// if the transport takes the e-mail; otherwise it goes to the back.
pub proof fn lemma_cycle(s: StoreView, delivered: bool)
    requires
        s.wf(),
        nothing_claimed(s.queue),
        s.queue.len() > 0,
    ensures
        s.cycle(delivered).wf(),
        nothing_claimed(s.cycle(delivered).queue),
        s.attempt() == (if is_valid_email(s.queue[0].subscriber_email) {
            Some(task_of(s.queue[0]))
        } else {
            None
        }),
        s.cycle(delivered).queue == (if is_valid_email(s.queue[0].subscriber_email) && !delivered {
            s.queue.drop_first().push(s.queue[0])
        } else {
            s.queue.drop_first()
        }),
        s.cycle(delivered).issues == s.issues,
{
    assert(is_first_unclaimed(s.queue, 0));
    assert(first_unclaimed(s.queue) == 0) by {
        let c = first_unclaimed(s.queue);
        if c > 0 {
            assert(!s.queue[0].claimed);
        }
    }
    let head = s.queue[0];
    if is_valid_email(head.subscriber_email) {
        let claimed = s.claim(0);
        lemma_claim_wf(s, 0);
        lemma_release_task_wf(claimed, head.newsletter_issue_id, head.subscriber_email);
        assert(claimed.queue.remove(0) =~= s.queue.drop_first());
        let after = s.cycle(delivered);
        assert(after.queue =~= (if !delivered {
            s.queue.drop_first().push(s.queue[0])
        } else {
            s.queue.drop_first()
        }));
        assert forall|k: int| 0 <= k < after.queue.len() implies !(
        #[trigger] after.queue[k]).claimed by {
            if k < s.queue.len() - 1 {
                assert(after.queue[k] == s.queue[k + 1]);
            }
        }
    } else {
        lemma_drop_task_wf(s, 0);
        assert(s.queue.remove(0) =~= s.queue.drop_first());
        let after = s.cycle(delivered);
        assert forall|k: int| 0 <= k < after.queue.len() implies !(
        #[trigger] after.queue[k]).claimed by {
            assert(after.queue[k] == s.queue[k + 1]);
        }
    }
}

/// At-least-once delivery. With a single worker at work and no entry held,
/// the entry at place `i` of the queue is taken in cycle `i`: the transport
/// is called for its issue and its address, whatever became of the entries
/// before it, unless the address is no e-mail address, in which case the
/// transport is not called for it.
pub proof fn lemma_every_entry_is_tried(s: StoreView, outcomes: Seq<bool>, i: int)
    requires
        s.wf(),
        nothing_claimed(s.queue),
        0 <= i < s.queue.len(),
        i < outcomes.len(),
    ensures
        s.attempts(outcomes).len() == outcomes.len(),
        s.attempts(outcomes)[i] == (if is_valid_email(s.queue[i].subscriber_email) {
            Some(task_of(s.queue[i]))
        } else {
            None
        }),
    decreases i,
{
    lemma_attempts_len(s, outcomes);
    lemma_cycle(s, outcomes.first());
    let next = s.cycle(outcomes.first());
    lemma_attempts_len(next, outcomes.drop_first());
    if i > 0 {
        assert(next.queue[i - 1] == s.queue[i]);
        lemma_every_entry_is_tried(next, outcomes.drop_first(), i - 1);
        assert(s.attempts(outcomes)[i] == next.attempts(outcomes.drop_first())[i - 1]);
    }
}

/// `attempts` tells of every cycle.
pub proof fn lemma_attempts_len(s: StoreView, outcomes: Seq<bool>)
    ensures
        s.attempts(outcomes).len() == outcomes.len(),
    decreases outcomes.len(),
{
    if outcomes.len() > 0 {
        lemma_attempts_len(s.cycle(outcomes.first()), outcomes.drop_first());
    }
}

/// The queue never grows under the worker: neither half of a poll cycle
/// adds an entry.
pub proof fn lemma_queue_never_grows(s: StoreView, task: ClaimedTaskView, delivered: bool)
    requires
        s.wf(),
    ensures
        s.poll().queue.len() <= s.queue.len(),
        s.settle(task, delivered).queue.len() <= s.queue.len(),
{
}

/// The queue drains. With a single worker at work, no entry held and no new
/// issue published, the queue never grows from cycle to cycle; and once the
/// transport has taken every e-mail it was called for, in as many cycles as
/// the queue was long, the queue is empty.
pub proof fn lemma_queue_drains(s: StoreView, outcomes: Seq<bool>)
    requires
        s.wf(),
        nothing_claimed(s.queue),
    ensures
        s.run(outcomes).queue.len() <= s.queue.len(),
        outcomes.len() >= s.queue.len() && (forall|k: int|
            0 <= k < outcomes.len() ==> outcomes[k]) ==> s.run(outcomes).queue.len() == 0,
    decreases outcomes.len(),
{
    if outcomes.len() > 0 {
        let next = s.cycle(outcomes.first());
        let rest = outcomes.drop_first();
        if s.queue.len() > 0 {
            lemma_cycle(s, outcomes.first());
        } else {
            assert(!has_unclaimed(s.queue));
        }
        lemma_queue_drains(next, rest);
        assert forall|k: int| 0 <= k < rest.len() implies rest[k] == outcomes[k + 1] by {}
    }
}

/// Claims exclude one another: an entry that one claim has taken is not
/// taken by the next claim.
pub proof fn lemma_claims_exclude(s: StoreView)
    requires
        s.wf(),
        s.next_task() is Some,
    ensures
        s.claim(s.next_task()->0).next_task() != s.next_task(),
{
    let i = s.next_task()->0;
    let claimed = s.claim(i);
    if claimed.next_task() is Some {
        assert(is_first_unclaimed(claimed.queue, claimed.next_task()->0));
    }
}

} // verus!

//! The delivery queue as the worker sees it: claiming an entry, retiring it,
//! and handing it back.

use crate::store::rows::{
    DeliveryQueueEntry, DeliveryQueueEntryView, NewsletterIssue, NewsletterIssueView,
};
use crate::store::tables::{Store, StoreView};
use crate::text::text_equals;
use vstd::prelude::*;

verus! {

/// Whether `i` is the place of the first entry that no worker holds.
pub open spec fn is_first_unclaimed(queue: Seq<DeliveryQueueEntryView>, i: int) -> bool {
    &&& 0 <= i < queue.len()
    &&& !queue[i].claimed
    &&& forall|j: int| 0 <= j < i ==> (#[trigger] queue[j]).claimed
}

/// Whether some entry is held by no worker.
pub open spec fn has_unclaimed(queue: Seq<DeliveryQueueEntryView>) -> bool {
    exists|i: int| is_first_unclaimed(queue, i)
}

/// The place of the first entry that no worker holds, where there is one.
pub open spec fn first_unclaimed(queue: Seq<DeliveryQueueEntryView>) -> int {
    choose|i: int| is_first_unclaimed(queue, i)
}

/// Whether a worker holds the entry that owes `issue_id` to `email`.
pub open spec fn holds_task(
    queue: Seq<DeliveryQueueEntryView>,
    issue_id: u128,
    email: Seq<char>,
) -> bool {
    exists|i: int|
        0 <= i < queue.len() && (#[trigger] queue[i]).is_for(issue_id, email) && queue[i].claimed
}

/// The place of the entry that owes `issue_id` to `email`, where a worker
/// holds it.
pub open spec fn held_task(
    queue: Seq<DeliveryQueueEntryView>,
    issue_id: u128,
    email: Seq<char>,
) -> int {
    choose|i: int|
        0 <= i < queue.len() && (#[trigger] queue[i]).is_for(issue_id, email) && queue[i].claimed
}

/// The place of the issue with this id, where it is stored.
pub open spec fn index_of_issue(issues: Seq<NewsletterIssueView>, issue_id: u128) -> int {
    choose|i: int| 0 <= i < issues.len() && (#[trigger] issues[i]).newsletter_issue_id == issue_id
}

impl StoreView {
    /// The entry a claim would take, if there is one to take.
    pub open spec fn next_task(self) -> Option<int> {
        if has_unclaimed(self.queue) {
            Some(first_unclaimed(self.queue))
        } else {
            None
        }
    }

    /// The store after the entry at `i` has been claimed.
    pub open spec fn claim(self, i: int) -> StoreView {
        StoreView {
            queue: self.queue.update(
                i,
                DeliveryQueueEntryView { claimed: true, ..self.queue[i] },
            ),
            ..self
        }
    }

    /// The store after the entry at `i` has left the queue.
    pub open spec fn drop_task(self, i: int) -> StoreView {
        StoreView { queue: self.queue.remove(i), ..self }
    }

    /// The store after a worker has retired the entry it holds for
    /// `(issue_id, email)`. Without such an entry nothing changes.
    pub open spec fn delete_task(self, issue_id: u128, email: Seq<char>) -> StoreView {
        if holds_task(self.queue, issue_id, email) {
            self.drop_task(held_task(self.queue, issue_id, email))
        } else {
            self
        }
    }

    /// The store after a worker has handed back the entry it holds for
    /// `(issue_id, email)`: the entry is free to be claimed again and goes to
    /// the back of the queue, behind the entries that have not been tried
    /// yet. Without such an entry nothing changes.
    pub open spec fn release_task(self, issue_id: u128, email: Seq<char>) -> StoreView {
        if holds_task(self.queue, issue_id, email) {
            let i = held_task(self.queue, issue_id, email);
            StoreView {
                queue: self.queue.remove(i).push(
                    DeliveryQueueEntryView { claimed: false, ..self.queue[i] },
                ),
                ..self
            }
        } else {
            self
        }
    }

    /// The issue with this id, where it is stored.
    pub open spec fn issue_of(self, issue_id: u128) -> NewsletterIssueView {
        self.issues[index_of_issue(self.issues, issue_id)]
    }
}

/// Dropping an entry keeps the store well formed.
pub proof fn lemma_drop_task_wf(s: StoreView, i: int)
    requires
        s.wf(),
        0 <= i < s.queue.len(),
    ensures
        s.drop_task(i).wf(),
{
    let t = s.drop_task(i);
    assert forall|k: int| 0 <= k < t.queue.len() implies t.has_issue(
        (#[trigger] t.queue[k]).newsletter_issue_id,
    ) by {
        let a = if k < i { k } else { k + 1 };
        assert(t.queue[k] == s.queue[a]);
    }
    assert forall|k: int, l: int| 0 <= k < l < t.queue.len() implies !(#[trigger] t.queue[k]).is_for(
        (#[trigger] t.queue[l]).newsletter_issue_id,
        t.queue[l].subscriber_email,
    ) by {
        let a = if k < i { k } else { k + 1 };
        let b = if l < i { l } else { l + 1 };
        assert(t.queue[k] == s.queue[a]);
        assert(t.queue[l] == s.queue[b]);
    }
}

/// Claiming an entry keeps the store well formed.
pub proof fn lemma_claim_wf(s: StoreView, i: int)
    requires
        s.wf(),
        0 <= i < s.queue.len(),
    ensures
        s.claim(i).wf(),
        holds_task(s.claim(i).queue, s.queue[i].newsletter_issue_id, s.queue[i].subscriber_email),
        held_task(s.claim(i).queue, s.queue[i].newsletter_issue_id, s.queue[i].subscriber_email)
            == i,
{
    let t = s.claim(i);
    assert forall|k: int| 0 <= k < t.queue.len() implies t.has_issue(
        (#[trigger] t.queue[k]).newsletter_issue_id,
    ) by {
        assert(t.queue[k].newsletter_issue_id == s.queue[k].newsletter_issue_id);
    }
    assert forall|k: int, l: int| 0 <= k < l < t.queue.len() implies !(#[trigger] t.queue[k]).is_for(
        (#[trigger] t.queue[l]).newsletter_issue_id,
        t.queue[l].subscriber_email,
    ) by {
        assert(t.queue[k].is_for(s.queue[k].newsletter_issue_id, s.queue[k].subscriber_email));
        assert(t.queue[l].is_for(s.queue[l].newsletter_issue_id, s.queue[l].subscriber_email));
    }
    let issue_id = s.queue[i].newsletter_issue_id;
    let email = s.queue[i].subscriber_email;
    assert(t.queue[i].is_for(issue_id, email) && t.queue[i].claimed);
    lemma_held_task_is(t, issue_id, email, i);
}

/// In a well-formed store the entry for a pair stands in one place only.
pub proof fn lemma_held_task_is(s: StoreView, issue_id: u128, email: Seq<char>, i: int)
    requires
        s.wf(),
        0 <= i < s.queue.len(),
        s.queue[i].is_for(issue_id, email),
        s.queue[i].claimed,
    ensures
        holds_task(s.queue, issue_id, email),
        held_task(s.queue, issue_id, email) == i,
{
    let h = held_task(s.queue, issue_id, email);
    if h < i {
        assert(!s.queue[h].is_for(s.queue[i].newsletter_issue_id, s.queue[i].subscriber_email));
    } else if i < h {
        assert(!s.queue[i].is_for(s.queue[h].newsletter_issue_id, s.queue[h].subscriber_email));
    }
}

/// Handing an entry back keeps the store well formed.
pub proof fn lemma_release_task_wf(s: StoreView, issue_id: u128, email: Seq<char>)
    requires
        s.wf(),
    ensures
        s.release_task(issue_id, email).wf(),
        s.delete_task(issue_id, email).wf(),
{
    if holds_task(s.queue, issue_id, email) {
        let i = held_task(s.queue, issue_id, email);
        lemma_drop_task_wf(s, i);
        let d = s.drop_task(i);
        let t = s.release_task(issue_id, email);
        let n = d.queue.len() as int;
        assert(t.queue == d.queue.push(DeliveryQueueEntryView { claimed: false, ..s.queue[i] }));
        assert forall|k: int| 0 <= k < t.queue.len() implies t.has_issue(
            (#[trigger] t.queue[k]).newsletter_issue_id,
        ) by {
            if k < n {
                assert(t.queue[k] == d.queue[k]);
                assert(d.has_issue(d.queue[k].newsletter_issue_id));
            } else {
                assert(s.has_issue(s.queue[i].newsletter_issue_id));
            }
        }
        assert forall|k: int, l: int| 0 <= k < l < t.queue.len() implies !(
        #[trigger] t.queue[k]).is_for(
            (#[trigger] t.queue[l]).newsletter_issue_id,
            t.queue[l].subscriber_email,
        ) by {
            assert(t.queue[k] == d.queue[k]);
            if l < n {
                assert(t.queue[l] == d.queue[l]);
            } else {
                let a = if k < i { k } else { k + 1 };
                assert(d.queue[k] == s.queue[a]);
                if a < i {
                    assert(!s.queue[a].is_for(
                        s.queue[i].newsletter_issue_id,
                        s.queue[i].subscriber_email,
                    ));
                } else {
                    assert(!s.queue[i].is_for(
                        s.queue[a].newsletter_issue_id,
                        s.queue[a].subscriber_email,
                    ));
                }
            }
        }
    }
}

/// A claimed entry: which issue is owed to which address.
#[derive(Debug)]
pub struct ClaimedTask {
    pub newsletter_issue_id: u128,
    pub subscriber_email: String,
}

/// What a `ClaimedTask` holds, as mathematics.
pub struct ClaimedTaskView {
    pub newsletter_issue_id: u128,
    pub subscriber_email: Seq<char>,
}

impl View for ClaimedTask {
    type V = ClaimedTaskView;

    open spec fn view(&self) -> ClaimedTaskView {
        ClaimedTaskView {
            newsletter_issue_id: self.newsletter_issue_id,
            subscriber_email: self.subscriber_email@,
        }
    }
}

/// The view of a claim that may have found nothing.
pub open spec fn task_view(task: Option<ClaimedTask>) -> Option<ClaimedTaskView> {
    match task {
        Some(t) => Some(t@),
        None => None,
    }
}

/// Claims the first entry that no worker holds, if there is one. An entry
/// that is claimed is handed to no other claim until it is released.
pub fn dequeue_task(store: &mut Store) -> (task: Option<ClaimedTask>)
    requires
        old(store)@.wf(),
    ensures
        final(store)@.wf(),
        final(store)@.queue.len() == old(store)@.queue.len(),
        match old(store)@.next_task() {
            None => task is None && final(store)@ == old(store)@,
            Some(i) => {
                &&& task matches Some(t)
                &&& t.newsletter_issue_id == old(store)@.queue[i].newsletter_issue_id
                &&& t.subscriber_email@ == old(store)@.queue[i].subscriber_email
                &&& final(store)@ == old(store)@.claim(i)
            },
        },
{
    let mut i: usize = 0;
    while i < store.queue_len()
        invariant
            store@ == old(store)@,
            store@.wf(),
            i <= store@.queue.len(),
            forall|j: int| 0 <= j < i ==> (#[trigger] store@.queue[j]).claimed,
        decreases store@.queue.len() - i,
    {
        if !store.queue_entry(i).claimed {
            assert(is_first_unclaimed(store@.queue, i as int));
            assert(first_unclaimed(store@.queue) == i) by {
                let c = first_unclaimed(store@.queue);
                if c < i {
                    assert(store@.queue[c].claimed);
                } else if i < c {
                    assert(store@.queue[i as int].claimed);
                }
            }
            let entry = store.queue_entry(i);
            let task = ClaimedTask {
                newsletter_issue_id: entry.newsletter_issue_id,
                subscriber_email: entry.subscriber_email.clone(),
            };
            let claimed = DeliveryQueueEntry {
                newsletter_issue_id: entry.newsletter_issue_id,
                subscriber_email: entry.subscriber_email.clone(),
                claimed: true,
            };
            proof {
                lemma_claim_wf(store@, i as int);
            }
            store.replace_queue_entry(i, claimed);
            return Some(task);
        }
        i = i + 1;
    }
    assert(!has_unclaimed(store@.queue)) by {
        if has_unclaimed(store@.queue) {
            let c = first_unclaimed(store@.queue);
            assert(store@.queue[c].claimed);
        }
    }
    None
}

impl Store {
    /// Where the entry for `(issue_id, email)` stands, if a worker holds it.
    pub fn find_held_task(&self, issue_id: u128, email: &str) -> (found: Option<usize>)
        requires
            self@.wf(),
        ensures
            found is Some <==> holds_task(self@.queue, issue_id, email@),
            found matches Some(i) ==> i == held_task(self@.queue, issue_id, email@),
    {
        let mut i: usize = 0;
        while i < self.queue_len()
            invariant
                self@.wf(),
                i <= self@.queue.len(),
                forall|j: int|
                    0 <= j < i ==> !((#[trigger] self@.queue[j]).is_for(issue_id, email@)
                        && self@.queue[j].claimed),
            decreases self@.queue.len() - i,
        {
            let entry = self.queue_entry(i);
            if entry.claimed && entry.newsletter_issue_id == issue_id && text_equals(
                entry.subscriber_email.as_str(),
                email,
            ) {
                proof {
                    lemma_held_task_is(self@, issue_id, email@, i as int);
                }
                return Some(i);
            }
            i = i + 1;
        }
        None
    }
}

/// Retires the entry that a worker holds for `(issue_id, email)`: the
/// delivery is no longer owed.
pub fn delete_task(store: &mut Store, issue_id: u128, email: &str)
    requires
        old(store)@.wf(),
    ensures
        final(store)@.wf(),
        final(store)@ == old(store)@.delete_task(issue_id, email@),
        final(store)@.queue.len() <= old(store)@.queue.len(),
{
    proof {
        lemma_release_task_wf(store@, issue_id, email@);
    }
    match store.find_held_task(issue_id, email) {
        Some(i) => {
            store.remove_queue_entry(i);
        },
        None => {},
    }
}

/// Hands back the entry that a worker holds for `(issue_id, email)`: the
/// delivery is still owed and will be tried again.
pub fn release_task(store: &mut Store, issue_id: u128, email: &str)
    requires
        old(store)@.wf(),
    ensures
        final(store)@.wf(),
        final(store)@ == old(store)@.release_task(issue_id, email@),
        final(store)@.queue.len() == old(store)@.queue.len(),
{
    proof {
        lemma_release_task_wf(store@, issue_id, email@);
    }
    match store.find_held_task(issue_id, email) {
        Some(i) => {
            let mut entry = store.remove_queue_entry(i);
            entry.claimed = false;
            store.push_queue_entry(entry);
        },
        None => {},
    }
}

/// The issue with this id, if it is stored.
pub fn get_issue(store: &Store, issue_id: u128) -> (issue: Option<NewsletterIssue>)
    requires
        store@.wf(),
    ensures
        issue is Some <==> store@.has_issue(issue_id),
        issue matches Some(found) ==> found@ == store@.issue_of(issue_id),
{
    match store.find_issue(issue_id) {
        Some(i) => {
            proof {
                let c = index_of_issue(store@.issues, issue_id);
                if c < i {
                    assert(store@.issues[c].newsletter_issue_id
                        != store@.issues[i as int].newsletter_issue_id);
                } else if i < c {
                    assert(store@.issues[i as int].newsletter_issue_id
                        != store@.issues[c].newsletter_issue_id);
                }
            }
            Some(store.issue(i).clone())
        },
        None => None,
    }
}

} // verus!

//! One poll cycle of the worker as a state machine. The machine decides; the
//! caller does what it asks and reports what came of it.

use super::queue::{
    delete_task, dequeue_task, get_issue, release_task, ClaimedTask, ClaimedTaskView,
};
use crate::domain::subscriber_email::{is_valid_email, SubscriberEmail};
use crate::email_client::SendError;
use crate::store::rows::{NewsletterIssue, NewsletterIssueView};
use crate::store::tables::{Store, StoreView};
use vstd::prelude::*;

verus! {

/// What the operator sets for the worker.
#[derive(Clone, Copy, Debug, PartialEq, Eq, Structural)]
pub struct WorkerSettings {
    /// How long the worker sleeps when it finds nothing to claim, in
    /// milliseconds.
    pub poll_interval_ms: u64,
    /// How many entries the worker may hold at once.
    pub batch_size: usize,
}

/// An e-mail for the transport.
#[derive(Debug)]
pub struct EmailMessage {
    pub recipient: SubscriberEmail,
    pub subject: String,
    pub html_content: String,
    pub text_content: String,
}

/// What a `EmailMessage` holds, as mathematics.
pub struct EmailMessageView {
    pub recipient: Seq<char>,
    pub subject: Seq<char>,
    pub html_content: Seq<char>,
    pub text_content: Seq<char>,
}

impl View for EmailMessage {
    type V = EmailMessageView;

    open spec fn view(&self) -> EmailMessageView {
        EmailMessageView {
            recipient: self.recipient@,
            subject: self.subject@,
            html_content: self.html_content@,
            text_content: self.text_content@,
        }
    }
}

/// The e-mail that delivers `issue` to `recipient`.
pub open spec fn issue_email(issue: NewsletterIssueView, recipient: Seq<char>) -> EmailMessageView {
    EmailMessageView {
        recipient,
        subject: issue.title,
        html_content: issue.html_content,
        text_content: issue.text_content,
    }
}

/// A claimed entry together with the issue it is about.
#[derive(Debug)]
pub struct Delivery {
    pub task: ClaimedTask,
    pub issue: NewsletterIssue,
}

/// What a `Delivery` holds, as mathematics.
pub struct DeliveryView {
    pub task: ClaimedTaskView,
    pub issue: NewsletterIssueView,
}

impl View for Delivery {
    type V = DeliveryView;

    open spec fn view(&self) -> DeliveryView {
        DeliveryView { task: self.task@, issue: self.issue@ }
    }
}

/// The view of what a claim reports.
pub open spec fn delivery_view(delivery: Option<Delivery>) -> Option<DeliveryView> {
    match delivery {
        Some(d) => Some(d@),
        None => None,
    }
}

/// Where the worker stands in its poll cycle.
#[derive(Debug)]
pub enum WorkerState {
    /// Between two cycles.
    Idle,
    /// A claim has been asked for.
    Claiming,
    /// An e-mail for the held entry has been handed to the transport.
    Sending(ClaimedTask),
}

/// What a `WorkerState` holds, as mathematics.
pub enum WorkerStateView {
    Idle,
    Claiming,
    Sending(ClaimedTaskView),
}

impl View for WorkerState {
    type V = WorkerStateView;

    open spec fn view(&self) -> WorkerStateView {
        match self {
            WorkerState::Idle => WorkerStateView::Idle,
            WorkerState::Claiming => WorkerStateView::Claiming,
            WorkerState::Sending(task) => WorkerStateView::Sending(task@),
        }
    }
}

/// What the caller reports to the worker.
#[derive(Debug)]
pub enum WorkerEvent {
    /// It is time for the next cycle.
    Tick,
    /// The claim came back, with an entry or without.
    Claimed(Option<Delivery>),
    /// The transport came back.
    Sent(Result<(), SendError>),
}

/// What a `WorkerEvent` holds, as mathematics.
pub enum WorkerEventView {
    Tick,
    Claimed(Option<DeliveryView>),
    Sent(Result<(), SendError>),
}

impl View for WorkerEvent {
    type V = WorkerEventView;

    open spec fn view(&self) -> WorkerEventView {
        match self {
            WorkerEvent::Tick => WorkerEventView::Tick,
            WorkerEvent::Claimed(delivery) => WorkerEventView::Claimed(delivery_view(*delivery)),
            WorkerEvent::Sent(result) => WorkerEventView::Sent(*result),
        }
    }
}

/// Why an entry leaves the queue.
#[derive(Clone, Copy, Debug, PartialEq, Eq, Structural)]
pub enum DeleteCause {
    /// The transport took the e-mail.
    Delivered,
    /// The stored address is no e-mail address: no try can ever succeed.
    InvalidRecipient,
}

/// What the worker asks of the caller.
#[derive(Debug)]
pub enum WorkerAction {
    /// Claim an entry of the queue and report `Claimed`.
    Claim,
    /// Sleep for so many milliseconds, then report `Tick`.
    Sleep(u64),
    /// Hand the e-mail to the transport and report `Sent`.
    Send(EmailMessage),
    /// Delete the held entry, then report `Tick`.
    Delete { task: ClaimedTask, cause: DeleteCause },
    /// Release the held entry, then report `Tick`.
    Release(ClaimedTask),
}

/// What a `WorkerAction` holds, as mathematics.
pub enum WorkerActionView {
    Claim,
    Sleep(u64),
    Send(EmailMessageView),
    Delete { task: ClaimedTaskView, cause: DeleteCause },
    Release(ClaimedTaskView),
}

impl View for WorkerAction {
    type V = WorkerActionView;

    open spec fn view(&self) -> WorkerActionView {
        match self {
            WorkerAction::Claim => WorkerActionView::Claim,
            WorkerAction::Sleep(ms) => WorkerActionView::Sleep(*ms),
            WorkerAction::Send(message) => WorkerActionView::Send(message@),
            WorkerAction::Delete { task, cause } => WorkerActionView::Delete {
                task: task@,
                cause: *cause,
            },
            WorkerAction::Release(task) => WorkerActionView::Release(task@),
        }
    }
}

/// The view of a step of the worker.
pub open spec fn step_view(step: Option<(WorkerState, WorkerAction)>) -> Option<
    (WorkerStateView, WorkerActionView),
> {
    match step {
        Some((state, action)) => Some((state@, action@)),
        None => None,
    }
}

/// The worker's transition: the next state and what to do, or `None` where
/// the event is not one the state waits for.
///
/// Idle, on a tick, it asks for a claim. Claiming, it sleeps if nothing was
/// claimed; it has the entry deleted without a try if the stored address is
/// no e-mail address; otherwise it has the issue sent to the address.
/// Sending, it has the entry deleted if the transport took the e-mail and
/// released if it did not, whatever the kind of failure.
pub open spec fn worker_transition(
    state: WorkerStateView,
    event: WorkerEventView,
    settings: WorkerSettings,
) -> Option<(WorkerStateView, WorkerActionView)> {
    match (state, event) {
        (WorkerStateView::Idle, WorkerEventView::Tick) => Some(
            (WorkerStateView::Claiming, WorkerActionView::Claim),
        ),
        (WorkerStateView::Claiming, WorkerEventView::Claimed(None)) => Some(
            (WorkerStateView::Idle, WorkerActionView::Sleep(settings.poll_interval_ms)),
        ),
        (WorkerStateView::Claiming, WorkerEventView::Claimed(Some(delivery))) => if is_valid_email(
            delivery.task.subscriber_email,
        ) {
            Some(
                (
                    WorkerStateView::Sending(delivery.task),
                    WorkerActionView::Send(
                        issue_email(delivery.issue, delivery.task.subscriber_email),
                    ),
                ),
            )
        } else {
            Some(
                (
                    WorkerStateView::Idle,
                    WorkerActionView::Delete {
                        task: delivery.task,
                        cause: DeleteCause::InvalidRecipient,
                    },
                ),
            )
        },
        (WorkerStateView::Sending(task), WorkerEventView::Sent(Ok(()))) => Some(
            (
                WorkerStateView::Idle,
                WorkerActionView::Delete { task, cause: DeleteCause::Delivered },
            ),
        ),
        (WorkerStateView::Sending(task), WorkerEventView::Sent(Err(_))) => Some(
            (WorkerStateView::Idle, WorkerActionView::Release(task)),
        ),
        _ => None,
    }
}

/// Takes one step of the worker: what `worker_transition` says for the
/// state and the event.
pub fn worker_step(state: WorkerState, event: WorkerEvent, settings: &WorkerSettings) -> (step:
    Option<(WorkerState, WorkerAction)>)
    ensures
        step_view(step) == worker_transition(state@, event@, *settings),
{
    match (state, event) {
        (WorkerState::Idle, WorkerEvent::Tick) => Some((WorkerState::Claiming, WorkerAction::Claim)),
        (WorkerState::Claiming, WorkerEvent::Claimed(None)) => Some(
            (WorkerState::Idle, WorkerAction::Sleep(settings.poll_interval_ms)),
        ),
        (WorkerState::Claiming, WorkerEvent::Claimed(Some(delivery))) => {
            let Delivery { task, issue } = delivery;
            match SubscriberEmail::parse(task.subscriber_email.clone()) {
                Ok(recipient) => {
                    let message = EmailMessage {
                        recipient,
                        subject: issue.title,
                        html_content: issue.html_content,
                        text_content: issue.text_content,
                    };
                    Some((WorkerState::Sending(task), WorkerAction::Send(message)))
                },
                Err(_) => Some(
                    (
                        WorkerState::Idle,
                        WorkerAction::Delete { task, cause: DeleteCause::InvalidRecipient },
                    ),
                ),
            }
        },
        (WorkerState::Sending(task), WorkerEvent::Sent(Ok(()))) => Some(
            (WorkerState::Idle, WorkerAction::Delete { task, cause: DeleteCause::Delivered }),
        ),
        (WorkerState::Sending(task), WorkerEvent::Sent(Err(_))) => Some(
            (WorkerState::Idle, WorkerAction::Release(task)),
        ),
        _ => None,
    }
}

impl StoreView {
    /// What a claim reports: the first entry that no worker holds, with its
    /// issue.
    pub open spec fn next_delivery(self) -> Option<DeliveryView> {
        match self.next_task() {
            None => None,
            Some(i) => Some(
                DeliveryView {
                    task: ClaimedTaskView {
                        newsletter_issue_id: self.queue[i].newsletter_issue_id,
                        subscriber_email: self.queue[i].subscriber_email,
                    },
                    issue: self.issue_of(self.queue[i].newsletter_issue_id),
                },
            ),
        }
    }

    /// The store after the first half of a poll cycle: nothing changes if
    /// there is nothing to claim; an entry whose address is no e-mail address
    /// is gone; any other entry is held.
    pub open spec fn poll(self) -> StoreView {
        match self.next_task() {
            None => self,
            Some(i) => if is_valid_email(self.queue[i].subscriber_email) {
                self.claim(i)
            } else {
                self.drop_task(i)
            },
        }
    }

    /// The store after the second half of a poll cycle: the held entry is
    /// gone if the e-mail was delivered and back in the queue if it was not.
    pub open spec fn settle(self, task: ClaimedTaskView, delivered: bool) -> StoreView {
        if delivered {
            self.delete_task(task.newsletter_issue_id, task.subscriber_email)
        } else {
            self.release_task(task.newsletter_issue_id, task.subscriber_email)
        }
    }

    /// The entry for which the next poll cycle calls the transport, if it
    /// calls it at all.
    pub open spec fn attempt(self) -> Option<ClaimedTaskView> {
        match self.next_delivery() {
            Some(delivery) if is_valid_email(delivery.task.subscriber_email) => Some(delivery.task),
            _ => None,
        }
    }

    /// The store after one whole poll cycle of a single worker, `delivered`
    /// telling whether the transport takes the e-mail if it is called.
    pub open spec fn cycle(self, delivered: bool) -> StoreView {
        match self.attempt() {
            Some(task) => self.poll().settle(task, delivered),
            None => self.poll(),
        }
    }

    /// The store after as many poll cycles of a single worker as `outcomes`
    /// is long, `outcomes[k]` being what the transport does in cycle `k`.
    pub open spec fn run(self, outcomes: Seq<bool>) -> StoreView
        decreases outcomes.len(),
    {
        if outcomes.len() == 0 {
            self
        } else {
            self.cycle(outcomes.first()).run(outcomes.drop_first())
        }
    }

    /// The entries for which the transport is called in the cycles of `run`,
    /// cycle by cycle.
    pub open spec fn attempts(self, outcomes: Seq<bool>) -> Seq<Option<ClaimedTaskView>>
        decreases outcomes.len(),
    {
        if outcomes.len() == 0 {
            Seq::empty()
        } else {
            seq![self.attempt()] + self.cycle(outcomes.first()).attempts(outcomes.drop_first())
        }
    }
}

/// The first half of a poll cycle on the store: claims an entry and lets the
/// worker decide. What the worker asks of the store is done; the state and
/// the action are handed back, the action being `Sleep`, `Send`, or the
/// `Delete` that was carried out.
pub fn poll(store: &mut Store, settings: &WorkerSettings) -> (step: (WorkerState, WorkerAction))
    requires
        old(store)@.wf(),
    ensures
        final(store)@.wf(),
        final(store)@ == old(store)@.poll(),
        final(store)@.queue.len() <= old(store)@.queue.len(),
        Some((step.0@, step.1@)) == worker_transition(
            WorkerStateView::Claiming,
            WorkerEventView::Claimed(old(store)@.next_delivery()),
            *settings,
        ),
{
    let delivery = match dequeue_task(store) {
        None => None,
        Some(task) => {
            match get_issue(store, task.newsletter_issue_id) {
                Some(issue) => Some(Delivery { task, issue }),
                None => {
                    proof {
                        let i = old(store)@.next_task()->0;
                        assert(old(store)@.has_issue(old(store)@.queue[i].newsletter_issue_id));
                        assert(store@.issues == old(store)@.issues);
                    }
                    None
                },
            }
        },
    };
    match worker_step(WorkerState::Claiming, WorkerEvent::Claimed(delivery), settings) {
        Some((state, action)) => {
            match &action {
                WorkerAction::Delete { task, cause: _ } => {
                    proof {
                        let i = old(store)@.next_task()->0;
                        super::queue::lemma_claim_wf(old(store)@, i);
                        assert(old(store)@.claim(i).queue.remove(i) =~= old(store)@.queue.remove(i));
                    }
                    delete_task(store, task.newsletter_issue_id, task.subscriber_email.as_str());
                },
                _ => {},
            }
            (state, action)
        },
        None => (WorkerState::Idle, WorkerAction::Sleep(settings.poll_interval_ms)),
    }
}

/// The second half of a poll cycle on the store: reports to the worker what
/// the transport said and carries out the `Delete` or the `Release` that the
/// worker asks for. `None`, and nothing done, where the worker was not
/// sending.
pub fn settle(
    store: &mut Store,
    state: WorkerState,
    result: Result<(), SendError>,
    settings: &WorkerSettings,
) -> (step: Option<(WorkerState, WorkerAction)>)
    requires
        old(store)@.wf(),
    ensures
        final(store)@.wf(),
        final(store)@.queue.len() <= old(store)@.queue.len(),
        step_view(step) == worker_transition(state@, WorkerEventView::Sent(result), *settings),
        final(store)@ == (match state@ {
            WorkerStateView::Sending(task) => old(store)@.settle(task, result is Ok),
            _ => old(store)@,
        }),
{
    match worker_step(state, WorkerEvent::Sent(result), settings) {
        Some((next, action)) => {
            match &action {
                WorkerAction::Delete { task, cause: _ } => {
                    delete_task(store, task.newsletter_issue_id, task.subscriber_email.as_str());
                },
                WorkerAction::Release(task) => {
                    release_task(store, task.newsletter_issue_id, task.subscriber_email.as_str());
                },
                _ => {},
            }
            Some((next, action))
        },
        None => None,
    }
}

impl StoreView {
    /// The store after a worker has claimed a batch of `n` entries at most,
    /// and the steps it is to take for them: for each entry in turn, what the
    /// first half of a poll cycle does. The batch ends early where nothing is
    /// left to claim.
    pub open spec fn poll_batch(self, settings: WorkerSettings, n: nat) -> (
        StoreView,
        Seq<(WorkerStateView, WorkerActionView)>,
    )
        decreases n,
    {
        if n == 0 || self.next_task() is None {
            (self, Seq::empty())
        } else {
            let step = worker_transition(
                WorkerStateView::Claiming,
                WorkerEventView::Claimed(self.next_delivery()),
                settings,
            )->0;
            let (after, steps) = self.poll().poll_batch(settings, (n - 1) as nat);
            (after, seq![step] + steps)
        }
    }
}

/// The views of steps of the worker, in order.
pub open spec fn step_views(steps: Seq<(WorkerState, WorkerAction)>) -> Seq<
    (WorkerStateView, WorkerActionView),
> {
    steps.map_values(|step: (WorkerState, WorkerAction)| (step.0@, step.1@))
}

/// Claims a batch of entries, `batch_size` at most: the first half of a poll
/// cycle, once for each entry that can be claimed. An empty batch tells the
/// worker that it may sleep.
pub fn poll_batch(store: &mut Store, settings: &WorkerSettings) -> (steps: Vec<
    (WorkerState, WorkerAction),
>)
    requires
        old(store)@.wf(),
    ensures
        final(store)@.wf(),
        final(store)@.queue.len() <= old(store)@.queue.len(),
        (final(store)@, step_views(steps@)) == old(store)@.poll_batch(
            *settings,
            settings.batch_size as nat,
        ),
{
    let mut steps: Vec<(WorkerState, WorkerAction)> = Vec::new();
    let mut claimed: usize = 0;
    assert(step_views(steps@) =~= Seq::empty());
    assert(Seq::<(WorkerStateView, WorkerActionView)>::empty() + store@.poll_batch(
        *settings,
        settings.batch_size as nat,
    ).1 =~= store@.poll_batch(*settings, settings.batch_size as nat).1);
    while claimed < settings.batch_size
        invariant
            store@.wf(),
            claimed <= settings.batch_size,
            store@.queue.len() <= old(store)@.queue.len(),
            old(store)@.poll_batch(*settings, settings.batch_size as nat) == (
                store@.poll_batch(*settings, (settings.batch_size - claimed) as nat).0,
                step_views(steps@) + store@.poll_batch(
                    *settings,
                    (settings.batch_size - claimed) as nat,
                ).1,
            ),
        decreases settings.batch_size - claimed,
    {
        let ghost before = store@;
        let ghost taken = step_views(steps@);
        let ghost left = (settings.batch_size - claimed) as nat;
        let step = poll(store, settings);
        if let WorkerAction::Sleep(_) = &step.1 {
            proof {
                assert(before.next_task() is None);
                assert(taken + Seq::<(WorkerStateView, WorkerActionView)>::empty() =~= taken);
            }
            return steps;
        }
        proof {
            assert(before.next_task() is Some);
            let rest = store@.poll_batch(*settings, (left - 1) as nat);
            assert(before.poll_batch(*settings, left) == (rest.0, seq![(step.0@, step.1@)] + rest.1));
            assert(taken + (seq![(step.0@, step.1@)] + rest.1) =~= taken.push((step.0@, step.1@))
                + rest.1);
        }
        steps.push(step);
        proof {
            assert(step_views(steps@) =~= taken.push((step.0@, step.1@)));
        }
        claimed = claimed + 1;
    }
    proof {
        assert(step_views(steps@) + Seq::<(WorkerStateView, WorkerActionView)>::empty()
            =~= step_views(steps@));
    }
    steps
}

} // verus!

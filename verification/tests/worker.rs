use z2p::issue_delivery_worker::{
    delete_task, dequeue_task, get_issue, poll, poll_batch, release_task, settle, worker_step,
    ClaimedTask,
    DeleteCause, Delivery, SendError, WorkerAction, WorkerEvent, WorkerSettings, WorkerState,
};
use z2p::routes::admin::newsletters::{publish_newsletter_with_id, BodySchema, PublishOutcome};
use z2p::routes::subscriptions::{confirm_subscriber, insert_subscriber_with_id, restore_subscriber};
use z2p::store::{NewsletterIssue, Store, Subscriber, SubscriptionStatus};

const SETTINGS: WorkerSettings = WorkerSettings { poll_interval_ms: 750, batch_size: 2 };

fn confirmed(store: &mut Store, id: u128, email: &str) {
    let subscriber = z2p::domain::NewSubscriber::parse("Name".to_string(), email.to_string()).unwrap();
    insert_subscriber_with_id(store, id, &subscriber, 1).unwrap();
    confirm_subscriber(store, id);
}

fn publish(store: &mut Store, key: &str, issue_id: u128) {
    let body = BodySchema {
        title: format!("Issue {}", issue_id),
        text: "plain".to_string(),
        html: "<p>rich</p>".to_string(),
        idempotency_key: key.to_string(),
    };
    match publish_newsletter_with_id(store, 1, body, issue_id, 9) {
        PublishOutcome::Respond { response, .. } => assert_eq!(response.status_code, 303),
        other => panic!("unexpected outcome {:?}", other),
    }
}

fn emails(store: &Store) -> Vec<(u128, String, bool)> {
    (0..store.queue_len())
        .map(|i| {
            let entry = store.queue_entry(i);
            (entry.newsletter_issue_id, entry.subscriber_email.clone(), entry.claimed)
        })
        .collect()
}

fn issue() -> NewsletterIssue {
    NewsletterIssue {
        newsletter_issue_id: 4,
        title: "Title".to_string(),
        text_content: "text".to_string(),
        html_content: "<b>html</b>".to_string(),
        published_at: 3,
    }
}

fn task(email: &str) -> ClaimedTask {
    ClaimedTask { newsletter_issue_id: 4, subscriber_email: email.to_string() }
}

#[test]
fn an_idle_worker_claims_on_a_tick() {
    let (state, action) = worker_step(WorkerState::Idle, WorkerEvent::Tick, &SETTINGS).unwrap();
    assert!(matches!(state, WorkerState::Claiming));
    assert!(matches!(action, WorkerAction::Claim));
}

#[test]
fn a_worker_that_finds_nothing_sleeps_for_the_poll_interval() {
    let (state, action) =
        worker_step(WorkerState::Claiming, WorkerEvent::Claimed(None), &SETTINGS).unwrap();
    assert!(matches!(state, WorkerState::Idle));
    assert!(matches!(action, WorkerAction::Sleep(750)));
}

#[test]
fn a_worker_sends_the_issue_to_a_valid_address() {
    let delivery = Delivery { task: task("ann@example.com"), issue: issue() };
    let (state, action) =
        worker_step(WorkerState::Claiming, WorkerEvent::Claimed(Some(delivery)), &SETTINGS).unwrap();
    match state {
        WorkerState::Sending(held) => {
            assert_eq!(held.newsletter_issue_id, 4);
            assert_eq!(held.subscriber_email, "ann@example.com");
        }
        other => panic!("unexpected state {:?}", other),
    }
    match action {
        WorkerAction::Send(message) => {
            assert_eq!(message.recipient.as_ref(), "ann@example.com");
            assert_eq!(message.subject, "Title");
            assert_eq!(message.html_content, "<b>html</b>");
            assert_eq!(message.text_content, "text");
        }
        other => panic!("unexpected action {:?}", other),
    }
}

#[test]
fn a_worker_deletes_an_entry_with_an_invalid_address_without_sending() {
    let delivery = Delivery { task: task("not an address"), issue: issue() };
    let (state, action) =
        worker_step(WorkerState::Claiming, WorkerEvent::Claimed(Some(delivery)), &SETTINGS).unwrap();
    assert!(matches!(state, WorkerState::Idle));
    match action {
        WorkerAction::Delete { task, cause } => {
            assert_eq!(cause, DeleteCause::InvalidRecipient);
            assert_eq!(task.subscriber_email, "not an address");
            assert_eq!(task.newsletter_issue_id, 4);
        }
        other => panic!("unexpected action {:?}", other),
    }
}

#[test]
fn a_worker_deletes_after_delivery_and_releases_after_any_failure() {
    let sending = || WorkerState::Sending(task("ann@example.com"));
    let (state, action) = worker_step(sending(), WorkerEvent::Sent(Ok(())), &SETTINGS).unwrap();
    assert!(matches!(state, WorkerState::Idle));
    assert!(matches!(action, WorkerAction::Delete { cause: DeleteCause::Delivered, .. }));
    for error in [SendError::Transient, SendError::Permanent] {
        let (state, action) = worker_step(sending(), WorkerEvent::Sent(Err(error)), &SETTINGS).unwrap();
        assert!(matches!(state, WorkerState::Idle));
        match action {
            WorkerAction::Release(task) => assert_eq!(task.subscriber_email, "ann@example.com"),
            other => panic!("unexpected action {:?}", other),
        }
    }
}

#[test]
fn a_worker_takes_no_event_it_does_not_wait_for() {
    assert!(worker_step(WorkerState::Idle, WorkerEvent::Claimed(None), &SETTINGS).is_none());
    assert!(worker_step(WorkerState::Idle, WorkerEvent::Sent(Ok(())), &SETTINGS).is_none());
    assert!(worker_step(WorkerState::Claiming, WorkerEvent::Tick, &SETTINGS).is_none());
    assert!(worker_step(WorkerState::Claiming, WorkerEvent::Sent(Ok(())), &SETTINGS).is_none());
    let sending = || WorkerState::Sending(task("ann@example.com"));
    assert!(worker_step(sending(), WorkerEvent::Tick, &SETTINGS).is_none());
    assert!(worker_step(sending(), WorkerEvent::Claimed(None), &SETTINGS).is_none());
    let mut store = Store::new();
    assert!(settle(&mut store, WorkerState::Idle, Ok(()), &SETTINGS).is_none());
    assert!(settle(&mut store, WorkerState::Claiming, Err(SendError::Transient), &SETTINGS).is_none());
}

fn stored(store: &mut Store, id: u128, email: &str) {
    let row = Subscriber {
        id,
        email: email.to_string(),
        name: "Name".to_string(),
        subscribed_at: 1,
        status: SubscriptionStatus::Confirmed,
    };
    restore_subscriber(store, row).unwrap();
}

#[test]
fn an_entry_with_an_invalid_stored_address_is_removed_and_blocks_nobody() {
    let mut store = Store::new();
    stored(&mut store, 1, "ann@example.com");
    stored(&mut store, 2, "bob-at-example.com");
    stored(&mut store, 3, "cyd@example.com");
    publish(&mut store, "K1", 100);
    assert_eq!(store.queue_len(), 3);

    let mut sent = Vec::new();
    let mut discarded = Vec::new();
    let mut lengths = vec![store.queue_len()];
    loop {
        let (state, action) = poll(&mut store, &SETTINGS);
        lengths.push(store.queue_len());
        match action {
            WorkerAction::Send(message) => {
                sent.push(message.recipient.as_ref().to_string());
                settle(&mut store, state, Ok(()), &SETTINGS).unwrap();
                lengths.push(store.queue_len());
            }
            WorkerAction::Delete { task, cause } => {
                assert_eq!(cause, DeleteCause::InvalidRecipient);
                assert!(matches!(state, WorkerState::Idle));
                discarded.push(task.subscriber_email);
            }
            WorkerAction::Sleep(_) => break,
            other => panic!("unexpected action {:?}", other),
        }
    }
    assert_eq!(sent, vec!["ann@example.com".to_string(), "cyd@example.com".to_string()]);
    assert_eq!(discarded, vec!["bob-at-example.com".to_string()]);
    assert_eq!(store.queue_len(), 0);
    assert!(lengths.windows(2).all(|w| w[1] <= w[0]));
}

#[test]
fn every_entry_is_tried_even_if_the_transport_fails_for_those_before_it() {
    let mut store = Store::new();
    for (id, email) in [(1, "ann@example.com"), (2, "bob@example.com"), (3, "cyd@example.com")] {
        confirmed(&mut store, id, email);
    }
    publish(&mut store, "K1", 100);
    let mut tried = Vec::new();
    for _ in 0..3 {
        let (state, action) = poll(&mut store, &SETTINGS);
        match action {
            WorkerAction::Send(message) => tried.push(message.recipient.as_ref().to_string()),
            other => panic!("unexpected action {:?}", other),
        }
        settle(&mut store, state, Err(SendError::Transient), &SETTINGS).unwrap();
        assert_eq!(store.queue_len(), 3);
    }
    assert_eq!(
        tried,
        vec!["ann@example.com".to_string(), "bob@example.com".to_string(), "cyd@example.com".to_string()]
    );
    assert_eq!(
        emails(&store),
        vec![
            (100, "ann@example.com".to_string(), false),
            (100, "bob@example.com".to_string(), false),
            (100, "cyd@example.com".to_string(), false)
        ]
    );
    // now the transport recovers and the queue drains
    for left in [2, 1, 0] {
        let (state, _) = poll(&mut store, &SETTINGS);
        settle(&mut store, state, Ok(()), &SETTINGS).unwrap();
        assert_eq!(store.queue_len(), left);
    }
    assert!(matches!(poll(&mut store, &SETTINGS).1, WorkerAction::Sleep(750)));
}

#[test]
fn two_workers_never_hold_the_same_entry() {
    let mut store = Store::new();
    confirmed(&mut store, 1, "ann@example.com");
    confirmed(&mut store, 2, "bob@example.com");
    publish(&mut store, "K1", 100);
    let first = dequeue_task(&mut store).unwrap();
    let second = dequeue_task(&mut store).unwrap();
    assert_eq!(first.subscriber_email, "ann@example.com");
    assert_eq!(second.subscriber_email, "bob@example.com");
    assert!(dequeue_task(&mut store).is_none());
    assert_eq!(
        emails(&store),
        vec![(100, "ann@example.com".to_string(), true), (100, "bob@example.com".to_string(), true)]
    );
    // a worker that stops before it has settled hands its entry back: it is claimable again
    release_task(&mut store, first.newsletter_issue_id, &first.subscriber_email);
    let again = dequeue_task(&mut store).unwrap();
    assert_eq!(again.subscriber_email, "ann@example.com");
    delete_task(&mut store, second.newsletter_issue_id, &second.subscriber_email);
    assert_eq!(emails(&store), vec![(100, "ann@example.com".to_string(), true)]);
}

#[test]
fn only_a_held_entry_can_be_deleted_or_released() {
    let mut store = Store::new();
    confirmed(&mut store, 1, "ann@example.com");
    publish(&mut store, "K1", 100);
    delete_task(&mut store, 100, "ann@example.com");
    release_task(&mut store, 100, "ann@example.com");
    delete_task(&mut store, 100, "nobody@example.com");
    assert_eq!(emails(&store), vec![(100, "ann@example.com".to_string(), false)]);
    let task = dequeue_task(&mut store).unwrap();
    delete_task(&mut store, 101, &task.subscriber_email);
    assert_eq!(store.queue_len(), 1);
    delete_task(&mut store, 100, &task.subscriber_email);
    assert_eq!(store.queue_len(), 0);
}

#[test]
fn an_issue_is_found_by_its_id() {
    let mut store = Store::new();
    publish(&mut store, "K1", 100);
    publish(&mut store, "K2", 200);
    let found = get_issue(&store, 200).unwrap();
    assert_eq!(found.title, "Issue 200");
    assert_eq!(found.text_content, "plain");
    assert_eq!(found.html_content, "<p>rich</p>");
    assert_eq!(found.published_at, 9);
    assert!(get_issue(&store, 300).is_none());
    assert_eq!(store.find_issue(100), Some(0));
    assert_eq!(store.find_issue(300), None);
}

#[test]
fn a_refusal_is_permanent_and_anything_else_is_transient() {
    for status in [400, 404, 422, 499] {
        assert_eq!(SendError::from_status(Some(status)), SendError::Permanent);
    }
    for status in [399, 500, 503, 200, 0, u16::MAX] {
        assert_eq!(SendError::from_status(Some(status)), SendError::Transient);
    }
    assert_eq!(SendError::from_status(None), SendError::Transient);
}

#[test]
fn a_batch_holds_as_many_entries_as_the_settings_allow() {
    let mut store = Store::new();
    stored(&mut store, 1, "ann@example.com");
    stored(&mut store, 2, "bob-at-example.com");
    stored(&mut store, 3, "cyd@example.com");
    stored(&mut store, 4, "dan@example.com");
    publish(&mut store, "K1", 100);

    // two at most: one to send, one to discard
    let batch = poll_batch(&mut store, &SETTINGS);
    assert_eq!(batch.len(), 2);
    assert!(matches!(&batch[0], (WorkerState::Sending(task), WorkerAction::Send(_)) if task.subscriber_email == "ann@example.com"));
    assert!(matches!(
        &batch[1],
        (WorkerState::Idle, WorkerAction::Delete { task, cause: DeleteCause::InvalidRecipient })
            if task.subscriber_email == "bob-at-example.com"
    ));
    assert_eq!(
        emails(&store),
        vec![
            (100, "ann@example.com".to_string(), true),
            (100, "cyd@example.com".to_string(), false),
            (100, "dan@example.com".to_string(), false)
        ]
    );

    // the next batch takes what nobody holds
    let next = poll_batch(&mut store, &WorkerSettings { poll_interval_ms: 750, batch_size: 5 });
    assert_eq!(next.len(), 2);
    assert!(matches!(&next[1], (WorkerState::Sending(task), _) if task.subscriber_email == "dan@example.com"));
    assert!(emails(&store).iter().all(|(_, _, claimed)| *claimed));
    assert!(poll_batch(&mut store, &SETTINGS).is_empty());

    // every entry of the batches is settled on its own
    for (state, _) in batch.into_iter().chain(next) {
        if let WorkerState::Sending(_) = &state {
            settle(&mut store, state, Ok(()), &SETTINGS).unwrap();
        }
    }
    assert_eq!(store.queue_len(), 0);
    assert!(poll_batch(&mut store, &WorkerSettings { poll_interval_ms: 1, batch_size: 0 }).is_empty());
}

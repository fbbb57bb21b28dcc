use z2p::domain::ConfirmationToken;
use z2p::idempotency::{
    abort, save_response, try_processing, IdempotencyKey, IdempotencyKeyError, NextAction,
};
use z2p::issue_delivery_worker::{
    poll, settle, DeleteCause, SendError, WorkerAction, WorkerSettings, WorkerState,
};
use z2p::response::Response;
use z2p::routes::admin::newsletters::{
    await_peer, enqueue_delivery_tasks, insert_newsletter_issue, insert_newsletter_issue_with_id,
    publish_newsletter, publish_newsletter_with_id, AwaitDecision, AwaitPolicy, BodySchema,
    PublishOutcome,
};
use z2p::routes::helpers::{see_other, Level};
use z2p::routes::subscriptions::{finish_subscribe, subscribe_with, FormData, SubscribeStep};
use z2p::routes::subscriptions_confirm::{confirm, Parameters};
use z2p::startup::ApplicationBaseURL;
use z2p::store::{Store, StoreError};

const SETTINGS: WorkerSettings = WorkerSettings { poll_interval_ms: 10_000, batch_size: 1 };

fn token(seed: char) -> ConfirmationToken {
    ConfirmationToken::parse(seed.to_string().repeat(25)).unwrap()
}

fn add_subscriber(store: &mut Store, id: u128, name: &str, email: &str, seed: char, confirmed: bool) {
    let base_url = ApplicationBaseURL("http://127.0.0.1".to_string());
    let form = FormData { name: name.to_string(), email: email.to_string() };
    let pending = match subscribe_with(store, form, &base_url, id, token(seed), 1) {
        SubscribeStep::SendConfirmation { pending, .. } => pending,
        other => panic!("unexpected step {:?}", other),
    };
    finish_subscribe(store, pending, Ok(())).unwrap();
    if confirmed {
        let response = confirm(store, &Parameters { subscription_token: token(seed) });
        assert_eq!(response.status_code, 200);
    }
}

fn body(key: &str) -> BodySchema {
    BodySchema {
        title: "T".to_string(),
        text: "T".to_string(),
        html: "<p>H</p>".to_string(),
        idempotency_key: key.to_string(),
    }
}

fn queue(store: &Store) -> Vec<(u128, String, bool)> {
    (0..store.queue_len())
        .map(|i| {
            let entry = store.queue_entry(i);
            (entry.newsletter_issue_id, entry.subscriber_email.clone(), entry.claimed)
        })
        .collect()
}

fn response_of(outcome: PublishOutcome) -> Response {
    match outcome {
        PublishOutcome::Respond { response, notice } => {
            assert_eq!(notice.level, Level::Info);
            assert_eq!(
                notice.content,
                "The newsletter issue has been accepted - emails will go out shortly."
            );
            response
        }
        other => panic!("unexpected outcome {:?}", other),
    }
}

fn same_response(a: &Response, b: &Response) -> bool {
    a.status_code == b.status_code
        && a.body == b.body
        && a.headers.len() == b.headers.len()
        && a.headers.iter().zip(b.headers.iter()).all(|(x, y)| x.name == y.name && x.value == y.value)
}

fn store_with_two_confirmed_and_one_pending() -> Store {
    let mut store = Store::new();
    add_subscriber(&mut store, 1, "Ann", "ann@example.com", 'a', true);
    add_subscriber(&mut store, 2, "Bob", "bob@example.com", 'b', false);
    add_subscriber(&mut store, 3, "Cyd", "cyd@example.com", 'c', true);
    store
}

#[test]
fn publishing_with_two_confirmed_and_one_pending_subscriber() {
    let mut store = store_with_two_confirmed_and_one_pending();

    let first = response_of(publish_newsletter_with_id(&mut store, 7, body("K1"), 100, 5));
    assert_eq!(first.status_code, 303);
    assert_eq!(first.headers.len(), 1);
    assert_eq!(first.headers[0].name, "location");
    assert_eq!(first.headers[0].value, b"/admin/newsletters".to_vec());
    assert!(first.body.is_empty());
    assert_eq!(store.issue_count(), 1);
    let issue = store.issue(0);
    assert_eq!(issue.newsletter_issue_id, 100);
    assert_eq!(issue.title, "T");
    assert_eq!(issue.text_content, "T");
    assert_eq!(issue.html_content, "<p>H</p>");
    assert_eq!(issue.published_at, 5);
    assert_eq!(
        queue(&store),
        vec![
            (100, "ann@example.com".to_string(), false),
            (100, "cyd@example.com".to_string(), false)
        ]
    );

    // the worker drains both
    let mut sent = Vec::new();
    loop {
        let (state, action) = poll(&mut store, &SETTINGS);
        match action {
            WorkerAction::Send(message) => {
                assert_eq!(message.subject, "T");
                assert_eq!(message.html_content, "<p>H</p>");
                assert_eq!(message.text_content, "T");
                sent.push(message.recipient.as_ref().to_string());
                let (next, done) = settle(&mut store, state, Ok(()), &SETTINGS).unwrap();
                assert!(matches!(next, WorkerState::Idle));
                assert!(matches!(done, WorkerAction::Delete { cause: DeleteCause::Delivered, .. }));
            }
            WorkerAction::Sleep(ms) => {
                assert_eq!(ms, 10_000);
                break;
            }
            other => panic!("unexpected action {:?}", other),
        }
    }
    assert_eq!(sent, vec!["ann@example.com".to_string(), "cyd@example.com".to_string()]);
    assert_eq!(store.queue_len(), 0);

    // the same request again
    let second = response_of(publish_newsletter_with_id(&mut store, 7, body("K1"), 101, 6));
    assert!(same_response(&first, &second));
    assert_eq!(store.issue_count(), 1);
    assert_eq!(store.queue_len(), 0);
    assert_eq!(store.record_count(), 1);
}

#[test]
fn newsletter_creation_is_idempotent_before_the_worker_runs() {
    let mut store = store_with_two_confirmed_and_one_pending();
    let first = response_of(publish_newsletter_with_id(&mut store, 7, body("K1"), 100, 5));
    let second = response_of(publish_newsletter_with_id(&mut store, 7, body("K1"), 101, 6));
    assert!(same_response(&first, &second));
    assert_eq!(store.issue_count(), 1);
    assert_eq!(store.queue_len(), 2);
}

#[test]
fn the_same_key_of_another_user_is_another_request() {
    let mut store = store_with_two_confirmed_and_one_pending();
    response_of(publish_newsletter_with_id(&mut store, 7, body("K1"), 100, 5));
    response_of(publish_newsletter_with_id(&mut store, 8, body("K1"), 101, 6));
    response_of(publish_newsletter_with_id(&mut store, 7, body("K2"), 102, 7));
    assert_eq!(store.issue_count(), 3);
    assert_eq!(store.queue_len(), 6);
    assert_eq!(store.record_count(), 3);
}

#[test]
fn a_pending_subscriber_gets_no_newsletter_even_after_confirming_later() {
    let mut store = store_with_two_confirmed_and_one_pending();
    response_of(publish_newsletter_with_id(&mut store, 7, body("K1"), 100, 5));
    let response = confirm(&mut store, &Parameters { subscription_token: token('b') });
    assert_eq!(response.status_code, 200);
    assert!(queue(&store).iter().all(|(_, email, _)| email != "bob@example.com"));
    assert_eq!(store.queue_len(), 2);
    // the next issue does go to all three
    response_of(publish_newsletter_with_id(&mut store, 7, body("K2"), 101, 6));
    assert_eq!(
        queue(&store)[2..].to_vec(),
        vec![
            (101, "ann@example.com".to_string(), false),
            (101, "bob@example.com".to_string(), false),
            (101, "cyd@example.com".to_string(), false)
        ]
    );
}

#[test]
fn unconfirmed_subscribers_only_means_an_empty_queue() {
    let mut store = Store::new();
    add_subscriber(&mut store, 1, "Ann", "ann@example.com", 'a', false);
    let response = response_of(publish_newsletter_with_id(&mut store, 7, body("K1"), 100, 5));
    assert_eq!(response.status_code, 303);
    assert_eq!(store.issue_count(), 1);
    assert_eq!(store.queue_len(), 0);
}

#[test]
fn a_malformed_key_is_refused_with_400_before_the_store_is_touched() {
    let mut store = store_with_two_confirmed_and_one_pending();
    let cases = [
        ("", "The idempotency key cannot be empty"),
        (
            "01234567890123456789012345678901234567890123456789",
            "The idempotency key must be shorter than 50 characters",
        ),
        ("K\u{7}1", "The idempotency key must hold printable characters only"),
    ];
    for (key, message) in cases {
        match publish_newsletter_with_id(&mut store, 7, body(key), 100, 5) {
            PublishOutcome::Fail(e) => {
                assert_eq!(e.status_code, 400);
                assert_eq!(e.message, message);
            }
            other => panic!("unexpected outcome {:?}", other),
        }
        assert_eq!(store.issue_count(), 0);
        assert_eq!(store.queue_len(), 0);
        assert_eq!(store.record_count(), 0);
    }
}

#[test]
fn a_request_that_fails_leaves_nothing_behind_and_its_retry_starts_afresh() {
    let mut store = store_with_two_confirmed_and_one_pending();
    response_of(publish_newsletter_with_id(&mut store, 7, body("K1"), 100, 5));
    // the id of the new issue is taken
    match publish_newsletter_with_id(&mut store, 7, body("K2"), 100, 6) {
        PublishOutcome::Fail(e) => {
            assert_eq!(e.status_code, 500);
            assert_eq!(e.message, "Failed to store newsletter issue details");
        }
        other => panic!("unexpected outcome {:?}", other),
    }
    assert_eq!(store.issue_count(), 1);
    assert_eq!(store.queue_len(), 2);
    assert_eq!(store.record_count(), 1);
    let retry = response_of(publish_newsletter_with_id(&mut store, 7, body("K2"), 101, 7));
    assert_eq!(retry.status_code, 303);
    assert_eq!(store.issue_count(), 2);
    assert_eq!(store.queue_len(), 4);
}

#[test]
fn a_duplicate_in_flight_waits_and_is_then_answered_like_the_first() {
    let mut store = store_with_two_confirmed_and_one_pending();
    let key = IdempotencyKey::parse("K1".to_string()).unwrap();
    let mut transaction = match try_processing(&mut store, &key, 7) {
        NextAction::StartProcessing(transaction) => transaction,
        _ => panic!("a fresh key starts processing"),
    };
    assert_eq!(transaction.user_id(), 7);
    assert_eq!(transaction.idempotency_key(), "K1");
    assert_eq!(transaction.issue_id(), None);
    assert!(!transaction.is_enqueued());

    // the duplicate arrives while the first is at work
    assert!(matches!(
        publish_newsletter_with_id(&mut store, 7, body("K1"), 555, 5),
        PublishOutcome::AwaitPeer
    ));
    assert!(matches!(try_processing(&mut store, &key, 7), NextAction::AwaitPeer));
    assert_eq!(store.issue_count(), 0);
    assert_eq!(store.queue_len(), 0);
    assert_eq!(store.record_count(), 1);
    assert!(store.record(0).response.is_none());

    // the first goes on and commits
    let id = insert_newsletter_issue_with_id(&store, &mut transaction, 100, "T", "T", "<p>H</p>", 5)
        .unwrap();
    assert_eq!(id, 100);
    assert_eq!(transaction.issue_id(), Some(100));
    enqueue_delivery_tasks(&store, &mut transaction, id).unwrap();
    assert!(transaction.is_enqueued());
    assert_eq!(store.issue_count(), 0);
    assert_eq!(store.queue_len(), 0);
    let first = save_response(&mut store, transaction, see_other("/admin/newsletters")).unwrap();
    assert_eq!(store.issue_count(), 1);
    assert_eq!(store.queue_len(), 2);

    // the duplicate tries again
    let second = response_of(publish_newsletter_with_id(&mut store, 7, body("K1"), 555, 6));
    assert!(same_response(&first, &second));
    match try_processing(&mut store, &key, 7) {
        NextAction::ReturnSavedResponse(saved) => assert!(same_response(&first, &saved)),
        _ => panic!("a completed key replays"),
    }
    assert_eq!(store.issue_count(), 1);
    assert_eq!(store.queue_len(), 2);
}

#[test]
fn an_aborted_transaction_frees_its_key() {
    let mut store = store_with_two_confirmed_and_one_pending();
    let key = IdempotencyKey::parse("K1".to_string()).unwrap();
    let mut transaction = match try_processing(&mut store, &key, 7) {
        NextAction::StartProcessing(transaction) => transaction,
        _ => panic!("a fresh key starts processing"),
    };
    insert_newsletter_issue_with_id(&store, &mut transaction, 100, "T", "T", "<p>H</p>", 5).unwrap();
    enqueue_delivery_tasks(&store, &mut transaction, 100).unwrap();
    abort(&mut store, transaction);
    assert_eq!(store.record_count(), 0);
    assert_eq!(store.issue_count(), 0);
    assert_eq!(store.queue_len(), 0);
    assert!(matches!(try_processing(&mut store, &key, 7), NextAction::StartProcessing(_)));
}

#[test]
fn the_store_refuses_what_breaks_the_schema() {
    let mut store = store_with_two_confirmed_and_one_pending();
    let key = IdempotencyKey::parse("K1".to_string()).unwrap();
    let mut transaction = match try_processing(&mut store, &key, 7) {
        NextAction::StartProcessing(transaction) => transaction,
        _ => panic!("a fresh key starts processing"),
    };
    assert_eq!(
        enqueue_delivery_tasks(&store, &mut transaction, 100),
        Err(StoreError::UnknownIssue)
    );
    insert_newsletter_issue_with_id(&store, &mut transaction, 100, "T", "T", "H", 5).unwrap();
    assert_eq!(
        insert_newsletter_issue_with_id(&store, &mut transaction, 101, "T", "T", "H", 5),
        Err(StoreError::IssueAlreadyStored)
    );
    assert_eq!(
        insert_newsletter_issue(&store, &mut transaction, "T", "T", "H", 5),
        Err(StoreError::IssueAlreadyStored)
    );
    assert_eq!(
        enqueue_delivery_tasks(&store, &mut transaction, 101),
        Err(StoreError::UnknownIssue)
    );
    enqueue_delivery_tasks(&store, &mut transaction, 100).unwrap();
    assert_eq!(
        enqueue_delivery_tasks(&store, &mut transaction, 100),
        Err(StoreError::TasksAlreadyEnqueued)
    );

    // another request commits an issue with the same id first
    response_of(publish_newsletter_with_id(&mut store, 8, body("K9"), 100, 5));
    let refused = save_response(&mut store, transaction, see_other("/admin/newsletters"));
    assert_eq!(refused.unwrap_err(), StoreError::DuplicateIssue);
    assert_eq!(store.issue_count(), 1);
    assert_eq!(store.queue_len(), 2);
    assert_eq!(store.record_count(), 1);

    // a transaction whose claim is not in this store
    let mut elsewhere = Store::new();
    let stray = match try_processing(&mut elsewhere, &key, 7) {
        NextAction::StartProcessing(transaction) => transaction,
        _ => panic!("a fresh key starts processing"),
    };
    let lost = save_response(&mut store, stray, see_other("/admin/newsletters"));
    assert_eq!(lost.unwrap_err(), StoreError::ClaimLost);
    let stray = match try_processing(&mut elsewhere, &IdempotencyKey::parse("K9".to_string()).unwrap(), 8) {
        NextAction::StartProcessing(transaction) => transaction,
        _ => panic!("a fresh key starts processing"),
    };
    let lost = save_response(&mut store, stray, see_other("/elsewhere"));
    assert_eq!(lost.unwrap_err(), StoreError::ClaimLost);
    assert_eq!(store.record(0).response.as_ref().unwrap().headers[0].value, b"/admin/newsletters".to_vec());
}

#[test]
fn store_errors_have_messages() {
    assert_eq!(StoreError::DuplicateIssue.message(), "a newsletter issue with this id exists already");
    assert_eq!(
        StoreError::IssueAlreadyStored.message(),
        "the transaction has stored its newsletter issue already"
    );
    assert_eq!(
        StoreError::UnknownIssue.message(),
        "the transaction has stored no newsletter issue with this id"
    );
    assert_eq!(
        StoreError::TasksAlreadyEnqueued.message(),
        "the delivery tasks of this issue are enqueued already"
    );
    assert_eq!(StoreError::ClaimLost.message(), "the idempotency key is not claimed by this transaction");
    assert_eq!(
        StoreError::DuplicateSubscriber.message(),
        "a subscriber with this id or address exists already"
    );
    assert_eq!(StoreError::DuplicateToken.message(), "this subscription token is in use already");
    assert_eq!(StoreError::UnknownSubscriber.message(), "no subscriber has this id");
}

#[test]
fn random_issue_ids_are_version_4_uuids_and_differ() {
    let mut store = store_with_two_confirmed_and_one_pending();
    response_of(publish_newsletter(&mut store, 7, body("K1"), 5));
    response_of(publish_newsletter(&mut store, 7, body("K2"), 6));
    assert_eq!(store.issue_count(), 2);
    let first = store.issue(0).newsletter_issue_id;
    let second = store.issue(1).newsletter_issue_id;
    assert_ne!(first, second);
    for id in [first, second] {
        assert_eq!((id >> 76) & 0xF, 4);
        assert_eq!((id >> 62) & 0x3, 2);
    }
    let key = IdempotencyKey::parse("K3".to_string()).unwrap();
    let mut transaction = match try_processing(&mut store, &key, 7) {
        NextAction::StartProcessing(transaction) => transaction,
        _ => panic!("a fresh key starts processing"),
    };
    let id = insert_newsletter_issue(&store, &mut transaction, "T", "T", "H", 5).unwrap();
    assert_eq!(transaction.issue_id(), Some(id));
    assert_eq!((id >> 76) & 0xF, 4);
}

#[test]
fn idempotency_keys_are_non_empty_printable_and_shorter_than_50_characters() {
    assert_eq!(IdempotencyKey::parse("".to_string()).unwrap_err(), IdempotencyKeyError::Empty);
    assert_eq!(IdempotencyKey::parse("a".repeat(50)).unwrap_err(), IdempotencyKeyError::TooLong);
    assert_eq!(IdempotencyKey::parse("a".repeat(500)).unwrap_err(), IdempotencyKeyError::TooLong);
    assert_eq!(
        IdempotencyKey::parse("a\nb".to_string()).unwrap_err(),
        IdempotencyKeyError::NotPrintable
    );
    assert_eq!(
        IdempotencyKey::parse("a\u{85}b".to_string()).unwrap_err(),
        IdempotencyKeyError::NotPrintable
    );
    assert_eq!(
        IdempotencyKey::parse("\u{0}".repeat(50)).unwrap_err(),
        IdempotencyKeyError::TooLong
    );
    let longest = "ж".repeat(49);
    assert_eq!(IdempotencyKey::parse(longest.clone()).unwrap().as_ref(), longest);
    let key = IdempotencyKey::parse("7d9e0cc9-2e2c-4b44-a2a6-8a9a1c8b9d13".to_string()).unwrap();
    assert_eq!(key.clone().as_ref(), "7d9e0cc9-2e2c-4b44-a2a6-8a9a1c8b9d13");
    assert_eq!(IdempotencyKeyError::Empty.message(), "The idempotency key cannot be empty");
    assert_eq!(
        IdempotencyKeyError::TooLong.message(),
        "The idempotency key must be shorter than 50 characters"
    );
    assert_eq!(
        IdempotencyKeyError::NotPrintable.message(),
        "The idempotency key must hold printable characters only"
    );
}

#[test]
fn a_waiting_request_pauses_a_bounded_number_of_times() {
    let policy = AwaitPolicy { delay_ms: 250, max_attempts: 3 };
    for attempts in 0..3 {
        assert!(matches!(await_peer(attempts, &policy), AwaitDecision::RetryAfter(250)));
    }
    for attempts in [3, 4, u32::MAX] {
        match await_peer(attempts, &policy) {
            AwaitDecision::GiveUp(e) => {
                assert_eq!(e.status_code, 500);
                assert_eq!(
                    e.message,
                    "Another request with the same idempotency key did not finish in time"
                );
            }
            other => panic!("unexpected decision {:?}", other),
        }
    }
}

#[test]
fn a_form_with_a_missing_field_is_refused() {
    let some = |s: &str| Some(s.to_string());
    assert_eq!(
        BodySchema::from_fields(None, some("t"), some("h"), some("k")).unwrap_err(),
        "missing field `title`"
    );
    assert_eq!(
        BodySchema::from_fields(some("T"), None, None, some("k")).unwrap_err(),
        "missing field `text`"
    );
    assert_eq!(
        BodySchema::from_fields(some("T"), some("t"), None, some("k")).unwrap_err(),
        "missing field `html`"
    );
    assert_eq!(
        BodySchema::from_fields(some("T"), some("t"), some("h"), None).unwrap_err(),
        "missing field `idempotency_key`"
    );
    let body = BodySchema::from_fields(some("T"), some("t"), some("h"), some("k")).unwrap();
    assert_eq!(
        (body.title.as_str(), body.text.as_str(), body.html.as_str(), body.idempotency_key.as_str()),
        ("T", "t", "h", "k")
    );
}

#[test]
fn a_worker_that_fails_to_send_keeps_the_entry_for_later() {
    for error in [SendError::Transient, SendError::Permanent] {
        let mut store = store_with_two_confirmed_and_one_pending();
        response_of(publish_newsletter_with_id(&mut store, 7, body("K1"), 100, 5));
        let (state, action) = poll(&mut store, &SETTINGS);
        assert!(matches!(action, WorkerAction::Send(_)));
        assert_eq!(
            queue(&store),
            vec![
                (100, "ann@example.com".to_string(), true),
                (100, "cyd@example.com".to_string(), false)
            ]
        );
        let (next, done) = settle(&mut store, state, Err(error), &SETTINGS).unwrap();
        assert!(matches!(next, WorkerState::Idle));
        assert!(matches!(done, WorkerAction::Release(_)));
        assert_eq!(
            queue(&store),
            vec![
                (100, "cyd@example.com".to_string(), false),
                (100, "ann@example.com".to_string(), false)
            ]
        );
    }
}

#[test]
fn a_fresh_key_is_the_text_of_a_random_uuid() {
    let first = IdempotencyKey::generate();
    let second = IdempotencyKey::generate();
    assert_ne!(first.as_ref(), second.as_ref());
    for key in [first, second] {
        let text = key.as_ref();
        assert_eq!(text.len(), 36);
        for (place, c) in text.chars().enumerate() {
            if [8, 13, 18, 23].contains(&place) {
                assert_eq!(c, '-');
            } else {
                assert!(c.is_ascii_digit() || ('a'..='f').contains(&c), "{:?}", text);
            }
        }
        assert_eq!(text.chars().nth(14), Some('4'));
        assert!(['8', '9', 'a', 'b'].contains(&text.chars().nth(19).unwrap()));
        assert_eq!(IdempotencyKey::parse(text.to_string()).unwrap().as_ref(), text);
    }
}

#[test]
fn an_id_is_written_as_a_hyphenated_uuid() {
    assert_eq!(
        z2p::store::ids::id_text(0xa1a2a3a4b1b2c1c2d1d2d3d4d5d6d7d8),
        "a1a2a3a4-b1b2-c1c2-d1d2-d3d4d5d6d7d8"
    );
    assert_eq!(z2p::store::ids::id_text(0), "00000000-0000-0000-0000-000000000000");
    assert_eq!(z2p::store::ids::id_text(u128::MAX), "ffffffff-ffff-ffff-ffff-ffffffffffff");
    assert_eq!(z2p::store::ids::id_text(0x1f), "00000000-0000-0000-0000-00000000001f");
}

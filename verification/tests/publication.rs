//! The publication pipeline end to end: idempotent publishing, atomic
//! aborts, the exact per-subscriber enumeration, queue claims, and the
//! delivery worker's skip policies.

use zero_2_prod::ApplicationBaseUrl;
use zero_2_prod::error::{BizErrorEnum, SubscribeError};
use zero_2_prod::http::StoredResponse;
use zero_2_prod::issue_delivery_worker::{
    DeliveryTransport, ExecutionOutcome, abandon_claim, delete_task, dequeue_task, get_issue,
    try_execute_task, worker_sleep_seconds,
};
use zero_2_prod::newsletter::{publish_attempt_aborted, publish_newsletter};
use zero_2_prod::persistence::{NextAction, try_processing};
use zero_2_prod::request::{ConfirmData, FormData, NewsletterData};
use zero_2_prod::store::{
    DeliveryTask, IdempotencyRow, NewsletterIssue, NewsletterStore, SubscriberStatus,
};
use zero_2_prod::subscriptions::{confirm, subscribe};
use zero_2_prod::idempotency::IdempotencyKey;

fn newsletter_form(key: &str) -> NewsletterData {
    NewsletterData {
        title: "Newsletter title".to_string(),
        text_content: "Newsletter body as plain text".to_string(),
        html_content: "<p>Newsletter body as HTML</p>".to_string(),
        idempotency_key: key.to_string(),
    }
}

fn store_with_confirmed_subscribers(emails: &[&str]) -> NewsletterStore {
    let mut store = NewsletterStore::new();
    let base = ApplicationBaseUrl("https://newsletter.example".to_string());
    let mut transport = DeliveryTransport::new();
    for (i, email) in emails.iter().enumerate() {
        let token = format!("token-number-{}", i);
        let outcome = subscribe(
            &mut store,
            FormData { email: email.to_string(), name: format!("Subscriber {}", i) },
            (i + 1) as u128,
            &token,
            0,
            &mut transport,
            &base,
        );
        assert!(outcome.is_ok());
        assert!(confirm(&mut store, ConfirmData { subscription_token: token }).is_ok());
    }
    assert_eq!(transport.sent.len(), emails.len());
    store
}

fn responses_equal(a: &StoredResponse, b: &StoredResponse) {
    assert_eq!(a.status_code, b.status_code);
    assert_eq!(a.headers.len(), b.headers.len());
    for (ha, hb) in a.headers.iter().zip(b.headers.iter()) {
        assert_eq!(ha.name, hb.name);
        assert_eq!(ha.value, hb.value);
    }
    assert_eq!(a.body, b.body);
}

#[test]
fn publish_drain_and_republish() {
    // Two confirmed subscribers; publish one issue under a key.
    let mut store = store_with_confirmed_subscribers(&["a@x.com", "b@x.com"]);
    let first = publish_newsletter(&mut store, 7, newsletter_form("abc1234567"), 42, 0)
        .expect("first publish should succeed");
    assert_eq!(first.status_code, 303);
    assert_eq!(first.headers.len(), 1);
    assert_eq!(first.headers[0].name, "Location");
    assert_eq!(first.headers[0].value, b"/admin/newsletter".to_vec());
    assert_eq!(store.newsletter_issues.len(), 1);
    assert_eq!(store.issue_delivery_queue.len(), 2);

    // The worker drains the queue: the transport is invoked exactly twice.
    let mut transport = DeliveryTransport::new();
    assert!(matches!(
        try_execute_task(&mut store, &mut transport),
        Ok(ExecutionOutcome::TaskCompleted)
    ));
    assert!(matches!(
        try_execute_task(&mut store, &mut transport),
        Ok(ExecutionOutcome::TaskCompleted)
    ));
    assert!(matches!(
        try_execute_task(&mut store, &mut transport),
        Ok(ExecutionOutcome::EmptyQueue)
    ));
    assert_eq!(transport.sent.len(), 2);
    let mut recipients: Vec<String> =
        transport.sent.iter().map(|s| s.recipient.clone()).collect();
    recipients.sort();
    assert_eq!(recipients, vec!["a@x.com".to_string(), "b@x.com".to_string()]);
    assert_eq!(transport.sent[0].subject, "Newsletter title");
    assert_eq!(transport.sent[0].html_content, "<p>Newsletter body as HTML</p>");
    assert_eq!(transport.sent[0].text_content, "Newsletter body as plain text");
    assert!(store.issue_delivery_queue.is_empty());

    // Resubmitting the identical request replays the identical response
    // and creates nothing anywhere.
    let replay = publish_newsletter(&mut store, 7, newsletter_form("abc1234567"), 43, 0)
        .expect("replay should succeed");
    responses_equal(&first, &replay);
    assert_eq!(store.newsletter_issues.len(), 1);
    assert_eq!(store.issue_delivery_queue.len(), 0);
    assert_eq!(store.idempotency.len(), 1);
}

#[test]
fn publishing_with_n_confirmed_subscribers_enqueues_n_tasks() {
    let mut store = store_with_confirmed_subscribers(&["a@x.com", "b@x.com", "c@x.com"]);
    // A pending (unconfirmed) subscriber gets no task.
    let base = ApplicationBaseUrl("https://newsletter.example".to_string());
    let mut transport = DeliveryTransport::new();
    let outcome = subscribe(
        &mut store,
        FormData { email: "pending@x.com".to_string(), name: "Pending".to_string() },
        99,
        "token-pending",
        0,
        &mut transport,
        &base,
    );
    assert!(outcome.is_ok());
    publish_newsletter(&mut store, 7, newsletter_form("abcd12345678"), 42, 0).unwrap();
    assert_eq!(store.issue_delivery_queue.len(), 3);
    // Subscribers confirmed after publication get no task for the issue.
    assert!(confirm(&mut store, ConfirmData {
        subscription_token: "token-pending".to_string(),
    })
    .is_ok());
    assert_eq!(store.issue_delivery_queue.len(), 3);
}

#[test]
fn an_aborted_publish_attempt_leaves_no_trace() {
    let mut store = store_with_confirmed_subscribers(&["a@x.com", "b@x.com"]);
    let subscribers_before = store.subscribers.len();
    publish_attempt_aborted(&mut store, 7, newsletter_form("abc1234567"), 42, 0);
    assert_eq!(store.newsletter_issues.len(), 0);
    assert_eq!(store.issue_delivery_queue.len(), 0);
    assert_eq!(store.idempotency.len(), 0);
    assert_eq!(store.subscribers.len(), subscribers_before);
    // A retry with the same key now goes through cleanly.
    assert!(publish_newsletter(&mut store, 7, newsletter_form("abc1234567"), 42, 0).is_ok());
    assert_eq!(store.newsletter_issues.len(), 1);
}

#[test]
fn malformed_keys_are_rejected_before_any_transaction() {
    let mut store = store_with_confirmed_subscribers(&["a@x.com"]);
    let short = publish_newsletter(&mut store, 7, newsletter_form("abc123456"), 42, 0);
    assert!(matches!(short, Err(BizErrorEnum::IdempotencyKeyIsTooShort)));
    let long_key = "a".repeat(51);
    let long = publish_newsletter(&mut store, 7, newsletter_form(&long_key), 42, 0);
    assert!(matches!(long, Err(BizErrorEnum::IdempotencyKeyIsTooLong)));
    assert_eq!(store.newsletter_issues.len(), 0);
    assert_eq!(store.idempotency.len(), 0);
    // Length 10 and 50 are accepted.
    assert!(publish_newsletter(&mut store, 7, newsletter_form(&"a".repeat(10)), 1, 0).is_ok());
    assert!(publish_newsletter(&mut store, 7, newsletter_form(&"a".repeat(50)), 2, 0).is_ok());
}

#[test]
fn a_bare_placeholder_fails_the_request() {
    let mut store = NewsletterStore::new();
    store.idempotency.push(IdempotencyRow {
        user_id: 7,
        idempotency_key: "abc1234567".to_string(),
        response: None,
        created_at: 0,
    });
    let key = IdempotencyKey::try_from("abc1234567".to_string()).unwrap();
    let outcome = try_processing(&store, &key, 7, 0);
    assert!(matches!(outcome, Err(BizErrorEnum::FindExpectedSavedRecordError)));
    let publish = publish_newsletter(&mut store, 7, newsletter_form("abc1234567"), 42, 0);
    assert!(matches!(publish, Err(BizErrorEnum::FindExpectedSavedRecordError)));
}

#[test]
fn a_fresh_key_starts_processing() {
    let store = NewsletterStore::new();
    let key = IdempotencyKey::try_from("abc1234567".to_string()).unwrap();
    match try_processing(&store, &key, 7, 5).unwrap() {
        NextAction::StartProcessing(tx) => {
            assert_eq!(tx.user_id, 7);
            assert_eq!(tx.idempotency_key, "abc1234567");
            assert_eq!(tx.created_at, 5);
            assert!(tx.pending_issue.is_none());
            assert!(tx.pending_tasks.is_empty());
        },
        NextAction::ReturnSavedResponse(_) => panic!("no record exists yet"),
    }
}

#[test]
fn one_row_admits_exactly_one_claim() {
    let mut store = NewsletterStore::new();
    store.newsletter_issues.push(NewsletterIssue {
        newsletter_issue_id: 5,
        title: "t".to_string(),
        text_content: "x".to_string(),
        html_content: "h".to_string(),
        published_at: 0,
    });
    store.issue_delivery_queue.push(DeliveryTask {
        newsletter_issue_id: 5,
        subscriber_email: "a@x.com".to_string(),
        claimed: false,
    });
    let first = dequeue_task(&mut store).expect("the single row should be claimable");
    let (claim, issue_id, email) = first;
    assert_eq!(issue_id, 5);
    assert_eq!(email, "a@x.com");
    // Every further claim attempt against the queue comes back empty.
    assert!(dequeue_task(&mut store).is_none());
    assert!(dequeue_task(&mut store).is_none());
    // The claimant dying releases the row for another worker.
    abandon_claim(&mut store, claim);
    let second = dequeue_task(&mut store);
    assert!(second.is_some());
    // Releasing the claim removes the row for good.
    let (claim, issue_id, email) = second.unwrap();
    delete_task(&mut store, claim, issue_id, &email);
    assert!(store.issue_delivery_queue.is_empty());
    assert!(dequeue_task(&mut store).is_none());
}

#[test]
fn invalid_addresses_are_skipped_without_delivery() {
    let mut store = NewsletterStore::new();
    store.newsletter_issues.push(NewsletterIssue {
        newsletter_issue_id: 5,
        title: "t".to_string(),
        text_content: "x".to_string(),
        html_content: "h".to_string(),
        published_at: 0,
    });
    store.issue_delivery_queue.push(DeliveryTask {
        newsletter_issue_id: 5,
        subscriber_email: "definitely-not-an-email".to_string(),
        claimed: false,
    });
    let mut transport = DeliveryTransport::new();
    assert!(matches!(
        try_execute_task(&mut store, &mut transport),
        Ok(ExecutionOutcome::TaskCompleted)
    ));
    // The task is gone and the transport was never invoked.
    assert!(store.issue_delivery_queue.is_empty());
    assert!(transport.sent.is_empty());
}

#[test]
fn failed_sends_are_skipped_not_retried() {
    let mut store = store_with_confirmed_subscribers(&["a@x.com"]);
    publish_newsletter(&mut store, 7, newsletter_form("abc1234567"), 42, 0).unwrap();
    let mut transport = DeliveryTransport::new();
    transport.outcomes.push(false);
    assert!(matches!(
        try_execute_task(&mut store, &mut transport),
        Ok(ExecutionOutcome::TaskCompleted)
    ));
    // The attempt reached the transport once, and the task was still
    // removed: at most one attempt per claim.
    assert_eq!(transport.sent.len(), 1);
    assert!(store.issue_delivery_queue.is_empty());
    assert!(matches!(
        try_execute_task(&mut store, &mut transport),
        Ok(ExecutionOutcome::EmptyQueue)
    ));
}

#[test]
fn worker_backoff_policy() {
    assert_eq!(worker_sleep_seconds(&Ok(ExecutionOutcome::EmptyQueue)), 10);
    assert_eq!(worker_sleep_seconds(&Ok(ExecutionOutcome::TaskCompleted)), 0);
    assert_eq!(worker_sleep_seconds(&Err(BizErrorEnum::PgPoolError)), 1);
}

#[test]
fn issue_lookup_reports_missing_issues() {
    let store = NewsletterStore::new();
    assert!(matches!(
        get_issue(&store, 99),
        Err(BizErrorEnum::QueryNewsletterIssuesError)
    ));
}

#[test]
fn duplicate_subscriptions_and_tokens_are_rejected() {
    let mut store = store_with_confirmed_subscribers(&["a@x.com"]);
    let base = ApplicationBaseUrl("https://newsletter.example".to_string());
    let mut transport = DeliveryTransport::new();
    // The same address cannot sign up twice.
    let duplicate = subscribe(
        &mut store,
        FormData { email: "a@x.com".to_string(), name: "Again".to_string() },
        50,
        "token-duplicate",
        0,
        &mut transport,
        &base,
    );
    assert!(matches!(duplicate, Err(SubscribeError::UnexpectedError)));
    // A malformed address never reaches the store.
    let invalid = subscribe(
        &mut store,
        FormData { email: "definitely-not-an-email".to_string(), name: "Nope".to_string() },
        51,
        "token-invalid",
        0,
        &mut transport,
        &base,
    );
    assert!(matches!(invalid, Err(SubscribeError::ValidationError(_))));
    assert_eq!(store.subscribers.len(), 1);
    // An unknown token confirms nobody.
    assert!(matches!(
        confirm(&mut store, ConfirmData { subscription_token: "unknown".to_string() }),
        Err(BizErrorEnum::SubscriptionTokenInvalidError)
    ));
    assert!(matches!(store.subscribers[0].status, SubscriberStatus::Confirmed));
}

#[test]
fn confirmation_emails_carry_the_token_link() {
    let mut store = NewsletterStore::new();
    let base = ApplicationBaseUrl("https://newsletter.example".to_string());
    let mut transport = DeliveryTransport::new();
    let outcome = subscribe(
        &mut store,
        FormData { email: "a@x.com".to_string(), name: "Ursula".to_string() },
        1,
        "sometokenvalue12345678901",
        0,
        &mut transport,
        &base,
    );
    assert!(outcome.is_ok());
    assert_eq!(transport.sent.len(), 1);
    let sent = &transport.sent[0];
    assert_eq!(sent.recipient, "a@x.com");
    assert_eq!(sent.subject, "Welcome!");
    let link =
        "https://newsletter.example/subscriptions/confirm?subscription_token=sometokenvalue12345678901";
    assert_eq!(
        sent.html_content,
        format!(
            "Welcome to our newsletter!<br />Click <a href=\"{}\">here</a> to confirm your subscription.",
            link
        )
    );
    assert_eq!(
        sent.text_content,
        format!("Welcome to our newsletter!\nVisit {} to confirm your subscription.", link)
    );
}

#[test]
fn a_failed_confirmation_send_reports_the_failure() {
    let mut store = NewsletterStore::new();
    let base = ApplicationBaseUrl("https://newsletter.example".to_string());
    let mut transport = DeliveryTransport::new();
    transport.outcomes.push(false);
    let outcome = subscribe(
        &mut store,
        FormData { email: "a@x.com".to_string(), name: "Ursula".to_string() },
        1,
        "sometokenvalue12345678901",
        0,
        &mut transport,
        &base,
    );
    assert!(matches!(outcome, Err(SubscribeError::UnexpectedError)));
    // The subscription itself was already committed before the send.
    assert_eq!(store.subscribers.len(), 1);
    assert_eq!(store.subscription_tokens.len(), 1);
}

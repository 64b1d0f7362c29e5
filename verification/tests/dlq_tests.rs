use intent_api::webhook_outbox_dlq::{
    bulk_replay_limit, dlq_list_limit, endpoint_error, store_not_configured, BulkReplayWebhookOutboxDlqResponse,
    DlqEndpointError, ListWebhookOutboxDlqResponse, ListWebhookOutboxReplayedResponse, BULK_REPLAY_DEFAULT_MAX,
    BULK_REPLAY_HARD_CAP, DLQ_DEFAULT_LIST_LIMIT,
};
use intent_api::webhook_outbox_repo::{InMemoryWebhookOutboxRepository, OutboxStoreError, WebhookOutboxRecord, WebhookOutboxStatus};

fn new_id() -> u128 {
    uuid::Uuid::new_v4().as_u128()
}

fn failed_records(repo: &mut InMemoryWebhookOutboxRepository, tenant: u128, n: usize) -> Vec<u128> {
    let mut ids = Vec::new();
    for _ in 0..n {
        let r = WebhookOutboxRecord::new(
            tenant,
            new_id(),
            new_id(),
            "intent_changed".to_string(),
            serde_json::from_str(r#"{"foo": "bar"}"#).unwrap(),
            None,
        );
        repo.create(r.clone()).unwrap();
        repo.mark_failed(r.id, tenant, "err".to_string()).unwrap();
        ids.push(r.id);
    }
    ids
}

/// Bulk replay as the endpoint runs it: list the failed records up to the
/// limit, replay each, count the outcomes.
fn bulk_replay(
    repo: &mut InMemoryWebhookOutboxRepository,
    tenant: u128,
    max_records: Option<i64>,
    replayed_by: Option<String>,
) -> BulkReplayWebhookOutboxDlqResponse {
    let listed = repo.list_failed(tenant, bulk_replay_limit(max_records));
    let outcomes = listed.iter().map(|r| repo.replay_failed(r.id, tenant, replayed_by.clone())).collect();
    BulkReplayWebhookOutboxDlqResponse::from_outcomes(outcomes)
}

#[test]
fn limits_and_defaults() {
    assert_eq!(dlq_list_limit(None), DLQ_DEFAULT_LIST_LIMIT);
    assert_eq!(dlq_list_limit(Some(7)), 7);
    assert_eq!(DLQ_DEFAULT_LIST_LIMIT, 100);
    assert_eq!(bulk_replay_limit(None), BULK_REPLAY_DEFAULT_MAX);
    assert_eq!(bulk_replay_limit(Some(2)), 2);
    assert_eq!(bulk_replay_limit(Some(1000)), BULK_REPLAY_HARD_CAP);
    assert_eq!(bulk_replay_limit(Some(100)), 100);
    assert_eq!(bulk_replay_limit(Some(0)), 0);
    assert_eq!(bulk_replay_limit(Some(-1)), 0);
    assert_eq!(bulk_replay_limit(Some(i64::MIN)), 0);
    assert_eq!(BULK_REPLAY_DEFAULT_MAX, 50);
    assert_eq!(BULK_REPLAY_HARD_CAP, 100);
}

#[test]
fn list_dlq_returns_failed_records_of_the_tenant() {
    let mut repo = InMemoryWebhookOutboxRepository::new();
    let tenant = new_id();
    failed_records(&mut repo, tenant, 2);
    failed_records(&mut repo, new_id(), 1);
    let response = ListWebhookOutboxDlqResponse::from_records(repo.list_failed(tenant, dlq_list_limit(None)));
    assert_eq!(response.total, 2);
    assert!(response.records.iter().all(|r| r.status == WebhookOutboxStatus::Failed && r.tenant_id == tenant));
    assert_eq!(ListWebhookOutboxDlqResponse::empty().total, 0);
    assert_eq!(ListWebhookOutboxReplayedResponse::empty().total, 0);
}

#[test]
fn bulk_replay_cap_and_idempotency() {
    let mut repo = InMemoryWebhookOutboxRepository::new();
    let tenant = new_id();
    failed_records(&mut repo, tenant, 5);
    let first = bulk_replay(&mut repo, tenant, Some(2), None);
    assert_eq!((first.replayed, first.skipped, first.errors), (2, 0, 0));
    assert_eq!(first.records.len(), 2);
    assert_eq!(repo.list_failed(tenant, 10).len(), 3);
    let second = bulk_replay(&mut repo, tenant, None, Some("op".to_string()));
    assert_eq!((second.replayed, second.skipped, second.errors), (3, 0, 0));
    assert!(second.records.iter().all(|r| r.replayed_by.as_deref() == Some("op")));
    let third = bulk_replay(&mut repo, tenant, None, None);
    assert_eq!((third.replayed, third.skipped, third.errors), (0, 0, 0));
}

#[test]
fn bulk_replay_counts_skips_and_errors() {
    let mut response = BulkReplayWebhookOutboxDlqResponse::new();
    response.record_outcome(Err(OutboxStoreError::NotFailed { id: 1, status: WebhookOutboxStatus::Pending }));
    response.record_outcome(Err(OutboxStoreError::NotFound { id: 2 }));
    response.record_outcome(Err(OutboxStoreError::Storage("record is not failed here".to_string())));
    assert_eq!((response.replayed, response.skipped, response.errors), (0, 2, 1));
}

#[test]
fn endpoint_errors() {
    match store_not_configured() {
        DlqEndpointError::Internal(m) => assert_eq!(m, "Webhook outbox repository is not configured"),
        other => panic!("unexpected {:?}", other),
    }
    let e = OutboxStoreError::NotFound { id: 0 };
    match endpoint_error(&e) {
        DlqEndpointError::StorageError(m) => {
            assert_eq!(m, "Outbox record 00000000-0000-0000-0000-000000000000 not found")
        },
        other => panic!("unexpected {:?}", other),
    }
}

#[test]
fn replayed_record_can_be_delivered_again() {
    let mut repo = InMemoryWebhookOutboxRepository::new();
    let tenant = new_id();
    let ids = failed_records(&mut repo, tenant, 1);
    repo.replay_failed(ids[0], tenant, None).unwrap();
    repo.claim(ids[0], tenant, "local-worker".to_string()).unwrap();
    let delivered = repo.mark_delivered(ids[0], tenant).unwrap();
    assert_eq!(delivered.status, WebhookOutboxStatus::Delivered);
    assert_eq!(delivered.replay_count, 1);
}

#[test]
fn bulk_replay_with_negative_maximum_replays_nothing() {
    let mut repo = InMemoryWebhookOutboxRepository::new();
    let tenant = new_id();
    failed_records(&mut repo, tenant, 3);
    let response = bulk_replay(&mut repo, tenant, Some(-1), None);
    assert_eq!((response.replayed, response.skipped, response.errors), (0, 0, 0));
    assert_eq!(repo.list_failed(tenant, 10).len(), 3);
}

#[test]
fn bulk_replay_never_passes_the_hard_cap() {
    let mut repo = InMemoryWebhookOutboxRepository::new();
    let tenant = new_id();
    failed_records(&mut repo, tenant, 105);
    let response = bulk_replay(&mut repo, tenant, Some(i64::MAX), None);
    assert_eq!(response.replayed, 100);
    assert_eq!(repo.list_failed(tenant, -1).len(), 5);
}

#[test]
fn bulk_replay_outcomes_are_each_counted_once() {
    let mut repo = InMemoryWebhookOutboxRepository::new();
    let tenant = new_id();
    let ids = failed_records(&mut repo, tenant, 2);
    let replayed = repo.replay_failed(ids[0], tenant, None).unwrap();
    let outcomes = vec![
        Ok(replayed.clone()),
        Err(OutboxStoreError::NotFailed { id: ids[0], status: WebhookOutboxStatus::Pending }),
        Err(OutboxStoreError::NotFound { id: 7 }),
        Err(OutboxStoreError::NotFailed { id: ids[1], status: WebhookOutboxStatus::Delivered }),
    ];
    let response = BulkReplayWebhookOutboxDlqResponse::from_outcomes(outcomes);
    assert_eq!((response.replayed, response.skipped, response.errors), (1, 2, 1));
    assert_eq!(response.records.len(), 1);
    assert_eq!(response.records[0].id, ids[0]);
    let empty = BulkReplayWebhookOutboxDlqResponse::from_outcomes(Vec::new());
    assert_eq!((empty.replayed, empty.skipped, empty.errors), (0, 0, 0));
}

#[test]
fn bulk_replay_counts_the_smaller_of_failures_and_limit() {
    for (failed, max, expected) in [(3usize, Some(10i64), 3usize), (7, Some(4), 4), (0, None, 0), (60, None, 50), (4, Some(-3), 0)] {
        let mut repo = InMemoryWebhookOutboxRepository::new();
        let tenant = new_id();
        failed_records(&mut repo, tenant, failed);
        failed_records(&mut repo, new_id(), 2);
        let r = bulk_replay(&mut repo, tenant, max, None);
        assert_eq!(r.replayed + r.skipped + r.errors, expected);
    }
}

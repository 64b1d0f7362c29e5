use intent_api::clock::current_time_nanos;
use intent_api::webhook_outbox_dlq::{
    bulk_replay_limit, dlq_list_limit, endpoint_error, BulkReplayWebhookOutboxDlqResponse, DlqEndpointError,
    ListWebhookOutboxDlqResponse, ListWebhookOutboxReplayedResponse, ReplayWebhookOutboxDlqResponse,
    WebhookOutboxDlqStatsResponse,
};
use intent_api::webhook_outbox_repo::{InMemoryWebhookOutboxRepository, WebhookOutboxRecord, WebhookOutboxStatus};

const NANOS_PER_SECOND: i64 = 1_000_000_000;

fn new_id() -> u128 {
    uuid::Uuid::new_v4().as_u128()
}

fn sample_record(tenant_id: u128, intent_id: u128, subscription_id: u128) -> WebhookOutboxRecord {
    WebhookOutboxRecord::new(
        tenant_id,
        intent_id,
        subscription_id,
        "intent_changed".to_string(),
        serde_json::from_str(r#"{"foo": "bar"}"#).unwrap(),
        None,
    )
}

// The DLQ endpoints as the service runs them over its outbox store.

fn list_dlq(
    repo: &InMemoryWebhookOutboxRepository,
    tenant_id: u128,
    limit: Option<i64>,
) -> Result<ListWebhookOutboxDlqResponse, DlqEndpointError> {
    Ok(ListWebhookOutboxDlqResponse::from_records(repo.list_failed(tenant_id, dlq_list_limit(limit))))
}

fn replay_dlq(
    repo: &mut InMemoryWebhookOutboxRepository,
    id: u128,
    tenant_id: u128,
    replayed_by: Option<String>,
) -> Result<ReplayWebhookOutboxDlqResponse, DlqEndpointError> {
    match repo.replay_failed(id, tenant_id, replayed_by) {
        Ok(record) => Ok(ReplayWebhookOutboxDlqResponse { record }),
        Err(e) => Err(endpoint_error(&e)),
    }
}

fn list_replayed(
    repo: &InMemoryWebhookOutboxRepository,
    tenant_id: u128,
    since: Option<i64>,
    limit: Option<i64>,
) -> Result<ListWebhookOutboxReplayedResponse, DlqEndpointError> {
    Ok(ListWebhookOutboxReplayedResponse::from_records(repo.list_replayed(tenant_id, since, dlq_list_limit(limit))))
}

fn bulk_replay_dlq(
    repo: &mut InMemoryWebhookOutboxRepository,
    tenant_id: u128,
    max_records: Option<i64>,
    replayed_by: Option<String>,
) -> Result<BulkReplayWebhookOutboxDlqResponse, DlqEndpointError> {
    let failed = repo.list_failed(tenant_id, bulk_replay_limit(max_records));
    let outcomes = failed.iter().map(|record| repo.replay_failed(record.id, tenant_id, replayed_by.clone())).collect();
    Ok(BulkReplayWebhookOutboxDlqResponse::from_outcomes(outcomes))
}

fn dlq_stats(repo: &InMemoryWebhookOutboxRepository, tenant_id: u128) -> Result<WebhookOutboxDlqStatsResponse, DlqEndpointError> {
    Ok(WebhookOutboxDlqStatsResponse { stats: repo.dlq_stats(tenant_id) })
}

// -----------------------------------------------------------------------------
// Listing and replaying
// -----------------------------------------------------------------------------

#[test]
fn test_list_dlq_returns_failed_records() {
    let mut repo = InMemoryWebhookOutboxRepository::new();
    let (tenant, intent, sub) = (new_id(), new_id(), new_id());
    let r1 = sample_record(tenant, intent, sub);
    let r2 = sample_record(tenant, intent, sub);
    repo.create(r1.clone()).unwrap();
    repo.create(r2.clone()).unwrap();
    repo.mark_failed(r1.id, tenant, "boom".to_string()).unwrap();

    let parsed = list_dlq(&repo, tenant, None).unwrap();
    assert_eq!(parsed.total, 1);
    assert_eq!(parsed.records[0].id, r1.id);
    assert_eq!(parsed.records[0].status, WebhookOutboxStatus::Failed);
}

#[test]
fn test_list_dlq_empty_when_no_failures() {
    let repo = InMemoryWebhookOutboxRepository::new();
    let parsed = list_dlq(&repo, new_id(), None).unwrap();
    assert_eq!(parsed.total, 0);
    assert!(parsed.records.is_empty());
}

#[test]
fn test_list_dlq_tenant_boundary() {
    let mut repo = InMemoryWebhookOutboxRepository::new();
    let (tenant_a, tenant_b, intent, sub) = (new_id(), new_id(), new_id(), new_id());
    let r = sample_record(tenant_a, intent, sub);
    repo.create(r.clone()).unwrap();
    repo.mark_failed(r.id, tenant_a, "boom".to_string()).unwrap();

    let parsed = list_dlq(&repo, tenant_b, None).unwrap();
    assert_eq!(parsed.total, 0);
}

#[test]
fn test_replay_dlq_transitions_to_pending() {
    let mut repo = InMemoryWebhookOutboxRepository::new();
    let (tenant, intent, sub) = (new_id(), new_id(), new_id());
    let r = sample_record(tenant, intent, sub);
    repo.create(r.clone()).unwrap();
    repo.mark_failed(r.id, tenant, "timeout".to_string()).unwrap();

    let parsed = replay_dlq(&mut repo, r.id, tenant, None).unwrap();
    assert_eq!(parsed.record.status, WebhookOutboxStatus::Pending);
    assert_eq!(parsed.record.attempt_count, 0);
    assert_eq!(parsed.record.last_error, None);
    assert_eq!(parsed.record.locked_at, None);
    assert_eq!(parsed.record.locked_by, None);
}

#[test]
fn test_replay_dlq_second_call_errors() {
    let mut repo = InMemoryWebhookOutboxRepository::new();
    let (tenant, intent, sub) = (new_id(), new_id(), new_id());
    let r = sample_record(tenant, intent, sub);
    repo.create(r.clone()).unwrap();
    repo.mark_failed(r.id, tenant, "timeout".to_string()).unwrap();

    let _ = replay_dlq(&mut repo, r.id, tenant, None);
    let second = replay_dlq(&mut repo, r.id, tenant, None);
    assert!(second.is_err(), "expected an error, got {:?}", second);
}

#[test]
fn test_replay_dlq_non_failed_errors() {
    let mut repo = InMemoryWebhookOutboxRepository::new();
    let (tenant, intent, sub) = (new_id(), new_id(), new_id());
    let r = sample_record(tenant, intent, sub);
    repo.create(r.clone()).unwrap();

    let response = replay_dlq(&mut repo, r.id, tenant, None);
    assert!(response.is_err(), "expected an error, got {:?}", response);
}

#[test]
fn test_replayed_record_can_be_delivered_by_worker() {
    let mut repo = InMemoryWebhookOutboxRepository::new();
    let (tenant, intent, sub) = (new_id(), new_id(), new_id());
    let r = sample_record(tenant, intent, sub);
    repo.create(r.clone()).unwrap();
    repo.mark_failed(r.id, tenant, "timeout".to_string()).unwrap();

    assert!(replay_dlq(&mut repo, r.id, tenant, None).is_ok());
    let pending = repo.list_pending(tenant, 10);
    assert_eq!(pending.len(), 1);
    assert_eq!(pending[0].id, r.id);
    assert_eq!(pending[0].status, WebhookOutboxStatus::Pending);
    assert_eq!(pending[0].attempt_count, 0);
}

#[test]
fn test_replay_dlq_with_replayed_by() {
    let mut repo = InMemoryWebhookOutboxRepository::new();
    let (tenant, intent, sub) = (new_id(), new_id(), new_id());
    let r = sample_record(tenant, intent, sub);
    repo.create(r.clone()).unwrap();
    repo.mark_failed(r.id, tenant, "timeout".to_string()).unwrap();

    let parsed = replay_dlq(&mut repo, r.id, tenant, Some("operator-7".to_string())).unwrap();
    assert_eq!(parsed.record.status, WebhookOutboxStatus::Pending);
    assert_eq!(parsed.record.replay_count, 1);
    assert!(parsed.record.replayed_at.is_some());
    assert_eq!(parsed.record.replayed_by, Some("operator-7".to_string()));
}

// -----------------------------------------------------------------------------
// Replayed records
// -----------------------------------------------------------------------------

#[test]
fn test_list_replayed_returns_replayed_records() {
    let mut repo = InMemoryWebhookOutboxRepository::new();
    let (tenant, intent, sub) = (new_id(), new_id(), new_id());
    let r = sample_record(tenant, intent, sub);
    repo.create(r.clone()).unwrap();
    repo.mark_failed(r.id, tenant, "timeout".to_string()).unwrap();
    repo.replay_failed(r.id, tenant, Some("operator-1".to_string())).unwrap();

    let parsed = list_replayed(&repo, tenant, None, None).unwrap();
    assert_eq!(parsed.total, 1);
    assert_eq!(parsed.records[0].id, r.id);
    assert_eq!(parsed.records[0].replay_count, 1);
    assert!(parsed.records[0].replayed_at.is_some());
    assert_eq!(parsed.records[0].replayed_by, Some("operator-1".to_string()));
}

#[test]
fn test_list_replayed_empty_when_no_replays() {
    let repo = InMemoryWebhookOutboxRepository::new();
    let parsed = list_replayed(&repo, new_id(), None, None).unwrap();
    assert_eq!(parsed.total, 0);
    assert!(parsed.records.is_empty());
}

#[test]
fn test_list_replayed_tenant_boundary() {
    let mut repo = InMemoryWebhookOutboxRepository::new();
    let (tenant_a, tenant_b, intent, sub) = (new_id(), new_id(), new_id(), new_id());
    let r = sample_record(tenant_a, intent, sub);
    repo.create(r.clone()).unwrap();
    repo.mark_failed(r.id, tenant_a, "boom".to_string()).unwrap();
    repo.replay_failed(r.id, tenant_a, None).unwrap();

    let parsed = list_replayed(&repo, tenant_b, None, None).unwrap();
    assert_eq!(parsed.total, 0);
}

#[test]
fn test_list_replayed_excludes_unreplayed_failed() {
    let mut repo = InMemoryWebhookOutboxRepository::new();
    let (tenant, intent, sub) = (new_id(), new_id(), new_id());
    let r = sample_record(tenant, intent, sub);
    repo.create(r.clone()).unwrap();
    repo.mark_failed(r.id, tenant, "timeout".to_string()).unwrap();

    let parsed = list_replayed(&repo, tenant, None, None).unwrap();
    assert_eq!(parsed.total, 0);
}

#[test]
fn test_list_replayed_with_limit() {
    let mut repo = InMemoryWebhookOutboxRepository::new();
    let (tenant, intent, sub) = (new_id(), new_id(), new_id());
    let r1 = sample_record(tenant, intent, sub);
    let r2 = sample_record(tenant, intent, sub);
    repo.create(r1.clone()).unwrap();
    repo.create(r2.clone()).unwrap();
    repo.mark_failed(r1.id, tenant, "e1".to_string()).unwrap();
    repo.mark_failed(r2.id, tenant, "e2".to_string()).unwrap();
    repo.replay_failed(r1.id, tenant, None).unwrap();
    repo.replay_failed(r2.id, tenant, None).unwrap();

    let parsed = list_replayed(&repo, tenant, None, Some(1)).unwrap();
    assert_eq!(parsed.total, 1);
}

#[test]
fn test_list_replayed_with_since() {
    let mut repo = InMemoryWebhookOutboxRepository::new();
    let (tenant, intent, sub) = (new_id(), new_id(), new_id());
    let r = sample_record(tenant, intent, sub);
    repo.create(r.clone()).unwrap();
    repo.mark_failed(r.id, tenant, "timeout".to_string()).unwrap();
    let before_replay = current_time_nanos();
    repo.replay_failed(r.id, tenant, None).unwrap();

    // A cutoff given in whole seconds, before the replay: included.
    let since_before = before_replay - before_replay % NANOS_PER_SECOND;
    let parsed = list_replayed(&repo, tenant, Some(since_before), None).unwrap();
    assert_eq!(parsed.total, 1);

    // A cutoff a second after the replay: excluded.
    let after_replay = current_time_nanos() + NANOS_PER_SECOND;
    let since_after = after_replay - after_replay % NANOS_PER_SECOND;
    let parsed = list_replayed(&repo, tenant, Some(since_after), None).unwrap();
    assert_eq!(parsed.total, 0);
}

// -----------------------------------------------------------------------------
// Bulk replay
// -----------------------------------------------------------------------------

#[test]
fn test_bulk_replay_replays_multiple_failed_records() {
    let mut repo = InMemoryWebhookOutboxRepository::new();
    let (tenant, intent, sub) = (new_id(), new_id(), new_id());
    let r1 = sample_record(tenant, intent, sub);
    let r2 = sample_record(tenant, intent, sub);
    repo.create(r1.clone()).unwrap();
    repo.create(r2.clone()).unwrap();
    repo.mark_failed(r1.id, tenant, "e1".to_string()).unwrap();
    repo.mark_failed(r2.id, tenant, "e2".to_string()).unwrap();

    let parsed = bulk_replay_dlq(&mut repo, tenant, None, Some("operator-bulk".to_string())).unwrap();
    assert_eq!(parsed.replayed, 2);
    assert_eq!(parsed.skipped, 0);
    assert_eq!(parsed.errors, 0);
    assert_eq!(parsed.records.len(), 2);
    assert_eq!(parsed.records[0].status, WebhookOutboxStatus::Pending);
    assert_eq!(parsed.records[1].status, WebhookOutboxStatus::Pending);
    for record in &parsed.records {
        assert_eq!(record.replay_count, 1);
        assert!(record.replayed_at.is_some());
        assert_eq!(record.replayed_by, Some("operator-bulk".to_string()));
    }
}

#[test]
fn test_bulk_replay_empty_when_no_failures() {
    let mut repo = InMemoryWebhookOutboxRepository::new();
    let parsed = bulk_replay_dlq(&mut repo, new_id(), None, None).unwrap();
    assert_eq!(parsed.replayed, 0);
    assert_eq!(parsed.skipped, 0);
    assert_eq!(parsed.errors, 0);
    assert!(parsed.records.is_empty());
}

#[test]
fn test_bulk_replay_tenant_boundary() {
    let mut repo = InMemoryWebhookOutboxRepository::new();
    let (tenant_a, tenant_b, intent, sub) = (new_id(), new_id(), new_id(), new_id());
    let r = sample_record(tenant_a, intent, sub);
    repo.create(r.clone()).unwrap();
    repo.mark_failed(r.id, tenant_a, "boom".to_string()).unwrap();

    let parsed = bulk_replay_dlq(&mut repo, tenant_b, None, None).unwrap();
    assert_eq!(parsed.replayed, 0);
    assert_eq!(parsed.skipped, 0);
    assert_eq!(parsed.errors, 0);
}

#[test]
fn test_bulk_replay_cap_enforcement() {
    let mut repo = InMemoryWebhookOutboxRepository::new();
    let (tenant, intent, sub) = (new_id(), new_id(), new_id());
    for _ in 0..5 {
        let r = sample_record(tenant, intent, sub);
        repo.create(r.clone()).unwrap();
        repo.mark_failed(r.id, tenant, "err".to_string()).unwrap();
    }

    let parsed = bulk_replay_dlq(&mut repo, tenant, Some(2), None).unwrap();
    assert_eq!(parsed.replayed, 2);
    assert_eq!(parsed.skipped, 0);
    assert_eq!(parsed.errors, 0);

    let remaining = repo.list_failed(tenant, 10);
    assert_eq!(remaining.len(), 3);
}

#[test]
fn test_bulk_replay_idempotency_second_call_skips() {
    let mut repo = InMemoryWebhookOutboxRepository::new();
    let (tenant, intent, sub) = (new_id(), new_id(), new_id());
    let r = sample_record(tenant, intent, sub);
    repo.create(r.clone()).unwrap();
    repo.mark_failed(r.id, tenant, "timeout".to_string()).unwrap();

    let parsed = bulk_replay_dlq(&mut repo, tenant, None, None).unwrap();
    assert_eq!(parsed.replayed, 1);
    assert_eq!(parsed.skipped, 0);

    // The record is no longer failed, so nothing is listed the second time.
    let parsed = bulk_replay_dlq(&mut repo, tenant, None, None).unwrap();
    assert_eq!(parsed.replayed, 0);
    assert_eq!(parsed.skipped, 0);
    assert_eq!(parsed.errors, 0);
}

#[test]
fn test_bulk_replay_mixed_status_only_replays_failed() {
    let mut repo = InMemoryWebhookOutboxRepository::new();
    let (tenant, intent, sub) = (new_id(), new_id(), new_id());
    let failed = sample_record(tenant, intent, sub);
    let pending = sample_record(tenant, intent, sub);
    let delivered = sample_record(tenant, intent, sub);
    repo.create(failed.clone()).unwrap();
    repo.create(pending.clone()).unwrap();
    repo.create(delivered.clone()).unwrap();
    repo.mark_failed(failed.id, tenant, "err".to_string()).unwrap();
    repo.mark_delivered(delivered.id, tenant).unwrap();

    let parsed = bulk_replay_dlq(&mut repo, tenant, None, None).unwrap();
    assert_eq!(parsed.replayed, 1);
    assert_eq!(parsed.skipped, 0);
    assert_eq!(parsed.errors, 0);
    assert_eq!(parsed.records[0].id, failed.id);
    assert_eq!(parsed.records[0].status, WebhookOutboxStatus::Pending);
}

// -----------------------------------------------------------------------------
// Statistics
// -----------------------------------------------------------------------------

#[test]
fn test_dlq_stats_empty() {
    let repo = InMemoryWebhookOutboxRepository::new();
    let parsed = dlq_stats(&repo, new_id()).unwrap();
    assert_eq!(parsed.stats.total_failed, 0);
    assert_eq!(parsed.stats.oldest_failed_age_seconds, None);
    assert_eq!(parsed.stats.replayed_count, 0);
    assert!(parsed.stats.by_error_summary.is_empty());
}

#[test]
fn test_dlq_stats_failed_depth() {
    let mut repo = InMemoryWebhookOutboxRepository::new();
    let (tenant, intent, sub) = (new_id(), new_id(), new_id());
    let r1 = sample_record(tenant, intent, sub);
    let r2 = sample_record(tenant, intent, sub);
    repo.create(r1.clone()).unwrap();
    repo.create(r2.clone()).unwrap();
    repo.mark_failed(r1.id, tenant, "timeout".to_string()).unwrap();
    repo.mark_failed(r2.id, tenant, "timeout".to_string()).unwrap();

    let parsed = dlq_stats(&repo, tenant).unwrap();
    assert_eq!(parsed.stats.total_failed, 2);
    assert_eq!(parsed.stats.replayed_count, 0);
    assert_eq!(parsed.stats.by_error_summary.len(), 1);
    assert_eq!(parsed.stats.by_error_summary[0].error_pattern, "timeout");
    assert_eq!(parsed.stats.by_error_summary[0].count, 2);
}

#[test]
fn test_dlq_stats_oldest_age() {
    let mut repo = InMemoryWebhookOutboxRepository::new();
    let (tenant, intent, sub) = (new_id(), new_id(), new_id());
    let r = sample_record(tenant, intent, sub);
    repo.create(r.clone()).unwrap();
    repo.mark_failed(r.id, tenant, "boom".to_string()).unwrap();

    let parsed = dlq_stats(&repo, tenant).unwrap();
    assert_eq!(parsed.stats.total_failed, 1);
    assert!(parsed.stats.oldest_failed_age_seconds.unwrap_or(0) >= 0, "expected non-negative age");
}

#[test]
fn test_dlq_stats_tenant_boundary() {
    let mut repo = InMemoryWebhookOutboxRepository::new();
    let (tenant_a, tenant_b, intent, sub) = (new_id(), new_id(), new_id(), new_id());
    let r = sample_record(tenant_a, intent, sub);
    repo.create(r.clone()).unwrap();
    repo.mark_failed(r.id, tenant_a, "err".to_string()).unwrap();

    let parsed = dlq_stats(&repo, tenant_b).unwrap();
    assert_eq!(parsed.stats.total_failed, 0);
    assert_eq!(parsed.stats.replayed_count, 0);
}

#[test]
fn test_dlq_stats_replayed_count() {
    let mut repo = InMemoryWebhookOutboxRepository::new();
    let (tenant, intent, sub) = (new_id(), new_id(), new_id());
    let r1 = sample_record(tenant, intent, sub);
    let r2 = sample_record(tenant, intent, sub);
    repo.create(r1.clone()).unwrap();
    repo.create(r2.clone()).unwrap();
    repo.mark_failed(r1.id, tenant, "e1".to_string()).unwrap();
    repo.mark_failed(r2.id, tenant, "e2".to_string()).unwrap();
    repo.replay_failed(r1.id, tenant, None).unwrap();

    let parsed = dlq_stats(&repo, tenant).unwrap();
    assert_eq!(parsed.stats.total_failed, 1);
    assert_eq!(parsed.stats.replayed_count, 1);
    assert_eq!(parsed.stats.by_error_summary.len(), 1);
    assert_eq!(parsed.stats.by_error_summary[0].error_pattern, "e2");
    assert_eq!(parsed.stats.by_error_summary[0].count, 1);
}

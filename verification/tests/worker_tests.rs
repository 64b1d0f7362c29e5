use intent_api::webhook_dispatcher::WebhookDispatchFailure;
use intent_api::webhook_outbox_repo::{
    InMemoryWebhookOutboxRepository, OutboxStoreError, WebhookOutboxRecord, WebhookOutboxStatus,
};
use intent_api::webhook_outbox_worker::{
    tenants_to_process, worker_enabled_from, WebhookOutboxWorkerPass, WorkerStep, WEBHOOK_OUTBOX_WORKER_BATCH_SIZE,
    WEBHOOK_OUTBOX_WORKER_ENV_VAR, WEBHOOK_OUTBOX_WORKER_POLL_INTERVAL_SECS,
};

fn new_id() -> u128 {
    uuid::Uuid::new_v4().as_u128()
}

fn sample_record(tenant_id: u128) -> WebhookOutboxRecord {
    WebhookOutboxRecord::new(
        tenant_id,
        new_id(),
        new_id(),
        "intent_changed".to_string(),
        serde_json::from_str(r#"{"foo": "bar"}"#).unwrap(),
        None,
    )
}

/// Runs one pass of the worker against the store, with every dispatch
/// answering `outcome`; returns the pass result.
fn run_pass(
    repo: &mut InMemoryWebhookOutboxRepository,
    tenant_id: u128,
    batch_size: i64,
    gate: Option<&str>,
    outcome: &dyn Fn() -> Result<(), WebhookDispatchFailure>,
) -> Result<usize, OutboxStoreError> {
    let (mut pass, mut step) = WebhookOutboxWorkerPass::start(worker_enabled_from(gate), tenant_id, batch_size);
    loop {
        step = match step {
            WorkerStep::ListPending { tenant_id, limit } => pass.on_listed(Ok(repo.list_pending(tenant_id, limit))),
            WorkerStep::Claim { id, tenant_id, locked_by } => pass.on_claimed(repo.claim(id, tenant_id, locked_by)).0,
            WorkerStep::Dispatch { record: _ } => pass.on_dispatched(outcome()),
            WorkerStep::MarkDelivered { id, tenant_id } => pass.on_marked_delivered(repo.mark_delivered(id, tenant_id)).0,
            WorkerStep::MarkFailed { id, tenant_id, reason } => {
                pass.on_marked_failed(repo.mark_failed(id, tenant_id, reason)).0
            },
            WorkerStep::Finished { result } => return result,
        };
    }
}

#[test]
fn test_worker_disabled_by_default() {
    let mut repo = InMemoryWebhookOutboxRepository::new();
    let tenant = new_id();
    let result = run_pass(&mut repo, tenant, 10, None, &|| Ok(()));
    assert_eq!(result.unwrap(), 0);
}

#[test]
fn test_worker_claims_and_processes_pending() {
    let mut repo = InMemoryWebhookOutboxRepository::new();
    let tenant = new_id();
    let record = sample_record(tenant);
    repo.create(record.clone()).unwrap();

    let result = run_pass(&mut repo, tenant, 10, Some("true"), &|| Ok(()));
    assert_eq!(result.unwrap(), 1);

    let fetched = repo.get(record.id, tenant).unwrap();
    assert_eq!(fetched.status, WebhookOutboxStatus::Delivered);
    assert_eq!(fetched.lock_version, 2); // claim + delivered
}

#[test]
fn test_worker_no_pending_rows() {
    let mut repo = InMemoryWebhookOutboxRepository::new();
    let result = run_pass(&mut repo, new_id(), 10, Some("true"), &|| Ok(()));
    assert_eq!(result.unwrap(), 0);
}

#[test]
fn test_worker_skips_already_claimed() {
    let mut repo = InMemoryWebhookOutboxRepository::new();
    let tenant = new_id();
    let record = sample_record(tenant);
    repo.create(record.clone()).unwrap();
    repo.claim(record.id, tenant, "other-worker".to_string()).unwrap();

    let result = run_pass(&mut repo, tenant, 10, Some("true"), &|| Ok(()));
    assert_eq!(result.unwrap(), 0);

    let fetched = repo.get(record.id, tenant).unwrap();
    assert_eq!(fetched.status, WebhookOutboxStatus::Claimed);
    assert_eq!(fetched.locked_by, Some("other-worker".to_string()));
}

#[test]
fn test_worker_marks_failed_on_dispatch_error() {
    let mut repo = InMemoryWebhookOutboxRepository::new();
    let tenant = new_id();
    let record = sample_record(tenant);
    repo.create(record.clone()).unwrap();

    let result = run_pass(&mut repo, tenant, 10, Some("true"), &|| {
        Err(WebhookDispatchFailure::Retryable { reason: "network timeout".to_string() })
    });
    assert_eq!(result.unwrap(), 0);

    let fetched = repo.get(record.id, tenant).unwrap();
    assert_eq!(fetched.status, WebhookOutboxStatus::Failed);
    assert_eq!(fetched.last_error, Some("network timeout".to_string()));
    assert_eq!(fetched.lock_version, 2); // claim + failed
}

#[test]
fn worker_gate_values() {
    assert!(worker_enabled_from(Some("true")));
    assert!(worker_enabled_from(Some("TRUE")));
    assert!(worker_enabled_from(Some("Yes")));
    assert!(worker_enabled_from(Some("1")));
    assert!(!worker_enabled_from(Some("")));
    assert!(!worker_enabled_from(Some("false")));
    assert!(!worker_enabled_from(Some("0")));
    assert!(!worker_enabled_from(Some(" true")));
    assert!(!worker_enabled_from(None));
    assert_eq!(WEBHOOK_OUTBOX_WORKER_ENV_VAR, "INTENT_API_WEBHOOK_OUTBOX_WORKER");
    assert_eq!(WEBHOOK_OUTBOX_WORKER_BATCH_SIZE, 100);
    assert_eq!(WEBHOOK_OUTBOX_WORKER_POLL_INTERVAL_SECS, 30);
}

#[test]
fn worker_pass_respects_batch_size_and_counts_deliveries() {
    let mut repo = InMemoryWebhookOutboxRepository::new();
    let tenant = new_id();
    for _ in 0..3 {
        repo.create(sample_record(tenant)).unwrap();
    }
    assert_eq!(run_pass(&mut repo, tenant, 2, Some("1"), &|| Ok(())).unwrap(), 2);
    assert_eq!(repo.list_pending(tenant, 10).len(), 1);
    assert_eq!(run_pass(&mut repo, tenant, 2, Some("1"), &|| Ok(())).unwrap(), 1);
    assert!(repo.list_pending(tenant, 10).is_empty());
}

#[test]
fn worker_pass_uses_sanitised_terminal_reason() {
    let mut repo = InMemoryWebhookOutboxRepository::new();
    let tenant = new_id();
    let record = sample_record(tenant);
    repo.create(record.clone()).unwrap();
    let result = run_pass(&mut repo, tenant, 10, Some("yes"), &|| {
        Err(WebhookDispatchFailure::Terminal { reason: "No webhook_url in outbox record".to_string() })
    });
    assert_eq!(result.unwrap(), 0);
    let fetched = repo.get(record.id, tenant).unwrap();
    assert_eq!(fetched.last_error.as_deref(), Some("No webhook_url in outbox record"));
}

#[test]
fn listing_error_ends_the_pass_with_it() {
    let (mut pass, step) = WebhookOutboxWorkerPass::start(true, 7, 10);
    assert!(matches!(step, WorkerStep::ListPending { tenant_id: 7, limit: 10 }));
    let step = pass.on_listed(Err(OutboxStoreError::Storage("db down".to_string())));
    match step {
        WorkerStep::Finished { result: Err(OutboxStoreError::Storage(m)) } => assert_eq!(m, "db down"),
        other => panic!("unexpected {:?}", other),
    }
    assert_eq!(pass.processed(), 0);
}

#[test]
fn tenants_of_a_failed_listing_are_none() {
    assert_eq!(tenants_to_process(Ok(vec![1, 2])), vec![1, 2]);
    assert!(tenants_to_process(Err(OutboxStoreError::Storage("x".to_string()))).is_empty());
}

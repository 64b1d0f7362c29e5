use intent_api::webhook_delivery::{
    build_webhook_payload, sanitize_failure_reason, WebhookDeliveryResult, WebhookHeaders, WebhookPayloadInput,
    WebhookSendError,
};
use intent_api::webhook_dispatcher::{
    classify_delivery, delivery_headers, delivery_request_at, WebhookDeliveryDispatcher, WebhookDispatchFailure,
};
use intent_api::webhook_outbox_repo::WebhookOutboxRecord;

fn new_id() -> u128 {
    uuid::Uuid::new_v4().as_u128()
}

#[test]
fn test_payload_shape_matches_schema() {
    let intent_id = new_id();
    let tenant_id = new_id();
    let delivery_id = new_id();
    let subscription_id = new_id();

    let payload = build_webhook_payload(WebhookPayloadInput {
        intent_id,
        tenant_id,
        version: 42,
        version_hash: Some("sha256:abc123".to_string()),
        previous_version: Some(41),
        delivery_id,
        attempt_number: 1,
        subscription_id,
    });

    assert_eq!(payload.event_type, "intent_changed");
    assert_eq!(payload.intent_id, intent_id);
    assert_eq!(payload.tenant_id, tenant_id);
    assert_eq!(payload.version, 42);
    assert_eq!(payload.version_hash.as_deref(), Some("sha256:abc123"));
    assert_eq!(payload.previous_version, Some(41));
    assert!(payload.timestamp > 0);
    assert_eq!(payload.delivery_id, delivery_id);
    assert_eq!(payload.attempt_number, 1);
    assert_eq!(payload.subscription_id, subscription_id);
}

#[test]
fn test_payload_omits_optional_fields_when_none() {
    let payload = build_webhook_payload(WebhookPayloadInput {
        intent_id: new_id(),
        tenant_id: new_id(),
        version: 1,
        version_hash: None,
        previous_version: None,
        delivery_id: new_id(),
        attempt_number: 1,
        subscription_id: new_id(),
    });
    assert!(payload.version_hash.is_none());
    assert!(payload.previous_version.is_none());
}

#[test]
fn test_content_type_header_is_application_json() {
    let headers = WebhookHeaders::new(new_id());
    assert_eq!(headers.content_type, "application/json");
}

#[test]
fn test_idempotency_key_is_delivery_id() {
    let delivery = uuid::Uuid::new_v4();
    let headers = WebhookHeaders::new(delivery.as_u128());
    assert_eq!(headers.idempotency_key, delivery.to_string());
}

#[test]
fn test_attempt_number_is_one_on_initial_attempt() {
    let payload = build_webhook_payload(WebhookPayloadInput {
        intent_id: new_id(),
        tenant_id: new_id(),
        version: 1,
        version_hash: None,
        previous_version: None,
        delivery_id: new_id(),
        attempt_number: 1,
        subscription_id: new_id(),
    });
    assert_eq!(payload.attempt_number, 1);
}

#[test]
fn test_attempt_number_increments_on_retry() {
    let intent_id = new_id();
    let tenant_id = new_id();
    let delivery_id = new_id();
    let subscription_id = new_id();
    let input = |attempt_number: i32| WebhookPayloadInput {
        intent_id,
        tenant_id,
        version: 1,
        version_hash: None,
        previous_version: None,
        delivery_id,
        attempt_number,
        subscription_id,
    };
    let first = build_webhook_payload(input(1));
    let second = build_webhook_payload(input(2));
    assert_eq!(first.attempt_number, 1);
    assert_eq!(second.attempt_number, 2);
}

#[test]
fn test_signature_header_is_absent() {
    let headers = WebhookHeaders::new(new_id());
    assert!(!headers.has_signature_header());
}

#[test]
fn test_sanitize_failure_reason_strips_full_url() {
    let raw = "Connection failed: https://example.com/webhook?secret=abc123";
    let sanitized = sanitize_failure_reason(raw);
    assert!(!sanitized.contains("https://example.com/webhook?secret=abc123"));
    assert!(sanitized.contains("[URL_REDACTED]"));
}

#[test]
fn test_sanitize_failure_reason_leaves_non_url_text_intact() {
    let raw = "DNS resolution timeout for host";
    let sanitized = sanitize_failure_reason(raw);
    assert_eq!(sanitized, "DNS resolution timeout for host");
}

#[test]
fn test_sanitize_failure_reason_strips_http_url() {
    let raw = "POST to http://internal.service:8080/callback failed";
    let sanitized = sanitize_failure_reason(raw);
    assert!(!sanitized.contains("http://internal.service:8080/callback"));
    assert!(sanitized.contains("[URL_REDACTED]"));
}

#[test]
fn test_sanitize_failure_reason_strips_multiple_urls() {
    let raw = "Tried https://a.com then http://b.com";
    let sanitized = sanitize_failure_reason(raw);
    assert_eq!(sanitized, "Tried [URL_REDACTED] then [URL_REDACTED]");
}

#[test]
fn sanitize_keeps_text_after_url_and_ends_url_at_whitespace() {
    assert_eq!(
        sanitize_failure_reason("POST to http://internal.service:8080/callback failed"),
        "POST to [URL_REDACTED] failed"
    );
    assert_eq!(sanitize_failure_reason(""), "");
    assert_eq!(sanitize_failure_reason("https://"), "[URL_REDACTED]");
}

// -----------------------------------------------------------------------------
// Dispatch: request, headers and classification of the send outcome
// -----------------------------------------------------------------------------

fn sample_record_with_url(url: &str) -> WebhookOutboxRecord {
    WebhookOutboxRecord::new(
        new_id(),
        new_id(),
        new_id(),
        "intent_changed".to_string(),
        serde_json::Value::String("foo".to_string()),
        Some(url.to_string()),
    )
}

#[test]
fn test_dispatch_no_url_fails() {
    let mut record = sample_record_with_url("http://example.com");
    record.webhook_url = None;
    let result = delivery_request_at(&record, 1_000);
    assert!(result.is_err());
    match result.unwrap_err() {
        WebhookDispatchFailure::Terminal { reason } => assert!(reason.contains("No webhook_url")),
        other => panic!("expected Terminal failure, got {:?}", other),
    }
}

#[test]
fn test_dispatch_success() {
    let record = sample_record_with_url("http://example.com");
    let (url, payload) = delivery_request_at(&record, 1_000).unwrap();
    assert_eq!(url, "http://example.com");
    assert_eq!(payload.delivery_id, record.id);
    assert_eq!(payload.attempt_number, record.attempt_count + 1);
    let headers = delivery_headers(record.id, payload.timestamp, "{}", None).unwrap();
    assert!(!headers.has_signature_header());
    assert!(classify_delivery(Ok(WebhookDeliveryResult::Success)).is_ok());
}

#[test]
fn test_dispatch_failure() {
    let result = classify_delivery(Ok(WebhookDeliveryResult::NonRetryableFailure { reason: "HTTP 404".to_string() }));
    assert!(result.is_err());
    match result.unwrap_err() {
        WebhookDispatchFailure::Terminal { reason } => assert!(reason.contains("404")),
        other => panic!("expected Terminal failure, got {:?}", other),
    }
}

#[test]
fn test_dispatch_adds_hmac_signature_when_secret_set() {
    let record = sample_record_with_url("http://example.com");
    let (_, payload) = delivery_request_at(&record, 1_000).unwrap();
    let headers = delivery_headers(record.id, payload.timestamp, "{\"a\":1}", Some("test_secret_123")).unwrap();
    assert!(headers.has_signature_header());
    let signature = headers.signature.unwrap();
    assert_eq!(signature.len(), 64);
    assert!(signature.chars().all(|c| c.is_ascii_hexdigit()));
}

#[test]
fn test_dispatch_no_hmac_when_secret_unset() {
    let record = sample_record_with_url("http://example.com");
    let (_, payload) = delivery_request_at(&record, 1_000).unwrap();
    let headers = delivery_headers(record.id, payload.timestamp, "{}", None).unwrap();
    assert!(!headers.has_signature_header());
}

#[test]
fn delivery_signature_covers_timestamp_id_and_body() {
    let id = new_id();
    let a = delivery_headers(id, 0, "{}", Some("k")).unwrap().signature.unwrap();
    let b = delivery_headers(id, 1_000_000_000, "{}", Some("k")).unwrap().signature.unwrap();
    let c = delivery_headers(id, 0, "{\"x\":1}", Some("k")).unwrap().signature.unwrap();
    assert_ne!(a, b);
    assert_ne!(a, c);
    // The signature is HMAC-SHA256 over "<rfc3339>.<id>.<body>".
    let canonical = format!("1970-01-01T00:00:00+00:00.{}.{{}}", uuid::Uuid::from_u128(id));
    assert_eq!(a, intent_api::webhook_hmac::sign_payload("k", &canonical).unwrap());
}

#[test]
fn classify_each_delivery_outcome() {
    match classify_delivery(Ok(WebhookDeliveryResult::RetryableFailure { reason: "see https://x.io/a".to_string() })) {
        Err(WebhookDispatchFailure::Retryable { reason }) => assert_eq!(reason, "see [URL_REDACTED]"),
        other => panic!("unexpected {:?}", other),
    }
    match classify_delivery(Ok(WebhookDeliveryResult::RateLimited { retry_after: Some(30) })) {
        Err(WebhookDispatchFailure::Retryable { reason }) => assert_eq!(reason, "rate limited: retry_after=Some(30)"),
        other => panic!("unexpected {:?}", other),
    }
    match classify_delivery(Ok(WebhookDeliveryResult::RateLimited { retry_after: None })) {
        Err(WebhookDispatchFailure::Retryable { reason }) => assert_eq!(reason, "rate limited: retry_after=None"),
        other => panic!("unexpected {:?}", other),
    }
    match classify_delivery(Err(WebhookSendError::Network("refused by http://h:1".to_string()))) {
        Err(f) => {
            assert!(matches!(f, WebhookDispatchFailure::Retryable { .. }));
            assert_eq!(f.reason(), "refused by [URL_REDACTED]");
        },
        other => panic!("unexpected {:?}", other),
    }
}

#[test]
fn dispatcher_keeps_its_sender() {
    let d = WebhookDeliveryDispatcher::new(7u8);
    assert_eq!(*d.sender(), 7u8);
}

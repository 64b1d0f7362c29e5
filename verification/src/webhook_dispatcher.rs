//! Webhook dispatch decisions: what an outbox record is delivered as, how a
//! delivery is signed, and how the outcome of a send is classified.

use vstd::prelude::*;
use crate::clock::{rfc3339, rfc3339_text};
use crate::ids::{uuid_string, uuid_text};
use crate::text::{decimal_text, u64_decimal};
use crate::webhook_delivery::{
    build_webhook_payload_at, is_payload_for, sanitize_failure_reason, sanitized_text,
    WebhookDeliveryResult, WebhookHeaders, WebhookPayload, WebhookPayloadInput, WebhookSendError,
};
use crate::webhook_hmac::{build_canonical_string, canonical_string, hmac_sha256_tag, sign_payload};
use crate::text::hex_of_bytes;
use crate::webhook_outbox_repo::WebhookOutboxRecord;
use vstd::string::StringSliceAdditionalSpecFns;
use vstd::utf8::encode_utf8;

verus! {

/// Classification of a webhook dispatch failure for retry decisions.
#[derive(Debug)]
pub enum WebhookDispatchFailure {
    /// Transient failure: a retry may succeed.
    Retryable { reason: String },
    /// Non-retryable failure.
    Terminal { reason: String },
}

/// Reason given when a record has no target URL.
pub open spec fn no_url_text() -> Seq<char> {
    "No webhook_url in outbox record"@
}

/// The payload input of a delivery attempt of `record`: version fields are
/// not yet tracked by outbox records and are sent as version 0.
pub open spec fn delivery_input(record: WebhookOutboxRecord) -> WebhookPayloadInput {
    WebhookPayloadInput {
        intent_id: record.intent_id,
        tenant_id: record.tenant_id,
        version: 0,
        version_hash: None,
        previous_version: None,
        delivery_id: record.id,
        attempt_number: (record.attempt_count + 1) as i32,
        subscription_id: record.subscription_id,
    }
}

/// The target URL and payload of the next delivery attempt of `record`,
/// stamped `now`; a record without URL fails for good.
pub fn delivery_request_at(record: &WebhookOutboxRecord, now: i64) -> (r: Result<(String, WebhookPayload), WebhookDispatchFailure>)
    requires
        record.attempt_count < i32::MAX,
    ensures
        record.webhook_url is None ==> (r matches Err(WebhookDispatchFailure::Terminal { reason }) && reason@
            == no_url_text()),
        record.webhook_url matches Some(url) ==> (r matches Ok((u, p)) && u == url && is_payload_for(
            p,
            delivery_input(*record),
            now,
        )),
        r matches Ok((u, p)) ==> p.intent_id == record.intent_id && p.tenant_id == record.tenant_id
            && p.subscription_id == record.subscription_id && p.delivery_id == record.id && p.attempt_number
            == record.attempt_count + 1 && p.timestamp == now,
{
    let url = match &record.webhook_url {
        Some(u) => u.clone(),
        None => {
            return Err(
                WebhookDispatchFailure::Terminal { reason: String::from_str("No webhook_url in outbox record") },
            );
        },
    };
    let payload = build_webhook_payload_at(
        WebhookPayloadInput {
            intent_id: record.intent_id,
            tenant_id: record.tenant_id,
            version: 0,
            version_hash: None,
            previous_version: None,
            delivery_id: record.id,
            attempt_number: record.attempt_count + 1,
            subscription_id: record.subscription_id,
        },
        now,
    );
    Ok((url, payload))
}

/// The payload of a record's delivery speaks of that record: it names the
/// record's intent, tenant and subscription, carries the record's id as
/// its delivery id, counts the coming attempt as one more than those made,
/// and is stamped with the time of the delivery.
pub proof fn law_delivery_names_its_record(record: WebhookOutboxRecord, now: i64, p: WebhookPayload)
    requires
        record.attempt_count < i32::MAX,
        is_payload_for(p, delivery_input(record), now),
    ensures
        p.intent_id == record.intent_id,
        p.tenant_id == record.tenant_id,
        p.subscription_id == record.subscription_id,
        p.delivery_id == record.id,
        p.attempt_number == record.attempt_count + 1,
        p.timestamp == now,
        p.event_type@ == "intent_changed"@,
{
    reveal_strlit("intent_changed");
}

/// The string signed for a delivery: its RFC 3339 timestamp, its id and its
/// JSON body.
pub open spec fn signed_text(delivery_id: u128, timestamp: i64, body: Seq<char>) -> Seq<char> {
    canonical_string(rfc3339_text(timestamp), uuid_text(delivery_id), body)
}

/// The headers of a delivery whose payload was stamped `timestamp` and
/// serialised as `body`: signed with HMAC-SHA256 under `secret` when a
/// secret is configured.
pub fn delivery_headers(delivery_id: u128, timestamp: i64, body: &str, secret: Option<&str>) -> (r: Result<WebhookHeaders, WebhookDispatchFailure>)
    ensures
        r matches Ok(h) && h.content_type@ == "application/json"@ && h.idempotency_key@ == uuid_text(delivery_id)
            && match secret {
            None => h.signature is None,
            Some(key) => (h.signature matches Some(sig) && sig@ == hex_of_bytes(
                hmac_sha256_tag(key.spec_bytes(), encode_utf8(signed_text(delivery_id, timestamp, body@))),
            )),
        },
{
    let headers = WebhookHeaders::new(delivery_id);
    match secret {
        None => Ok(headers),
        Some(key) => {
            let ts = rfc3339(timestamp);
            let id = uuid_string(delivery_id);
            let canonical = build_canonical_string(ts.as_str(), id.as_str(), body);
            let signed = canonical.as_str();
            match sign_payload(key, signed) {
                Ok(sig) => Ok(headers.with_signature(sig)),
                Err(e) => {
                    let mut reason = String::from_str("HMAC sign error: ");
                    reason.append(e.as_str());
                    Err(WebhookDispatchFailure::Terminal { reason })
                },
            }
        },
    }
}

/// The reason given for a rate-limited delivery:
/// `rate limited: retry_after=` and the `Debug` form of the retry delay.
pub open spec fn rate_limited_text(retry_after: Option<u64>) -> Seq<char> {
    "rate limited: retry_after="@ + match retry_after {
        Some(n) => "Some("@ + decimal_text(n as nat) + seq![')'],
        None => "None"@,
    }
}

/// How the outcome of a send decides the dispatch: success passes,
/// refusals fail for good, transient failures, rate limits and network
/// errors are retryable; reasons are sanitised.
pub open spec fn classified(
    result: Result<WebhookDeliveryResult, WebhookSendError>,
    outcome: Result<(), WebhookDispatchFailure>,
) -> bool {
    match result {
        Ok(WebhookDeliveryResult::Success) => outcome is Ok,
        Ok(WebhookDeliveryResult::NonRetryableFailure { reason }) => outcome matches Err(
            WebhookDispatchFailure::Terminal { reason: r },
        ) && r@ == sanitized_text(reason@),
        Ok(WebhookDeliveryResult::RetryableFailure { reason }) => outcome matches Err(
            WebhookDispatchFailure::Retryable { reason: r },
        ) && r@ == sanitized_text(reason@),
        Ok(WebhookDeliveryResult::RateLimited { retry_after }) => outcome matches Err(
            WebhookDispatchFailure::Retryable { reason: r },
        ) && r@ == rate_limited_text(retry_after),
        Err(WebhookSendError::Network(reason)) => outcome matches Err(
            WebhookDispatchFailure::Retryable { reason: r },
        ) && r@ == sanitized_text(reason@),
    }
}

/// Classifies the outcome of sending a webhook.
pub fn classify_delivery(result: Result<WebhookDeliveryResult, WebhookSendError>) -> (r: Result<(), WebhookDispatchFailure>)
    ensures
        classified(result, r),
{
    match result {
        Ok(WebhookDeliveryResult::Success) => Ok(()),
        Ok(WebhookDeliveryResult::NonRetryableFailure { reason }) => Err(
            WebhookDispatchFailure::Terminal { reason: sanitize_failure_reason(reason.as_str()) },
        ),
        Ok(WebhookDeliveryResult::RetryableFailure { reason }) => Err(
            WebhookDispatchFailure::Retryable { reason: sanitize_failure_reason(reason.as_str()) },
        ),
        Ok(WebhookDeliveryResult::RateLimited { retry_after }) => {
            let mut reason = String::from_str("rate limited: retry_after=");
            let ghost head = reason@;
            match retry_after {
                Some(n) => {
                    reason.append("Some(");
                    reason.append(u64_decimal(n).as_str());
                    crate::text::push_char(&mut reason, ')');
                    assert(reason@ =~= head + ("Some("@ + decimal_text(n as nat) + seq![')']));
                },
                None => {
                    reason.append("None");
                },
            }
            assert(reason@ == rate_limited_text(retry_after));
            Err(WebhookDispatchFailure::Retryable { reason })
        },
        Err(WebhookSendError::Network(reason)) => Err(
            WebhookDispatchFailure::Retryable { reason: sanitize_failure_reason(reason.as_str()) },
        ),
    }
}

/// The reason recorded for a failed dispatch.
pub open spec fn failure_reason_text(f: WebhookDispatchFailure) -> Seq<char> {
    match f {
        WebhookDispatchFailure::Retryable { reason } => reason@,
        WebhookDispatchFailure::Terminal { reason } => reason@,
    }
}

impl WebhookDispatchFailure {
    /// The reason of the failure, whatever its class.
    pub fn reason(&self) -> (r: String)
        ensures
            r@ == failure_reason_text(*self),
    {
        match self {
            WebhookDispatchFailure::Retryable { reason } => reason.clone(),
            WebhookDispatchFailure::Terminal { reason } => reason.clone(),
        }
    }
}

/// Dispatcher that builds payloads, signs them and hands them to a sender
/// of type `S` for delivery.
pub struct WebhookDeliveryDispatcher<S> {
    sender: S,
}

impl<S> WebhookDeliveryDispatcher<S> {
    /// The sender deliveries are handed to.
    pub closed spec fn sender_value(&self) -> S {
        self.sender
    }

    /// A dispatcher sending through `sender`.
    pub fn new(sender: S) -> (r: Self)
        ensures
            r.sender_value() == sender,
    {
        WebhookDeliveryDispatcher { sender }
    }

    /// The sender deliveries are handed to.
    pub fn sender(&self) -> (s: &S)
        ensures
            *s == self.sender_value(),
    {
        &self.sender
    }
}

} // verus!

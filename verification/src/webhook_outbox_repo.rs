//! Webhook outbox: records that track pending, claimed, delivered and failed
//! webhook deliveries, with an in-memory store whose every operation is
//! specified over a map from record id to record.

use vstd::prelude::*;
use std::collections::HashMap;
use vstd::std_specs::iter::IteratorSpec;
use crate::clock::current_time_nanos;
use crate::ids::{new_uuid_v4, uuid_string, uuid_text};
use crate::text::{push_char, text_less, lemma_text_lt_total, lemma_text_lt_trans};

verus! {

broadcast use vstd::std_specs::hash::group_hash_axioms;

/// Status of a webhook outbox entry.
#[derive(Clone, Copy, Debug, PartialEq, Eq, Structural)]
pub enum WebhookOutboxStatus {
    /// Awaiting delivery
    Pending,
    /// Worker has taken ownership
    Claimed,
    /// Final success
    Delivered,
    /// Exhausted max_attempts or non-retryable error
    Failed,
}

/// A webhook outbox record: one webhook delivery and its attempts.
/// Identifiers are UUIDs held as their 128-bit value; instants are
/// nanoseconds since the Unix epoch (UTC).
#[derive(Debug)]
pub struct WebhookOutboxRecord {
    /// Unique delivery identifier
    pub id: u128,
    /// Tenant this delivery belongs to
    pub tenant_id: u128,
    /// Intent this delivery is for
    pub intent_id: u128,
    /// Subscription this delivery targets
    pub subscription_id: u128,
    /// Event type (e.g., intent_changed)
    pub event_type: String,
    /// Payload envelope
    pub payload: serde_json::Value,
    /// Target webhook URL
    pub webhook_url: Option<String>,
    /// Current status
    pub status: WebhookOutboxStatus,
    /// Number of delivery attempts made
    pub attempt_count: i32,
    /// Maximum allowed attempts
    pub max_attempts: i32,
    /// Next scheduled delivery attempt time
    pub scheduled_at: i64,
    /// Claim timestamp for worker concurrency
    pub locked_at: Option<i64>,
    /// Worker identity token
    pub locked_by: Option<String>,
    /// Final success timestamp
    pub delivered_at: Option<i64>,
    /// Last failure reason
    pub last_error: Option<String>,
    /// Number of DLQ replays performed
    pub replay_count: i32,
    /// Timestamp of the most recent DLQ replay
    pub replayed_at: Option<i64>,
    /// Actor identity for the most recent DLQ replay
    pub replayed_by: Option<String>,
    /// Optimistic locking version
    pub lock_version: i32,
    /// Creation timestamp
    pub created_at: i64,
    /// Last update timestamp
    pub updated_at: i64,
}

fn clone_opt_string(s: &Option<String>) -> (r: Option<String>)
    ensures
        r == *s,
{
    match s {
        Some(v) => Some(v.clone()),
        None => None,
    }
}

impl Clone for WebhookOutboxRecord {
    fn clone(&self) -> (r: Self)
        ensures
            r == *self,
    {
        WebhookOutboxRecord {
            id: self.id,
            tenant_id: self.tenant_id,
            intent_id: self.intent_id,
            subscription_id: self.subscription_id,
            event_type: self.event_type.clone(),
            payload: self.payload.clone(),
            webhook_url: clone_opt_string(&self.webhook_url),
            status: self.status,
            attempt_count: self.attempt_count,
            max_attempts: self.max_attempts,
            scheduled_at: self.scheduled_at,
            locked_at: self.locked_at,
            locked_by: clone_opt_string(&self.locked_by),
            delivered_at: self.delivered_at,
            last_error: clone_opt_string(&self.last_error),
            replay_count: self.replay_count,
            replayed_at: self.replayed_at,
            replayed_by: clone_opt_string(&self.replayed_by),
            lock_version: self.lock_version,
            created_at: self.created_at,
            updated_at: self.updated_at,
        }
    }
}

/// Default maximum number of delivery attempts of a new record.
pub const DEFAULT_MAX_ATTEMPTS: i32 = 3;

impl WebhookOutboxRecord {
    /// A new pending record with the given id, created at `now`.
    pub open spec fn spec_pending(
        id: u128,
        now: i64,
        tenant_id: u128,
        intent_id: u128,
        subscription_id: u128,
        event_type: String,
        payload: serde_json::Value,
        webhook_url: Option<String>,
    ) -> WebhookOutboxRecord {
        WebhookOutboxRecord {
            id,
            tenant_id,
            intent_id,
            subscription_id,
            event_type,
            payload,
            webhook_url,
            status: WebhookOutboxStatus::Pending,
            attempt_count: 0,
            max_attempts: DEFAULT_MAX_ATTEMPTS,
            scheduled_at: now,
            locked_at: None,
            locked_by: None,
            delivered_at: None,
            last_error: None,
            replay_count: 0,
            replayed_at: None,
            replayed_by: None,
            lock_version: 0,
            created_at: now,
            updated_at: now,
        }
    }

    /// Builds a new pending record with identifier `id`, created at `now`.
    pub fn pending(
        id: u128,
        now: i64,
        tenant_id: u128,
        intent_id: u128,
        subscription_id: u128,
        event_type: String,
        payload: serde_json::Value,
        webhook_url: Option<String>,
    ) -> (r: Self)
        ensures
            r == Self::spec_pending(
                id,
                now,
                tenant_id,
                intent_id,
                subscription_id,
                event_type,
                payload,
                webhook_url,
            ),
    {
        WebhookOutboxRecord {
            id,
            tenant_id,
            intent_id,
            subscription_id,
            event_type,
            payload,
            webhook_url,
            status: WebhookOutboxStatus::Pending,
            attempt_count: 0,
            max_attempts: DEFAULT_MAX_ATTEMPTS,
            scheduled_at: now,
            locked_at: None,
            locked_by: None,
            delivered_at: None,
            last_error: None,
            replay_count: 0,
            replayed_at: None,
            replayed_by: None,
            lock_version: 0,
            created_at: now,
            updated_at: now,
        }
    }

    /// Creates a new pending record with a fresh random id, created now.
    pub fn new(
        tenant_id: u128,
        intent_id: u128,
        subscription_id: u128,
        event_type: String,
        payload: serde_json::Value,
        webhook_url: Option<String>,
    ) -> (r: Self)
        ensures
            r == Self::spec_pending(
                r.id,
                r.created_at,
                tenant_id,
                intent_id,
                subscription_id,
                event_type,
                payload,
                webhook_url,
            ),
    {
        let id = new_uuid_v4();
        let now = current_time_nanos();
        Self::pending(id, now, tenant_id, intent_id, subscription_id, event_type, payload, webhook_url)
    }

    /// Builder-style helper that sets the webhook URL.
    pub fn with_webhook_url(self, url: String) -> (r: Self)
        ensures
            r == (WebhookOutboxRecord { webhook_url: Some(url), ..self }),
    {
        let mut r = self;
        r.webhook_url = Some(url);
        r
    }
}

// =============================================================================
// Record transitions
// =============================================================================

/// The record after a worker claimed it at `now`.
pub open spec fn claimed_record(r: WebhookOutboxRecord, locked_by: String, now: i64) -> WebhookOutboxRecord {
    WebhookOutboxRecord {
        status: WebhookOutboxStatus::Claimed,
        locked_at: Some(now),
        locked_by: Some(locked_by),
        lock_version: (r.lock_version + 1) as i32,
        updated_at: now,
        ..r
    }
}

/// The record after it was delivered at `now`.
pub open spec fn delivered_record(r: WebhookOutboxRecord, now: i64) -> WebhookOutboxRecord {
    WebhookOutboxRecord {
        status: WebhookOutboxStatus::Delivered,
        delivered_at: Some(now),
        lock_version: (r.lock_version + 1) as i32,
        updated_at: now,
        ..r
    }
}

/// The record after it failed with `last_error` at `now`.
pub open spec fn failed_record(r: WebhookOutboxRecord, last_error: String, now: i64) -> WebhookOutboxRecord {
    WebhookOutboxRecord {
        status: WebhookOutboxStatus::Failed,
        last_error: Some(last_error),
        lock_version: (r.lock_version + 1) as i32,
        updated_at: now,
        ..r
    }
}

/// The record after a retry was scheduled at `scheduled_at`, decided at `now`.
pub open spec fn rescheduled_record(
    r: WebhookOutboxRecord,
    last_error: String,
    scheduled_at: i64,
    now: i64,
) -> WebhookOutboxRecord {
    WebhookOutboxRecord {
        status: WebhookOutboxStatus::Pending,
        attempt_count: (r.attempt_count + 1) as i32,
        scheduled_at,
        last_error: Some(last_error),
        locked_at: None,
        locked_by: None,
        lock_version: (r.lock_version + 1) as i32,
        updated_at: now,
        ..r
    }
}

/// The failed record after it was replayed by `replayed_by` at `now`.
pub open spec fn replayed_record(r: WebhookOutboxRecord, replayed_by: Option<String>, now: i64) -> WebhookOutboxRecord {
    WebhookOutboxRecord {
        status: WebhookOutboxStatus::Pending,
        attempt_count: 0,
        scheduled_at: now,
        last_error: None,
        locked_at: None,
        locked_by: None,
        replay_count: (r.replay_count + 1) as i32,
        replayed_at: Some(now),
        replayed_by,
        lock_version: (r.lock_version + 1) as i32,
        updated_at: now,
        ..r
    }
}

// =============================================================================
// Errors
// =============================================================================

/// Why an outbox store operation was refused.
#[derive(Debug)]
pub enum OutboxStoreError {
    /// A record with this id is already stored.
    AlreadyExists { id: u128 },
    /// No record has this id.
    NotFound { id: u128 },
    /// The record belongs to another tenant.
    NotFoundForTenant { id: u128, tenant_id: u128 },
    /// The record is not pending.
    NotPending { id: u128, status: WebhookOutboxStatus },
    /// The record is not failed.
    NotFailed { id: u128, status: WebhookOutboxStatus },
    /// A storage back end failed.
    Storage(String),
}

/// The name of a status as `Debug` prints it.
pub open spec fn status_debug_text(s: WebhookOutboxStatus) -> Seq<char> {
    match s {
        WebhookOutboxStatus::Pending => "Pending"@,
        WebhookOutboxStatus::Claimed => "Claimed"@,
        WebhookOutboxStatus::Delivered => "Delivered"@,
        WebhookOutboxStatus::Failed => "Failed"@,
    }
}

/// The message of a store error.
pub open spec fn error_text(e: OutboxStoreError) -> Seq<char> {
    match e {
        OutboxStoreError::AlreadyExists { id } => "Outbox record "@ + uuid_text(id) + " already exists"@,
        OutboxStoreError::NotFound { id } => "Outbox record "@ + uuid_text(id) + " not found"@,
        OutboxStoreError::NotFoundForTenant { id, tenant_id } => "Outbox record "@ + uuid_text(id)
            + " not found for tenant "@ + uuid_text(tenant_id),
        OutboxStoreError::NotPending { id, status } => "Outbox record "@ + uuid_text(id)
            + " is not pending (status: "@ + status_debug_text(status) + seq![')'],
        OutboxStoreError::NotFailed { id, status } => "Outbox record "@ + uuid_text(id)
            + " is not failed (status: "@ + status_debug_text(status) + seq![')'],
        OutboxStoreError::Storage(msg) => msg@,
    }
}

fn status_debug_string(s: WebhookOutboxStatus) -> (r: String)
    ensures
        r@ == status_debug_text(s),
{
    match s {
        WebhookOutboxStatus::Pending => String::from_str("Pending"),
        WebhookOutboxStatus::Claimed => String::from_str("Claimed"),
        WebhookOutboxStatus::Delivered => String::from_str("Delivered"),
        WebhookOutboxStatus::Failed => String::from_str("Failed"),
    }
}

impl OutboxStoreError {
    /// The human-readable message of the error.
    pub fn message(&self) -> (r: String)
        ensures
            r@ == error_text(*self),
    {
        match self {
            OutboxStoreError::AlreadyExists { id } => {
                let mut s = String::from_str("Outbox record ");
                s.append(uuid_string(*id).as_str());
                s.append(" already exists");
                s
            },
            OutboxStoreError::NotFound { id } => {
                let mut s = String::from_str("Outbox record ");
                s.append(uuid_string(*id).as_str());
                s.append(" not found");
                s
            },
            OutboxStoreError::NotFoundForTenant { id, tenant_id } => {
                let mut s = String::from_str("Outbox record ");
                s.append(uuid_string(*id).as_str());
                s.append(" not found for tenant ");
                s.append(uuid_string(*tenant_id).as_str());
                s
            },
            OutboxStoreError::NotPending { id, status } => {
                let mut s = String::from_str("Outbox record ");
                s.append(uuid_string(*id).as_str());
                s.append(" is not pending (status: ");
                s.append(status_debug_string(*status).as_str());
                push_char(&mut s, ')');
                s
            },
            OutboxStoreError::NotFailed { id, status } => {
                let mut s = String::from_str("Outbox record ");
                s.append(uuid_string(*id).as_str());
                s.append(" is not failed (status: ");
                s.append(status_debug_string(*status).as_str());
                push_char(&mut s, ')');
                s
            },
            OutboxStoreError::Storage(msg) => msg.clone(),
        }
    }
}


// =============================================================================
// Status column text
// =============================================================================

/// The text a status is stored as.
pub open spec fn status_text(s: WebhookOutboxStatus) -> Seq<char> {
    match s {
        WebhookOutboxStatus::Pending => "pending"@,
        WebhookOutboxStatus::Claimed => "claimed"@,
        WebhookOutboxStatus::Delivered => "delivered"@,
        WebhookOutboxStatus::Failed => "failed"@,
    }
}

/// The status stored as `t`, if `t` names one.
pub open spec fn parse_status(t: Seq<char>) -> Option<WebhookOutboxStatus> {
    if t == "pending"@ {
        Some(WebhookOutboxStatus::Pending)
    } else if t == "claimed"@ {
        Some(WebhookOutboxStatus::Claimed)
    } else if t == "delivered"@ {
        Some(WebhookOutboxStatus::Delivered)
    } else if t == "failed"@ {
        Some(WebhookOutboxStatus::Failed)
    } else {
        None
    }
}

/// The message of a status text that names no status.
pub open spec fn unknown_status_text(t: Seq<char>) -> Seq<char> {
    "unknown webhook_outbox status: "@ + t
}

/// The text a status is stored as.
pub fn status_to_str(status: &WebhookOutboxStatus) -> (r: &'static str)
    ensures
        r@ == status_text(*status),
{
    match status {
        WebhookOutboxStatus::Pending => "pending",
        WebhookOutboxStatus::Claimed => "claimed",
        WebhookOutboxStatus::Delivered => "delivered",
        WebhookOutboxStatus::Failed => "failed",
    }
}

/// Reads a stored status; text that names no status is a storage error.
pub fn status_from_str(s: &str) -> (r: Result<WebhookOutboxStatus, OutboxStoreError>)
    ensures
        match parse_status(s@) {
            Some(st) => r == Ok::<WebhookOutboxStatus, OutboxStoreError>(st),
            None => r matches Err(OutboxStoreError::Storage(m)) && m@ == unknown_status_text(s@),
        },
{
    let text = String::from_str(s);
    if text == String::from_str("pending") {
        Ok(WebhookOutboxStatus::Pending)
    } else if text == String::from_str("claimed") {
        Ok(WebhookOutboxStatus::Claimed)
    } else if text == String::from_str("delivered") {
        Ok(WebhookOutboxStatus::Delivered)
    } else if text == String::from_str("failed") {
        Ok(WebhookOutboxStatus::Failed)
    } else {
        let mut m = String::from_str("unknown webhook_outbox status: ");
        m.append(s);
        Err(OutboxStoreError::Storage(m))
    }
}

/// Reading back the text a status is stored as gives that status, and no
/// two statuses are stored as the same text.
pub proof fn law_status_text_round_trip(a: WebhookOutboxStatus, b: WebhookOutboxStatus)
    ensures
        parse_status(status_text(a)) == Some(a),
        status_text(a) == status_text(b) ==> a == b,
{
    reveal_strlit("pending");
    reveal_strlit("claimed");
    reveal_strlit("delivered");
    reveal_strlit("failed");
    assert("pending"@[0] == 'p' && "claimed"@[0] == 'c' && "delivered"@[0] == 'd' && "failed"@[0] == 'f');
    assert("pending"@ != "claimed"@ && "pending"@ != "delivered"@ && "pending"@ != "failed"@);
    assert("claimed"@ != "delivered"@ && "claimed"@ != "failed"@ && "delivered"@ != "failed"@);
}

// =============================================================================
// Queries: which records a listing selects, and in what order
// =============================================================================

/// Which records a listing selects.
#[derive(Clone, Copy, Debug)]
pub enum RecordFilter {
    /// Pending records of a tenant.
    PendingOf { tenant_id: u128 },
    /// Failed records of a tenant.
    FailedOf { tenant_id: u128 },
    /// Failed records of a tenant last updated strictly before `before`.
    FailedOlderThan { tenant_id: u128, before: i64 },
    /// Replayed records of a tenant (replayed at least once, with a replay
    /// time), optionally only those replayed at or after `since`.
    ReplayedOf { tenant_id: u128, since: Option<i64> },
}

/// Whether a listing selects the record.
pub open spec fn selects(f: RecordFilter, r: WebhookOutboxRecord) -> bool {
    match f {
        RecordFilter::PendingOf { tenant_id } => r.tenant_id == tenant_id && r.status
            == WebhookOutboxStatus::Pending,
        RecordFilter::FailedOf { tenant_id } => r.tenant_id == tenant_id && r.status
            == WebhookOutboxStatus::Failed,
        RecordFilter::FailedOlderThan { tenant_id, before } => r.tenant_id == tenant_id && r.status
            == WebhookOutboxStatus::Failed && r.updated_at < before,
        RecordFilter::ReplayedOf { tenant_id, since } => {
            &&& r.tenant_id == tenant_id
            &&& r.replay_count > 0
            &&& r.replayed_at is Some
            &&& (since matches Some(s) ==> r.replayed_at->0 >= s)
        },
    }
}

/// The order in which a listing returns records.
#[derive(Clone, Copy, Debug)]
pub enum ListOrder {
    /// Earliest `scheduled_at` first, then by id.
    ScheduledAsc,
    /// Latest `updated_at` first, then by id.
    UpdatedDesc,
    /// Latest `replayed_at` first, then by id.
    ReplayedDesc,
}

/// The replay time of a record as an integer; absent replay times sort last.
pub open spec fn replayed_key(r: WebhookOutboxRecord) -> int {
    match r.replayed_at {
        Some(t) => t as int,
        None => i64::MIN - 1,
    }
}

/// `a` comes strictly before `b` in the order.
pub open spec fn precedes(o: ListOrder, a: WebhookOutboxRecord, b: WebhookOutboxRecord) -> bool {
    match o {
        ListOrder::ScheduledAsc => a.scheduled_at < b.scheduled_at || (a.scheduled_at == b.scheduled_at
            && a.id < b.id),
        ListOrder::UpdatedDesc => a.updated_at > b.updated_at || (a.updated_at == b.updated_at && a.id
            < b.id),
        ListOrder::ReplayedDesc => replayed_key(a) > replayed_key(b) || (replayed_key(a) == replayed_key(b)
            && a.id < b.id),
    }
}

/// `res` lists the records of `m` that `f` selects, in order `o`, keeping
/// the first `limit` of them when `limit` is not negative (a negative limit
/// keeps all of them).
pub open spec fn is_ordered_selection(
    m: Map<u128, WebhookOutboxRecord>,
    f: RecordFilter,
    o: ListOrder,
    limit: i64,
    res: Seq<WebhookOutboxRecord>,
) -> bool {
    &&& forall|i: int, j: int| 0 <= i < j < res.len() ==> precedes(o, #[trigger] res[i], #[trigger] res[j])
    &&& forall|i: int|
        0 <= i < res.len() ==> m.contains_key(#[trigger] res[i].id) && m[res[i].id] == res[i] && selects(
            f,
            res[i],
        )
    &&& limit >= 0 ==> res.len() <= limit
    &&& forall|id: u128|
        #![trigger m[id]]
        m.contains_key(id) && selects(f, m[id]) && !res.contains(m[id]) ==> {
            &&& limit >= 0
            &&& res.len() == limit
            &&& forall|i: int| 0 <= i < res.len() ==> precedes(o, #[trigger] res[i], m[id])
        }
}

fn selects_exec(f: &RecordFilter, r: &WebhookOutboxRecord) -> (b: bool)
    ensures
        b == selects(*f, *r),
{
    match f {
        RecordFilter::PendingOf { tenant_id } => r.tenant_id == *tenant_id && r.status
            == WebhookOutboxStatus::Pending,
        RecordFilter::FailedOf { tenant_id } => r.tenant_id == *tenant_id && r.status
            == WebhookOutboxStatus::Failed,
        RecordFilter::FailedOlderThan { tenant_id, before } => r.tenant_id == *tenant_id && r.status
            == WebhookOutboxStatus::Failed && r.updated_at < *before,
        RecordFilter::ReplayedOf { tenant_id, since } => {
            if r.tenant_id != *tenant_id || r.replay_count <= 0 {
                return false;
            }
            match (r.replayed_at, since) {
                (None, _) => false,
                (Some(_), None) => true,
                (Some(t), Some(s)) => t >= *s,
            }
        },
    }
}

fn precedes_exec(o: ListOrder, a: &WebhookOutboxRecord, b: &WebhookOutboxRecord) -> (r: bool)
    ensures
        r == precedes(o, *a, *b),
{
    match o {
        ListOrder::ScheduledAsc => a.scheduled_at < b.scheduled_at || (a.scheduled_at == b.scheduled_at
            && a.id < b.id),
        ListOrder::UpdatedDesc => a.updated_at > b.updated_at || (a.updated_at == b.updated_at && a.id
            < b.id),
        ListOrder::ReplayedDesc => {
            let ka: i128 = match a.replayed_at {
                Some(t) => t as i128,
                None => (i64::MIN as i128) - 1,
            };
            let kb: i128 = match b.replayed_at {
                Some(t) => t as i128,
                None => (i64::MIN as i128) - 1,
            };
            ka > kb || (ka == kb && a.id < b.id)
        },
    }
}

// =============================================================================
// DLQ statistics
// =============================================================================

/// Error summary for DLQ stats.
#[derive(Debug)]
pub struct WebhookOutboxDlqErrorSummary {
    pub error_pattern: String,
    pub count: i64,
}

/// DLQ stats for a tenant.
#[derive(Debug)]
pub struct WebhookOutboxDlqStats {
    /// Number of failed records for this tenant.
    pub total_failed: i64,
    /// Age in seconds of the oldest failed record (based on updated_at).
    pub oldest_failed_age_seconds: Option<i64>,
    /// Number of records that have been replayed at least once.
    pub replayed_count: i64,
    /// Grouped error summary for failed records.
    pub by_error_summary: Vec<WebhookOutboxDlqErrorSummary>,
}

/// A failed record of the tenant.
pub open spec fn is_failed_of(r: WebhookOutboxRecord, tenant_id: u128) -> bool {
    r.tenant_id == tenant_id && r.status == WebhookOutboxStatus::Failed
}

/// A record of the tenant replayed at least once.
pub open spec fn is_replayed_of(r: WebhookOutboxRecord, tenant_id: u128) -> bool {
    r.tenant_id == tenant_id && r.replay_count > 0
}

/// Ids of the failed records of a tenant.
pub open spec fn failed_ids(m: Map<u128, WebhookOutboxRecord>, tenant_id: u128) -> Set<u128> {
    m.dom().filter(|id: u128| is_failed_of(m[id], tenant_id))
}

/// Ids of the replayed records of a tenant.
pub open spec fn replayed_ids(m: Map<u128, WebhookOutboxRecord>, tenant_id: u128) -> Set<u128> {
    m.dom().filter(|id: u128| is_replayed_of(m[id], tenant_id))
}

/// The error pattern under which a failed record is grouped.
pub open spec fn error_key(r: WebhookOutboxRecord) -> Seq<char> {
    match r.last_error {
        Some(e) => e@,
        None => "unknown"@,
    }
}

/// Ids of the failed records of a tenant grouped under `pattern`.
pub open spec fn failed_ids_with_error(
    m: Map<u128, WebhookOutboxRecord>,
    tenant_id: u128,
    pattern: Seq<char>,
) -> Set<u128> {
    m.dom().filter(|id: u128| is_failed_of(m[id], tenant_id) && error_key(m[id]) == pattern)
}

/// Whole seconds from `then` to `now`, zero when `then` is not earlier.
pub open spec fn age_seconds(now: i64, then: i64) -> int {
    if now <= then {
        0
    } else {
        (now - then) / 1_000_000_000
    }
}

/// Error groups come by descending count, then by pattern.
pub open spec fn summary_before(a: WebhookOutboxDlqErrorSummary, b: WebhookOutboxDlqErrorSummary) -> bool {
    a.count > b.count || (a.count == b.count && crate::text::text_lt(a.error_pattern@, b.error_pattern@))
}

/// Sum of the counts of a sequence of error groups.
pub open spec fn grouped_total(g: Seq<WebhookOutboxDlqErrorSummary>) -> int
    decreases g.len(),
{
    if g.len() == 0 {
        0
    } else {
        grouped_total(g.drop_last()) + g.last().count
    }
}

/// `s` holds exactly the DLQ statistics of `tenant_id` in `m` at `now`.
pub open spec fn is_dlq_stats(
    m: Map<u128, WebhookOutboxRecord>,
    tenant_id: u128,
    now: i64,
    s: WebhookOutboxDlqStats,
) -> bool {
    let g = s.by_error_summary@;
    &&& s.total_failed == failed_ids(m, tenant_id).len()
    &&& s.replayed_count == replayed_ids(m, tenant_id).len()
    &&& match s.oldest_failed_age_seconds {
        None => failed_ids(m, tenant_id).is_empty(),
        Some(age) => exists|id: u128|
            #![trigger m[id]]
            failed_ids(m, tenant_id).contains(id) && age == age_seconds(now, m[id].updated_at) && forall|
                other: u128,
            |
                failed_ids(m, tenant_id).contains(other) ==> m[id].updated_at <= #[trigger] m[other].updated_at,
    }
    &&& forall|i: int|
        0 <= i < g.len() ==> #[trigger] g[i].count == failed_ids_with_error(m, tenant_id, g[i].error_pattern@).len()
            && g[i].count > 0
    &&& forall|id: u128|
        failed_ids(m, tenant_id).contains(id) ==> exists|i: int|
            0 <= i < g.len() && #[trigger] g[i].error_pattern@ == error_key(m[id])
    &&& forall|i: int, j: int| 0 <= i < j < g.len() ==> summary_before(#[trigger] g[i], #[trigger] g[j])
}

// =============================================================================
// In-memory store
// =============================================================================

/// In-memory outbox store: a hash map from record id to record, whose
/// contents are the map `self@`.
pub struct InMemoryWebhookOutboxRepository {
    records: HashMap<u128, WebhookOutboxRecord>,
}

/// Each record is stored under its own id.
pub open spec fn keyed(m: Map<u128, WebhookOutboxRecord>) -> bool {
    forall|id: u128| m.contains_key(id) ==> #[trigger] m[id].id == id
}

/// `s` lists the records of `m`, each once.
pub open spec fn lists(s: Seq<WebhookOutboxRecord>, m: Map<u128, WebhookOutboxRecord>) -> bool {
    &&& s.len() == m.dom().len()
    &&& forall|i: int, j: int| 0 <= i < j < s.len() ==> s[i].id != s[j].id
    &&& forall|i: int| 0 <= i < s.len() ==> m.contains_key(#[trigger] s[i].id) && m[s[i].id] == s[i]
    &&& forall|id: u128| m.contains_key(id) ==> exists|i: int| 0 <= i < s.len() && #[trigger] s[i].id == id
}

/// A sequence holding the values of a keyed map, as many as it has keys,
/// lists the map's records each once.
proof fn lemma_lists(s: Seq<WebhookOutboxRecord>, m: Map<u128, WebhookOutboxRecord>)
    requires
        keyed(m),
        m.dom().finite(),
        s.to_set() == m.values(),
        s.len() == m.dom().len(),
    ensures
        lists(s, m),
{
    let f = |k: u128| m[k];
    assert(m.dom().map(f) =~= m.values());
    assert(vstd::relations::injective_on(f, m.dom())) by {
        assert forall|a: u128, b: u128|
            m.dom().contains(a) && m.dom().contains(b) && #[trigger] f(a) == #[trigger] f(b) implies a == b by {
            assert(m[a].id == a && m[b].id == b);
        }
    }
    vstd::set_lib::lemma_map_size(m.dom(), m.values(), f);
    s.lemma_no_dup_set_cardinality();
    assert forall|i: int| 0 <= i < s.len() implies m.contains_key(#[trigger] s[i].id) && m[s[i].id] == s[i] by {
        assert(s.to_set().contains(s[i]));
        let k = choose|k: u128| m.contains_key(k) && m[k] == s[i];
        assert(m[k].id == k);
    }
    assert forall|id: u128| m.contains_key(id) implies exists|i: int|
        0 <= i < s.len() && #[trigger] s[i].id == id by {
        assert(m.values().contains(m[id]));
        assert(s.to_set().contains(m[id]));
        let i = choose|i: int| 0 <= i < s.len() && s[i] == m[id];
        assert(s[i].id == id);
    }
    assert forall|i: int, j: int| 0 <= i < j < s.len() implies s[i].id != s[j].id by {
        if s[i].id == s[j].id {
            assert(m[s[i].id] == s[i]);
            assert(s[i] == s[j]);
        }
    }
}

/// Why a record cannot be reached for a tenant, if it cannot.
pub open spec fn access_error(
    m: Map<u128, WebhookOutboxRecord>,
    id: u128,
    tenant_id: u128,
) -> Option<OutboxStoreError> {
    if !m.contains_key(id) {
        Some(OutboxStoreError::NotFound { id })
    } else if m[id].tenant_id != tenant_id {
        Some(OutboxStoreError::NotFoundForTenant { id, tenant_id })
    } else {
        None
    }
}

/// The lock version of a record can be raised once more: every change of
/// a record raises it.
pub open spec fn lock_below_max(r: WebhookOutboxRecord) -> bool {
    r.lock_version < i32::MAX
}

/// A retry can be counted: the lock version and the attempt count can each
/// be raised once more.
pub open spec fn retry_below_max(r: WebhookOutboxRecord) -> bool {
    r.lock_version < i32::MAX && r.attempt_count < i32::MAX
}

/// A replay can be counted: the lock version and the replay count can each
/// be raised once more.
pub open spec fn replay_below_max(r: WebhookOutboxRecord) -> bool {
    r.lock_version < i32::MAX && r.replay_count < i32::MAX
}

/// Result of a store operation, with the store contents after it.
pub type StepResult = (Result<WebhookOutboxRecord, OutboxStoreError>, Map<u128, WebhookOutboxRecord>);

/// Storing a new record.
pub open spec fn create_step(m: Map<u128, WebhookOutboxRecord>, rec: WebhookOutboxRecord) -> StepResult {
    if m.contains_key(rec.id) {
        (Err(OutboxStoreError::AlreadyExists { id: rec.id }), m)
    } else {
        (Ok(rec), m.insert(rec.id, rec))
    }
}

/// Reading a record of a tenant.
pub open spec fn get_step(m: Map<u128, WebhookOutboxRecord>, id: u128, tenant_id: u128) -> Result<
    WebhookOutboxRecord,
    OutboxStoreError,
> {
    match access_error(m, id, tenant_id) {
        Some(e) => Err(e),
        None => Ok(m[id]),
    }
}

/// Claiming a pending record for worker `locked_by` at `now`.
pub open spec fn claim_step(
    m: Map<u128, WebhookOutboxRecord>,
    id: u128,
    tenant_id: u128,
    locked_by: String,
    now: i64,
) -> StepResult {
    match access_error(m, id, tenant_id) {
        Some(e) => (Err(e), m),
        None => if m[id].status != WebhookOutboxStatus::Pending {
            (Err(OutboxStoreError::NotPending { id, status: m[id].status }), m)
        } else {
            let c = claimed_record(m[id], locked_by, now);
            (Ok(c), m.insert(id, c))
        },
    }
}

/// Marking a record delivered at `now`.
pub open spec fn mark_delivered_step(m: Map<u128, WebhookOutboxRecord>, id: u128, tenant_id: u128, now: i64) -> StepResult {
    match access_error(m, id, tenant_id) {
        Some(e) => (Err(e), m),
        None => {
            let c = delivered_record(m[id], now);
            (Ok(c), m.insert(id, c))
        },
    }
}

/// Marking a record failed with `last_error` at `now`.
pub open spec fn mark_failed_step(
    m: Map<u128, WebhookOutboxRecord>,
    id: u128,
    tenant_id: u128,
    last_error: String,
    now: i64,
) -> StepResult {
    match access_error(m, id, tenant_id) {
        Some(e) => (Err(e), m),
        None => {
            let c = failed_record(m[id], last_error, now);
            (Ok(c), m.insert(id, c))
        },
    }
}

/// Rescheduling a record for a retry at `scheduled_at`, decided at `now`.
pub open spec fn reschedule_step(
    m: Map<u128, WebhookOutboxRecord>,
    id: u128,
    tenant_id: u128,
    last_error: String,
    scheduled_at: i64,
    now: i64,
) -> StepResult {
    match access_error(m, id, tenant_id) {
        Some(e) => (Err(e), m),
        None => {
            let c = rescheduled_record(m[id], last_error, scheduled_at, now);
            (Ok(c), m.insert(id, c))
        },
    }
}

/// Replaying a failed record at `now`.
pub open spec fn replay_step(
    m: Map<u128, WebhookOutboxRecord>,
    id: u128,
    tenant_id: u128,
    replayed_by: Option<String>,
    now: i64,
) -> StepResult {
    match access_error(m, id, tenant_id) {
        Some(e) => (Err(e), m),
        None => if m[id].status != WebhookOutboxStatus::Failed {
            (Err(OutboxStoreError::NotFailed { id, status: m[id].status }), m)
        } else {
            let c = replayed_record(m[id], replayed_by, now);
            (Ok(c), m.insert(id, c))
        },
    }
}

impl View for InMemoryWebhookOutboxRepository {
    type V = Map<u128, WebhookOutboxRecord>;

    closed spec fn view(&self) -> Map<u128, WebhookOutboxRecord> {
        self.records@
    }
}

impl Default for InMemoryWebhookOutboxRepository {
    /// An empty store.
    fn default() -> (r: Self)
        ensures
            r.wf(),
            r@ == Map::<u128, WebhookOutboxRecord>::empty(),
    {
        Self::new()
    }
}

impl InMemoryWebhookOutboxRepository {
    /// Internal consistency: each record is stored under its own id.
    pub closed spec fn wf(&self) -> bool {
        keyed(self.records@)
    }

    /// A well-formed store holds each record under its own id, in finitely
    /// many entries.
    pub proof fn lemma_keyed(&self)
        requires
            self.wf(),
        ensures
            keyed(self@),
            self@.dom().finite(),
    {
    }

    /// The records of the store, each once, in no particular order.
    fn snapshot(&self) -> (v: Vec<WebhookOutboxRecord>)
        requires
            self.wf(),
        ensures
            lists(v@, self@),
    {
        let mut v: Vec<WebhookOutboxRecord> = Vec::new();
        let vals = self.records.values();
        let ghost all = IteratorSpec::remaining(&vals);
        for r in it: vals
            invariant
                v@ == it.seq().take(it.index() as int).unref(),
                it.seq() == all,
        {
            v.push(r.clone());
        }
        assert(v@ =~= all.unref());
        proof { lemma_lists(v@, self@); }
        v
    }

    /// An empty store.
    pub fn new() -> (r: Self)
        ensures
            r.wf(),
            r@ == Map::<u128, WebhookOutboxRecord>::empty(),
    {
        InMemoryWebhookOutboxRepository { records: HashMap::new() }
    }

    /// The record stored under `id`, if any.
    fn lookup(&self, id: u128) -> (r: Option<WebhookOutboxRecord>)
        requires
            self.wf(),
        ensures
            r == (if self@.contains_key(id) {
                Some(self@[id])
            } else {
                None
            }),
            r matches Some(rec) ==> rec.id == id,
    {
        match self.records.get(&id) {
            Some(rec) => Some(rec.clone()),
            None => None,
        }
    }

    /// Number of records held.
    pub fn len(&self) -> (n: usize)
        requires
            self.wf(),
        ensures
            n == self@.dom().len(),
            self@.dom().finite(),
    {
        self.records.len()
    }

    /// Stores a new record; refused if its id is already stored.
    pub fn create(&mut self, record: WebhookOutboxRecord) -> (r: Result<WebhookOutboxRecord, OutboxStoreError>)
        requires
            old(self).wf(),
        ensures
            final(self).wf(),
            (r, final(self)@) == create_step(old(self)@, record),
    {
        if self.records.contains_key(&record.id) {
            Err(OutboxStoreError::AlreadyExists { id: record.id })
        } else {
            let stored = record.clone();
            self.records.insert(record.id, stored);
            Ok(record)
        }
    }

    /// Reads a record of a tenant.
    pub fn get(&self, id: u128, tenant_id: u128) -> (r: Result<WebhookOutboxRecord, OutboxStoreError>)
        requires
            self.wf(),
        ensures
            r == get_step(self@, id, tenant_id),
    {
        match self.lookup(id) {
            None => Err(OutboxStoreError::NotFound { id }),
            Some(rec) => {
                if rec.tenant_id != tenant_id {
                    Err(OutboxStoreError::NotFoundForTenant { id, tenant_id })
                } else {
                    Ok(rec)
                }
            },
        }
    }

    /// Stores `rec` in place of the record with its id.
    fn replace(&mut self, rec: WebhookOutboxRecord)
        requires
            old(self).wf(),
        ensures
            final(self).wf(),
            final(self)@ == old(self)@.insert(rec.id, rec),
    {
        self.records.insert(rec.id, rec);
    }

    /// Claims a pending record for worker `locked_by` at `now`.
    pub fn claim_at(&mut self, id: u128, tenant_id: u128, locked_by: String, now: i64) -> (r: Result<WebhookOutboxRecord, OutboxStoreError>)
        requires
            old(self).wf(),
            access_error(old(self)@, id, tenant_id) is None && old(self)@[id].status == WebhookOutboxStatus::Pending
                ==> lock_below_max(old(self)@[id]),
        ensures
            final(self).wf(),
            (r, final(self)@) == claim_step(old(self)@, id, tenant_id, locked_by, now),
            r matches Ok(rec) ==> rec.updated_at == now && final(self)@.contains_key(id) && final(self)@[id]
                == rec && rec.id == id,
    {
        match self.lookup(id) {
            None => Err(OutboxStoreError::NotFound { id }),
            Some(rec) => {
                if rec.tenant_id != tenant_id {
                    return Err(OutboxStoreError::NotFoundForTenant { id, tenant_id });
                }
                if rec.status != WebhookOutboxStatus::Pending {
                    return Err(OutboxStoreError::NotPending { id, status: rec.status });
                }
                let updated = WebhookOutboxRecord {
                    status: WebhookOutboxStatus::Claimed,
                    locked_at: Some(now),
                    locked_by: Some(locked_by),
                    lock_version: rec.lock_version + 1,
                    updated_at: now,
                    ..rec
                };
                let out = updated.clone();
                self.replace(updated);
                Ok(out)
            },
        }
    }

    /// Claims a pending record for worker `locked_by`, now.
    pub fn claim(&mut self, id: u128, tenant_id: u128, locked_by: String) -> (r: Result<WebhookOutboxRecord, OutboxStoreError>)
        requires
            old(self).wf(),
            access_error(old(self)@, id, tenant_id) is None && old(self)@[id].status == WebhookOutboxStatus::Pending
                ==> lock_below_max(old(self)@[id]),
        ensures
            final(self).wf(),
            exists|now: i64| #[trigger] claim_step(old(self)@, id, tenant_id, locked_by, now) == (r, final(self)@),
    {
        let now = current_time_nanos();
        self.claim_at(id, tenant_id, locked_by, now)
    }

    /// Marks a record delivered at `now`, whatever its status.
    pub fn mark_delivered_at(&mut self, id: u128, tenant_id: u128, now: i64) -> (r: Result<WebhookOutboxRecord, OutboxStoreError>)
        requires
            old(self).wf(),
            access_error(old(self)@, id, tenant_id) is None ==> lock_below_max(old(self)@[id]),
        ensures
            final(self).wf(),
            (r, final(self)@) == mark_delivered_step(old(self)@, id, tenant_id, now),
            r matches Ok(rec) ==> rec.updated_at == now && final(self)@.contains_key(id) && final(self)@[id]
                == rec && rec.id == id,
    {
        match self.lookup(id) {
            None => Err(OutboxStoreError::NotFound { id }),
            Some(rec) => {
                if rec.tenant_id != tenant_id {
                    return Err(OutboxStoreError::NotFoundForTenant { id, tenant_id });
                }
                let updated = WebhookOutboxRecord {
                    status: WebhookOutboxStatus::Delivered,
                    delivered_at: Some(now),
                    lock_version: rec.lock_version + 1,
                    updated_at: now,
                    ..rec
                };
                let out = updated.clone();
                self.replace(updated);
                Ok(out)
            },
        }
    }

    /// Marks a record delivered, now.
    pub fn mark_delivered(&mut self, id: u128, tenant_id: u128) -> (r: Result<WebhookOutboxRecord, OutboxStoreError>)
        requires
            old(self).wf(),
            access_error(old(self)@, id, tenant_id) is None ==> lock_below_max(old(self)@[id]),
        ensures
            final(self).wf(),
            exists|now: i64| #[trigger] mark_delivered_step(old(self)@, id, tenant_id, now) == (r, final(self)@),
    {
        let now = current_time_nanos();
        self.mark_delivered_at(id, tenant_id, now)
    }

    /// Marks a record failed with `last_error` at `now`, whatever its status.
    pub fn mark_failed_at(&mut self, id: u128, tenant_id: u128, last_error: String, now: i64) -> (r: Result<WebhookOutboxRecord, OutboxStoreError>)
        requires
            old(self).wf(),
            access_error(old(self)@, id, tenant_id) is None ==> lock_below_max(old(self)@[id]),
        ensures
            final(self).wf(),
            (r, final(self)@) == mark_failed_step(old(self)@, id, tenant_id, last_error, now),
            r matches Ok(rec) ==> rec.updated_at == now && final(self)@.contains_key(id) && final(self)@[id]
                == rec && rec.id == id,
    {
        match self.lookup(id) {
            None => Err(OutboxStoreError::NotFound { id }),
            Some(rec) => {
                if rec.tenant_id != tenant_id {
                    return Err(OutboxStoreError::NotFoundForTenant { id, tenant_id });
                }
                let updated = WebhookOutboxRecord {
                    status: WebhookOutboxStatus::Failed,
                    last_error: Some(last_error),
                    lock_version: rec.lock_version + 1,
                    updated_at: now,
                    ..rec
                };
                let out = updated.clone();
                self.replace(updated);
                Ok(out)
            },
        }
    }

    /// Marks a record failed with `last_error`, now.
    pub fn mark_failed(&mut self, id: u128, tenant_id: u128, last_error: String) -> (r: Result<WebhookOutboxRecord, OutboxStoreError>)
        requires
            old(self).wf(),
            access_error(old(self)@, id, tenant_id) is None ==> lock_below_max(old(self)@[id]),
        ensures
            final(self).wf(),
            exists|now: i64| #[trigger] mark_failed_step(old(self)@, id, tenant_id, last_error, now) == (r, final(self)@),
    {
        let now = current_time_nanos();
        self.mark_failed_at(id, tenant_id, last_error, now)
    }

    /// Puts a record back to pending for a retry at `scheduled_at`, at `now`.
    pub fn reschedule_retry_at(
        &mut self,
        id: u128,
        tenant_id: u128,
        last_error: String,
        scheduled_at: i64,
        now: i64,
    ) -> (r: Result<WebhookOutboxRecord, OutboxStoreError>)
        requires
            old(self).wf(),
            access_error(old(self)@, id, tenant_id) is None ==> retry_below_max(old(self)@[id]),
        ensures
            final(self).wf(),
            (r, final(self)@) == reschedule_step(old(self)@, id, tenant_id, last_error, scheduled_at, now),
            r matches Ok(rec) ==> rec.updated_at == now && final(self)@.contains_key(id) && final(self)@[id]
                == rec && rec.id == id,
    {
        match self.lookup(id) {
            None => Err(OutboxStoreError::NotFound { id }),
            Some(rec) => {
                if rec.tenant_id != tenant_id {
                    return Err(OutboxStoreError::NotFoundForTenant { id, tenant_id });
                }
                let updated = WebhookOutboxRecord {
                    status: WebhookOutboxStatus::Pending,
                    attempt_count: rec.attempt_count + 1,
                    scheduled_at,
                    last_error: Some(last_error),
                    locked_at: None,
                    locked_by: None,
                    lock_version: rec.lock_version + 1,
                    updated_at: now,
                    ..rec
                };
                let out = updated.clone();
                self.replace(updated);
                Ok(out)
            },
        }
    }

    /// Puts a record back to pending for a retry at `scheduled_at`.
    pub fn reschedule_retry(
        &mut self,
        id: u128,
        tenant_id: u128,
        last_error: String,
        scheduled_at: i64,
    ) -> (r: Result<WebhookOutboxRecord, OutboxStoreError>)
        requires
            old(self).wf(),
            access_error(old(self)@, id, tenant_id) is None ==> retry_below_max(old(self)@[id]),
        ensures
            final(self).wf(),
            exists|now: i64| #[trigger] reschedule_step(old(self)@, id, tenant_id, last_error, scheduled_at, now) == (r, final(self)@),
    {
        let now = current_time_nanos();
        self.reschedule_retry_at(id, tenant_id, last_error, scheduled_at, now)
    }

    /// Replays a failed record at `now`: back to pending with a fresh attempt
    /// budget, replay metadata recorded. Only failed records are replayed.
    pub fn replay_failed_at(&mut self, id: u128, tenant_id: u128, replayed_by: Option<String>, now: i64) -> (r: Result<WebhookOutboxRecord, OutboxStoreError>)
        requires
            old(self).wf(),
            access_error(old(self)@, id, tenant_id) is None && old(self)@[id].status == WebhookOutboxStatus::Failed
                ==> replay_below_max(old(self)@[id]),
        ensures
            final(self).wf(),
            (r, final(self)@) == replay_step(old(self)@, id, tenant_id, replayed_by, now),
            r matches Ok(rec) ==> rec.updated_at == now && final(self)@.contains_key(id) && final(self)@[id]
                == rec && rec.id == id,
    {
        match self.lookup(id) {
            None => Err(OutboxStoreError::NotFound { id }),
            Some(rec) => {
                if rec.tenant_id != tenant_id {
                    return Err(OutboxStoreError::NotFoundForTenant { id, tenant_id });
                }
                if rec.status != WebhookOutboxStatus::Failed {
                    return Err(OutboxStoreError::NotFailed { id, status: rec.status });
                }
                let updated = WebhookOutboxRecord {
                    status: WebhookOutboxStatus::Pending,
                    attempt_count: 0,
                    scheduled_at: now,
                    last_error: None,
                    locked_at: None,
                    locked_by: None,
                    replay_count: rec.replay_count + 1,
                    replayed_at: Some(now),
                    replayed_by,
                    lock_version: rec.lock_version + 1,
                    updated_at: now,
                    ..rec
                };
                let out = updated.clone();
                self.replace(updated);
                Ok(out)
            },
        }
    }

    /// Replays a failed record, now.
    pub fn replay_failed(&mut self, id: u128, tenant_id: u128, replayed_by: Option<String>) -> (r: Result<WebhookOutboxRecord, OutboxStoreError>)
        requires
            old(self).wf(),
            access_error(old(self)@, id, tenant_id) is None && old(self)@[id].status == WebhookOutboxStatus::Failed
                ==> replay_below_max(old(self)@[id]),
        ensures
            final(self).wf(),
            exists|now: i64| #[trigger] replay_step(old(self)@, id, tenant_id, replayed_by, now) == (r, final(self)@),
    {
        let now = current_time_nanos();
        self.replay_failed_at(id, tenant_id, replayed_by, now)
    }

    /// The records that `f` selects, in order `o`, the first `limit` of
    /// them when `limit` is not negative.
    pub fn select(&self, f: RecordFilter, o: ListOrder, limit: i64) -> (res: Vec<WebhookOutboxRecord>)
        requires
            self.wf(),
        ensures
            is_ordered_selection(self@, f, o, limit, res@),
    {
        let records = self.snapshot();
        let n = records.len();
        let mut sorted: Vec<WebhookOutboxRecord> = Vec::new();
        let ghost mut origin: Seq<int> = Seq::empty();
        let mut i: usize = 0;
        while i < n
            invariant
                n == records@.len(),
                i <= n,
                self.wf(),
                lists(records@, self@),
                origin.len() == sorted@.len(),
                forall|a: int, b: int|
                    0 <= a < b < sorted@.len() ==> precedes(o, #[trigger] sorted@[a], #[trigger] sorted@[b]),
                forall|k: int|
                    0 <= k < sorted@.len() ==> 0 <= #[trigger] origin[k] < i && records@[origin[k]]
                        == sorted@[k] && selects(f, sorted@[k]),
                forall|j: int|
                    0 <= j < i && selects(f, #[trigger] records@[j]) ==> sorted@.contains(records@[j]),
            decreases n - i,
        {
            let rec = &records[i];
            if selects_exec(&f, rec) {
                let mut p: usize = 0;
                while p < sorted.len() && precedes_exec(o, &sorted[p], rec)
                    invariant
                        p <= sorted@.len(),
                        forall|k: int| 0 <= k < p ==> precedes(o, #[trigger] sorted@[k], *rec),
                    decreases sorted@.len() - p,
                {
                    p = p + 1;
                }
                let ghost before = sorted@;
                let ghost before_origin = origin;
                proof {
                    assert forall|k: int| p <= k < before.len() implies precedes(o, *rec, #[trigger] before[k]) by {
                        let jp = before_origin[p as int];
                        assert(records@[jp] == before[p as int]);
                        assert(records@[jp].id != records@[i as int].id);
                        if k > p {
                            assert(precedes(o, before[p as int], before[k]));
                        }
                    }
                }
                sorted.insert(p, rec.clone());
                proof {
                    origin = before_origin.insert(p as int, i as int);
                    assert forall|a: int, b: int|
                        0 <= a < b < sorted@.len() implies precedes(o, #[trigger] sorted@[a], #[trigger] sorted@[b]) by {
                        if b < p {
                            assert(sorted@[a] == before[a] && sorted@[b] == before[b]);
                        } else if b == p {
                            assert(sorted@[a] == before[a]);
                        } else if a < p {
                            assert(sorted@[a] == before[a] && sorted@[b] == before[b - 1]);
                            assert(precedes(o, before[a], *rec));
                        } else if a == p {
                            assert(sorted@[b] == before[b - 1]);
                        } else {
                            assert(sorted@[a] == before[a - 1] && sorted@[b] == before[b - 1]);
                        }
                    }
                    assert forall|k: int| 0 <= k < sorted@.len() implies 0 <= #[trigger] origin[k] < i + 1
                        && records@[origin[k]] == sorted@[k] && selects(f, sorted@[k]) by {
                        if k < p {
                            assert(sorted@[k] == before[k] && origin[k] == before_origin[k]);
                        } else if k == p {
                        } else {
                            assert(sorted@[k] == before[k - 1] && origin[k] == before_origin[k - 1]);
                        }
                    }
                    assert forall|j: int|
                        0 <= j < i + 1 && selects(f, #[trigger] records@[j]) implies sorted@.contains(records@[j]) by {
                        if j < i {
                            let k = choose|k: int| 0 <= k < before.len() && before[k] == records@[j];
                            if k < p {
                                assert(sorted@[k] == before[k]);
                            } else {
                                assert(sorted@[k + 1] == before[k]);
                            }
                        } else {
                            assert(sorted@[p as int] == records@[j]);
                        }
                    }
                }
            }
            i = i + 1;
        }
        let ghost full = sorted@;
        let ghost full_origin = origin;
        if limit >= 0 && (limit as u64) < (sorted.len() as u64) {
            sorted.truncate(limit as usize);
        }
        proof {
            assert forall|id: u128|
                #![trigger self@[id]]
                self@.contains_key(id) && selects(f, self@[id]) && !sorted@.contains(self@[id]) implies {
                    &&& limit >= 0
                    &&& sorted@.len() == limit
                    &&& forall|i: int| 0 <= i < sorted@.len() ==> precedes(o, #[trigger] sorted@[i], self@[id])
                } by {
                let j = choose|j: int| 0 <= j < records@.len() && #[trigger] records@[j].id == id;
                assert(records@[j] == self@[id]);
                let q = choose|q: int| 0 <= q < full.len() && full[q] == records@[j];
                if q < sorted@.len() {
                    assert(sorted@[q] == full[q]);
                }
                assert forall|i: int| 0 <= i < sorted@.len() implies precedes(o, #[trigger] sorted@[i], self@[id]) by {
                    assert(sorted@[i] == full[i]);
                }
            }
            assert forall|i: int| 0 <= i < sorted@.len() implies self@.contains_key(#[trigger] sorted@[i].id)
                && self@[sorted@[i].id] == sorted@[i] && selects(f, sorted@[i]) by {
                assert(sorted@[i] == full[i]);
                assert(records@[full_origin[i]] == full[i]);
            }
        }
        sorted
    }

    /// Pending records of a tenant, earliest scheduled first (then by id),
    /// at most `limit` of them when `limit` is not negative.
    pub fn list_pending(&self, tenant_id: u128, limit: i64) -> (res: Vec<WebhookOutboxRecord>)
        requires
            self.wf(),
        ensures
            is_ordered_selection(self@, RecordFilter::PendingOf { tenant_id }, ListOrder::ScheduledAsc, limit, res@),
    {
        self.select(RecordFilter::PendingOf { tenant_id }, ListOrder::ScheduledAsc, limit)
    }

    /// Failed records of a tenant, most recently updated first (then by id),
    /// at most `limit` of them when `limit` is not negative.
    pub fn list_failed(&self, tenant_id: u128, limit: i64) -> (res: Vec<WebhookOutboxRecord>)
        requires
            self.wf(),
        ensures
            is_ordered_selection(self@, RecordFilter::FailedOf { tenant_id }, ListOrder::UpdatedDesc, limit, res@),
    {
        self.select(RecordFilter::FailedOf { tenant_id }, ListOrder::UpdatedDesc, limit)
    }

    /// Failed records of a tenant last updated before `before`, most
    /// recently updated first (then by id), at most `limit` of them when
    /// `limit` is not negative.
    pub fn list_failed_older_than(&self, tenant_id: u128, before: i64, limit: i64) -> (res: Vec<WebhookOutboxRecord>)
        requires
            self.wf(),
        ensures
            is_ordered_selection(
                self@,
                RecordFilter::FailedOlderThan { tenant_id, before },
                ListOrder::UpdatedDesc,
                limit,
                res@,
            ),
    {
        self.select(RecordFilter::FailedOlderThan { tenant_id, before }, ListOrder::UpdatedDesc, limit)
    }

    /// Replayed records of a tenant (optionally replayed at or after
    /// `since`), most recently replayed first (then by id), at most `limit`
    /// of them when `limit` is not negative.
    pub fn list_replayed(&self, tenant_id: u128, since: Option<i64>, limit: i64) -> (res: Vec<WebhookOutboxRecord>)
        requires
            self.wf(),
        ensures
            is_ordered_selection(
                self@,
                RecordFilter::ReplayedOf { tenant_id, since },
                ListOrder::ReplayedDesc,
                limit,
                res@,
            ),
    {
        self.select(RecordFilter::ReplayedOf { tenant_id, since }, ListOrder::ReplayedDesc, limit)
    }

    /// Tenants that have at least one pending record, in ascending order,
    /// each once.
    pub fn list_distinct_pending_tenants(&self) -> (res: Vec<u128>)
        requires
            self.wf(),
        ensures
            forall|a: int, b: int| 0 <= a < b < res@.len() ==> res@[a] < res@[b],
            forall|t: u128|
                res@.contains(t) <==> exists|id: u128|
                    #![trigger self@[id]]
                    self@.contains_key(id) && self@[id].status == WebhookOutboxStatus::Pending
                        && self@[id].tenant_id == t,
    {
        let records = self.snapshot();
        let n = records.len();
        let mut tenants: Vec<u128> = Vec::new();
        let ghost mut wit: Seq<int> = Seq::empty();
        let mut i: usize = 0;
        while i < n
            invariant
                n == records@.len(),
                i <= n,
                self.wf(),
                lists(records@, self@),
                forall|a: int, b: int| 0 <= a < b < tenants@.len() ==> tenants@[a] < tenants@[b],
                wit.len() == tenants@.len(),
                forall|k: int|
                    0 <= k < tenants@.len() ==> 0 <= #[trigger] wit[k] < n && records@[wit[k]].status
                        == WebhookOutboxStatus::Pending && records@[wit[k]].tenant_id == tenants@[k],
                forall|j: int|
                    0 <= j < i && (#[trigger] records@[j]).status == WebhookOutboxStatus::Pending
                        ==> tenants@.contains(records@[j].tenant_id),
            decreases n - i,
        {
            let rec = &records[i];
            if rec.status == WebhookOutboxStatus::Pending {
                let t = rec.tenant_id;
                let mut p: usize = 0;
                while p < tenants.len() && tenants[p] < t
                    invariant
                        p <= tenants@.len(),
                        forall|k: int| 0 <= k < p ==> tenants@[k] < t,
                    decreases tenants@.len() - p,
                {
                    p = p + 1;
                }
                if p < tenants.len() && tenants[p] == t {
                    assert(tenants@[p as int] == t);
                } else {
                    let ghost before = tenants@;
                    tenants.insert(p, t);
                    proof {
                        assert forall|a: int, b: int| 0 <= a < b < tenants@.len() implies tenants@[a] < tenants@[b] by {
                            if b < p {
                            } else if b == p {
                            } else if a < p {
                                assert(tenants@[b] == before[b - 1]);
                                assert(before[p as int] > t);
                                if b - 1 > p {
                                    assert(before[p as int] < before[b - 1]);
                                }
                            } else if a == p {
                                assert(tenants@[b] == before[b - 1]);
                                if b - 1 > p {
                                    assert(before[p as int] < before[b - 1]);
                                }
                            } else {
                                assert(tenants@[a] == before[a - 1] && tenants@[b] == before[b - 1]);
                            }
                        }
                        let before_wit = wit;
                        wit = before_wit.insert(p as int, i as int);
                        assert forall|k: int| 0 <= k < tenants@.len() implies 0 <= #[trigger] wit[k] < n
                            && records@[wit[k]].status == WebhookOutboxStatus::Pending
                            && records@[wit[k]].tenant_id == tenants@[k] by {
                            if k < p {
                                assert(tenants@[k] == before[k] && wit[k] == before_wit[k]);
                            } else if k == p {
                            } else {
                                assert(tenants@[k] == before[k - 1] && wit[k] == before_wit[k - 1]);
                            }
                        }
                        assert forall|j: int|
                            0 <= j < i && (#[trigger] records@[j]).status == WebhookOutboxStatus::Pending
                                implies tenants@.contains(records@[j].tenant_id) by {
                            let k = choose|k: int| 0 <= k < before.len() && before[k] == records@[j].tenant_id;
                            if k < p {
                                assert(tenants@[k] == before[k]);
                            } else {
                                assert(tenants@[k + 1] == before[k]);
                            }
                        }
                        assert(tenants@[p as int] == t);
                    }
                }
            }
            i = i + 1;
        }
        proof {
            assert forall|t: u128|
                tenants@.contains(t) <==> exists|id: u128|
                    #![trigger self@[id]]
                    self@.contains_key(id) && self@[id].status == WebhookOutboxStatus::Pending
                        && self@[id].tenant_id == t by {
                if tenants@.contains(t) {
                    let k = choose|k: int| 0 <= k < tenants@.len() && tenants@[k] == t;
                    let j = wit[k];
                    let id = records@[j].id;
                    assert(self@[id] == records@[j]);
                }
                if exists|id: u128|
                    #![trigger self@[id]]
                    self@.contains_key(id) && self@[id].status == WebhookOutboxStatus::Pending
                        && self@[id].tenant_id == t {
                    let id = choose|id: u128|
                        #![trigger self@[id]]
                        self@.contains_key(id) && self@[id].status == WebhookOutboxStatus::Pending
                            && self@[id].tenant_id == t;
                    let j = choose|j: int| 0 <= j < records@.len() && #[trigger] records@[j].id == id;
                    assert(records@[j] == self@[id]);
                }
            }
        }
        tenants
    }

    /// The error groups of the failed records of a tenant, unordered.
#[verifier::spinoff_prover]
        fn error_groups(&self, tenant_id: u128) -> (r: (Vec<WebhookOutboxDlqErrorSummary>, Ghost<Seq<Set<u128>>>))
        requires
            self.wf(),
            self@.dom().len() <= i64::MAX,
        ensures
            r.1@.len() == r.0@.len(),
            forall|g: int|
                #![trigger r.0@[g]]
                0 <= g < r.0@.len() ==> r.1@[g] == failed_ids_with_error(
                    self@,
                    tenant_id,
                    r.0@[g].error_pattern@,
                ) && r.0@[g].count == r.1@[g].len() && r.0@[g].count > 0,
            forall|g1: int, g2: int|
                0 <= g1 < g2 < r.0@.len() ==> (#[trigger] r.0@[g1]).error_pattern@ != (
                #[trigger] r.0@[g2]).error_pattern@,
            forall|id: u128|
                failed_ids(self@, tenant_id).contains(id) ==> exists|g: int|
                    0 <= g < r.0@.len() && #[trigger] r.0@[g].error_pattern@ == error_key(self@[id]),
    {
        let records = self.snapshot();
        let n = records.len();
        let mut groups: Vec<WebhookOutboxDlqErrorSummary> = Vec::new();
        let ghost mut sets: Seq<Set<u128>> = Seq::empty();
        let ghost mut group_of: Map<u128, int> = Map::empty();
        let mut i: usize = 0;
        while i < n
            invariant
                n == records@.len(),
                i <= n,
                self.wf(),
                lists(records@, self@),
                n <= i64::MAX,
                sets.len() == groups@.len(),
                forall|g: int|
                    0 <= g < groups@.len() ==> {
                        &&& (#[trigger] sets[g]).finite()
                        &&& groups@[g].count == sets[g].len()
                        &&& groups@[g].count > 0
                        &&& groups@[g].count <= i
                        &&& forall|id: u128|
                            #![trigger sets[g].contains(id)]
                            sets[g].contains(id) ==> {
                                &&& self@.contains_key(id)
                                &&& is_failed_of(self@[id], tenant_id)
                                &&& error_key(self@[id]) == groups@[g].error_pattern@
                                &&& forall|j: int| i <= j < n ==> (#[trigger] records@[j]).id != id
                            }
                    },
                forall|g1: int, g2: int|
                    0 <= g1 < g2 < groups@.len() ==> (#[trigger] groups@[g1]).error_pattern@ != (
                    #[trigger] groups@[g2]).error_pattern@,
                forall|j: int|
                    0 <= j < i && is_failed_of(#[trigger] records@[j], tenant_id) ==> {
                        &&& group_of.contains_key(records@[j].id)
                        &&& 0 <= group_of[records@[j].id] < groups@.len()
                        &&& sets[group_of[records@[j].id]].contains(records@[j].id)
                    },
            decreases n - i,
        {
            let rec = &records[i];
            if rec.tenant_id == tenant_id && rec.status == WebhookOutboxStatus::Failed {
                let key = match &rec.last_error {
                    Some(e) => e.clone(),
                    None => String::from_str("unknown"),
                };
                assert(key@ == error_key(records@[i as int]));
                let mut g: usize = 0;
                #[verifier::loop_isolation(false)]
                while g < groups.len() && groups[g].error_pattern != key
                    invariant
                        g <= groups@.len(),
                        forall|h: int| 0 <= h < g ==> (#[trigger] groups@[h]).error_pattern@ != key@,
                    decreases groups@.len() - g,
                {
                    g = g + 1;
                }
                let ghost id = records@[i as int].id;
                let ghost old_sets = sets;
                let ghost old_groups = groups@;
                assert(self@[id] == records@[i as int]);
                assert forall|j: int| i + 1 <= j < n implies (#[trigger] records@[j]).id != id by {
                    assert(records@[i as int].id != records@[j].id);
                }
                if g < groups.len() {
                    assert(sets[g as int].finite());
                    let count = groups[g].count;
                    let pattern = groups[g].error_pattern.clone();
                    groups.set(g, WebhookOutboxDlqErrorSummary { error_pattern: pattern, count: count + 1 });
                    proof {
                        assert(!old_sets[g as int].contains(id));
                        sets = old_sets.update(g as int, old_sets[g as int].insert(id));
                        group_of = group_of.insert(id, g as int);
                    }
                } else {
                    groups.push(WebhookOutboxDlqErrorSummary { error_pattern: key, count: 1 });
                    proof {
                        sets = old_sets.push(Set::empty().insert(id));
                        group_of = group_of.insert(id, g as int);
                        assert(sets[g as int].len() == 1);
                    }
                }
                proof {
                    assert forall|g2: int| 0 <= g2 < groups@.len() implies {
                        &&& (#[trigger] sets[g2]).finite()
                        &&& groups@[g2].count == sets[g2].len()
                        &&& groups@[g2].count > 0
                        &&& groups@[g2].count <= i + 1
                        &&& forall|x: u128|
                            #![trigger sets[g2].contains(x)]
                            sets[g2].contains(x) ==> {
                                &&& self@.contains_key(x)
                                &&& is_failed_of(self@[x], tenant_id)
                                &&& error_key(self@[x]) == groups@[g2].error_pattern@
                                &&& forall|j: int| i + 1 <= j < n ==> (#[trigger] records@[j]).id != x
                            }
                    } by {
                        if g2 != g {
                            assert(sets[g2] == old_sets[g2]);
                            assert(groups@[g2] == old_groups[g2]);
                        }
                    }
                    assert forall|j: int|
                        0 <= j < i + 1 && is_failed_of(#[trigger] records@[j], tenant_id) implies {
                            &&& group_of.contains_key(records@[j].id)
                            &&& 0 <= group_of[records@[j].id] < groups@.len()
                            &&& sets[group_of[records@[j].id]].contains(records@[j].id)
                        } by {
                        if j < i {
                            assert(records@[j].id != id);
                        }
                    }
                }
            } else {
                assert forall|g2: int| 0 <= g2 < groups@.len() implies {
                    &&& (#[trigger] sets[g2]).finite()
                    &&& groups@[g2].count == sets[g2].len()
                    &&& groups@[g2].count > 0
                    &&& groups@[g2].count <= i + 1
                    &&& forall|x: u128|
                        #![trigger sets[g2].contains(x)]
                        sets[g2].contains(x) ==> {
                            &&& self@.contains_key(x)
                            &&& is_failed_of(self@[x], tenant_id)
                            &&& error_key(self@[x]) == groups@[g2].error_pattern@
                            &&& forall|j: int| i + 1 <= j < n ==> (#[trigger] records@[j]).id != x
                        }
                } by {
                    assert(sets[g2].finite());
                }
            }
            i = i + 1;
        }
        proof {
            assert forall|g: int|
                0 <= g < groups@.len() implies (#[trigger] sets[g]) == failed_ids_with_error(
                    self@,
                    tenant_id,
                    groups@[g].error_pattern@,
                ) by {
                assert forall|id: u128| failed_ids_with_error(self@, tenant_id, groups@[g].error_pattern@).contains(id)
                    implies sets[g].contains(id) by {
                    let j = choose|j: int| 0 <= j < records@.len() && #[trigger] records@[j].id == id;
                    assert(records@[j] == self@[id]);
                    let h = group_of[id];
                    assert(sets[h].contains(id));
                    if h != g {
                        assert(groups@[h].error_pattern@ == error_key(self@[id]));
                        if h < g {
                            assert(groups@[h].error_pattern@ != groups@[g].error_pattern@);
                        } else {
                            assert(groups@[g].error_pattern@ != groups@[h].error_pattern@);
                        }
                    }
                }
                assert(sets[g] =~= failed_ids_with_error(self@, tenant_id, groups@[g].error_pattern@));
            }
            assert forall|id: u128| failed_ids(self@, tenant_id).contains(id) implies exists|g: int|
                0 <= g < groups@.len() && #[trigger] groups@[g].error_pattern@ == error_key(self@[id]) by {
                let j = choose|j: int| 0 <= j < records@.len() && #[trigger] records@[j].id == id;
                assert(records@[j] == self@[id]);
                let h = group_of[id];
                assert(sets[h].contains(id));
            }
        }
        (groups, Ghost(sets))
    }

    /// Number of records of the store that `pred` holds of, with the
    /// earliest update time among them.
    fn failed_and_replayed_counts(&self, tenant_id: u128) -> (r: (i64, i64, Option<i64>))
        requires
            self.wf(),
            self@.dom().len() <= i64::MAX,
        ensures
            r.0 == failed_ids(self@, tenant_id).len(),
            r.1 == replayed_ids(self@, tenant_id).len(),
            match r.2 {
                None => failed_ids(self@, tenant_id).is_empty(),
                Some(t) => exists|id: u128|
                    #![trigger self@[id]]
                    failed_ids(self@, tenant_id).contains(id) && self@[id].updated_at == t && forall|other: u128|
                        failed_ids(self@, tenant_id).contains(other) ==> t <= #[trigger] self@[other].updated_at,
            },
    {
        let records = self.snapshot();
        let n = records.len();
        let mut failed: i64 = 0;
        let mut replayed: i64 = 0;
        let mut oldest: Option<i64> = None;
        let ghost mut fseen: Set<u128> = Set::empty();
        let ghost mut rseen: Set<u128> = Set::empty();
        let ghost mut oldest_id: u128 = 0;
        let mut i: usize = 0;
        while i < n
            invariant
                n == records@.len(),
                i <= n,
                self.wf(),
                lists(records@, self@),
                n <= i64::MAX,
                fseen.finite(),
                rseen.finite(),
                failed == fseen.len(),
                replayed == rseen.len(),
                failed <= i,
                replayed <= i,
                forall|x: u128|
                    #![trigger fseen.contains(x)]
                    fseen.contains(x) ==> self@.contains_key(x) && is_failed_of(self@[x], tenant_id) && forall|j: int|
                        i <= j < n ==> (#[trigger] records@[j]).id != x,
                forall|x: u128|
                    #![trigger rseen.contains(x)]
                    rseen.contains(x) ==> self@.contains_key(x) && is_replayed_of(self@[x], tenant_id) && forall|
                        j: int,
                    |
                        i <= j < n ==> (#[trigger] records@[j]).id != x,
                forall|j: int|
                    0 <= j < i && is_failed_of(#[trigger] records@[j], tenant_id) ==> fseen.contains(
                        records@[j].id,
                    ),
                forall|j: int|
                    0 <= j < i && is_replayed_of(#[trigger] records@[j], tenant_id) ==> rseen.contains(
                        records@[j].id,
                    ),
                oldest is None ==> fseen.is_empty(),
                oldest matches Some(t) ==> fseen.contains(oldest_id) && self@[oldest_id].updated_at == t
                    && forall|x: u128| fseen.contains(x) ==> t <= #[trigger] self@[x].updated_at,
            decreases n - i,
        {
            let rec = &records[i];
            let ghost id = records@[i as int].id;
            proof {
                assert(self@[id] == records@[i as int]);
                assert forall|j: int| i + 1 <= j < n implies (#[trigger] records@[j]).id != id by {
                    assert(records@[i as int].id != records@[j].id);
                }
            }
            if rec.tenant_id == tenant_id && rec.status == WebhookOutboxStatus::Failed {
                proof {
                    assert(!fseen.contains(id));
                    fseen = fseen.insert(id);
                }
                failed = failed + 1;
                match oldest {
                    None => {
                        oldest = Some(rec.updated_at);
                        proof { oldest_id = id; }
                    },
                    Some(t) => {
                        if rec.updated_at < t {
                            oldest = Some(rec.updated_at);
                            proof { oldest_id = id; }
                        }
                    },
                }
            }
            if rec.tenant_id == tenant_id && rec.replay_count > 0 {
                proof {
                    assert(!rseen.contains(id));
                    rseen = rseen.insert(id);
                }
                replayed = replayed + 1;
            }
            i = i + 1;
        }
        proof {
            assert(fseen =~= failed_ids(self@, tenant_id)) by {
                assert forall|x: u128| failed_ids(self@, tenant_id).contains(x) implies fseen.contains(x) by {
                    let j = choose|j: int| 0 <= j < records@.len() && #[trigger] records@[j].id == x;
                    assert(records@[j] == self@[x]);
                }
            }
            assert(rseen =~= replayed_ids(self@, tenant_id)) by {
                assert forall|x: u128| replayed_ids(self@, tenant_id).contains(x) implies rseen.contains(x) by {
                    let j = choose|j: int| 0 <= j < records@.len() && #[trigger] records@[j].id == x;
                    assert(records@[j] == self@[x]);
                }
            }
            if oldest is Some {
                assert(failed_ids(self@, tenant_id).contains(oldest_id));
            }
        }
        (failed, replayed, oldest)
    }

    /// DLQ statistics of a tenant, ages measured at `now`.
    pub fn dlq_stats_at(&self, tenant_id: u128, now: i64) -> (s: WebhookOutboxDlqStats)
        requires
            self.wf(),
            self@.dom().len() <= i64::MAX,
        ensures
            is_dlq_stats(self@, tenant_id, now, s),
            grouped_total(s.by_error_summary@) == s.total_failed,
    {
        let (total_failed, replayed_count, oldest) = self.failed_and_replayed_counts(tenant_id);
        let oldest_failed_age_seconds = match oldest {
            None => None,
            Some(t) => {
                let diff: i128 = (now as i128) - (t as i128);
                if diff <= 0 {
                    Some(0i64)
                } else {
                    assert(diff / 1_000_000_000 <= i64::MAX) by (nonlinear_arith)
                        requires
                            diff <= 2 * (i64::MAX as int) + 1,
                            diff > 0,
                    ;
                    Some((diff / 1_000_000_000) as i64)
                }
            },
        };
        let (groups, Ghost(sets)) = self.error_groups(tenant_id);
        let mut sorted: Vec<WebhookOutboxDlqErrorSummary> = Vec::new();
        let ghost mut origin: Seq<int> = Seq::empty();
        let ghost mut pos: Seq<int> = Seq::empty();
        let m = groups.len();
        let mut k: usize = 0;
        while k < m
            invariant
                m == groups@.len(),
                k <= m,
                origin.len() == sorted@.len(),
                forall|g: int|
                    0 <= g < groups@.len() ==> groups@[g].count == failed_ids_with_error(
                        self@,
                        tenant_id,
                        groups@[g].error_pattern@,
                    ).len() && groups@[g].count > 0,
                forall|g1: int, g2: int|
                    0 <= g1 < g2 < groups@.len() ==> (#[trigger] groups@[g1]).error_pattern@ != (
                    #[trigger] groups@[g2]).error_pattern@,
                forall|a: int, b: int|
                    0 <= a < b < sorted@.len() ==> summary_before(#[trigger] sorted@[a], #[trigger] sorted@[b]),
                forall|q: int|
                    0 <= q < sorted@.len() ==> 0 <= #[trigger] origin[q] < k && sorted@[q].error_pattern@
                        == groups@[origin[q]].error_pattern@ && sorted@[q].count == groups@[origin[q]].count,
                pos.len() == k,
                forall|g: int| 0 <= g < k ==> 0 <= #[trigger] pos[g] < sorted@.len() && origin[pos[g]] == g,
            decreases m - k,
        {
            let item = WebhookOutboxDlqErrorSummary {
                error_pattern: groups[k].error_pattern.clone(),
                count: groups[k].count,
            };
            let mut p: usize = 0;
            #[verifier::loop_isolation(false)]
            while p < sorted.len() && (sorted[p].count > item.count || (sorted[p].count == item.count
                && text_less(sorted[p].error_pattern.as_str(), item.error_pattern.as_str())))
                invariant
                    p <= sorted@.len(),
                    forall|q: int| 0 <= q < p ==> summary_before(#[trigger] sorted@[q], item),
                decreases sorted@.len() - p,
            {
                p = p + 1;
            }
            let ghost before = sorted@;
            let ghost before_origin = origin;
            proof {
                assert forall|q: int| p <= q < before.len() implies summary_before(item, #[trigger] before[q]) by {
                    let gp = before_origin[p as int];
                    assert(gp != k as int);
                    if gp < k {
                        assert(groups@[gp].error_pattern@ != groups@[k as int].error_pattern@);
                    }
                    lemma_text_lt_total(before[p as int].error_pattern@, item.error_pattern@);
                    if q > p {
                        assert(summary_before(before[p as int], before[q]));
                        if before[p as int].count == before[q].count && item.count == before[p as int].count {
                            lemma_text_lt_trans(item.error_pattern@, before[p as int].error_pattern@, before[q].error_pattern@);
                        }
                    }
                }
            }
            sorted.insert(p, item);
            proof {
                origin = before_origin.insert(p as int, k as int);
                assert forall|a: int, b: int|
                    0 <= a < b < sorted@.len() implies summary_before(#[trigger] sorted@[a], #[trigger] sorted@[b]) by {
                    if b < p {
                        assert(sorted@[a] == before[a] && sorted@[b] == before[b]);
                    } else if b == p {
                        assert(sorted@[a] == before[a]);
                    } else if a < p {
                        assert(sorted@[a] == before[a] && sorted@[b] == before[b - 1]);
                        assert(summary_before(before[a], item));
                        assert(summary_before(item, before[b - 1]));
                        if before[a].count == item.count && item.count == before[b - 1].count {
                            lemma_text_lt_trans(before[a].error_pattern@, item.error_pattern@, before[b - 1].error_pattern@);
                        }
                    } else if a == p {
                        assert(sorted@[b] == before[b - 1]);
                    } else {
                        assert(sorted@[a] == before[a - 1] && sorted@[b] == before[b - 1]);
                    }
                }
                assert forall|q: int| 0 <= q < sorted@.len() implies 0 <= #[trigger] origin[q] < k + 1
                    && sorted@[q].error_pattern@ == groups@[origin[q]].error_pattern@ && sorted@[q].count
                    == groups@[origin[q]].count by {
                    if q < p {
                        assert(sorted@[q] == before[q] && origin[q] == before_origin[q]);
                    } else if q == p {
                    } else {
                        assert(sorted@[q] == before[q - 1] && origin[q] == before_origin[q - 1]);
                    }
                }
                let before_pos = pos;
                pos = Seq::new((k + 1) as nat, |g: int| if g < k {
                    if before_pos[g] >= p { before_pos[g] + 1 } else { before_pos[g] }
                } else {
                    p as int
                });
                assert forall|g: int| 0 <= g < k + 1 implies 0 <= #[trigger] pos[g] < sorted@.len() && origin[pos[g]] == g by {
                    if g < k {
                        if before_pos[g] >= p {
                            assert(origin[before_pos[g] + 1] == before_origin[before_pos[g]]);
                        } else {
                            assert(origin[before_pos[g]] == before_origin[before_pos[g]]);
                        }
                    }
                }
            }
            k = k + 1;
        }
        proof {
            assert forall|id: u128| failed_ids(self@, tenant_id).contains(id) implies exists|q: int|
                0 <= q < sorted@.len() && #[trigger] sorted@[q].error_pattern@ == error_key(self@[id]) by {
                let g = choose|g: int| 0 <= g < groups@.len() && #[trigger] groups@[g].error_pattern@ == error_key(self@[id]);
                let q = pos[g];
                assert(sorted@[q].error_pattern@ == groups@[g].error_pattern@);
            }
        }
        proof {
            assert forall|q: int| 0 <= q < sorted@.len() implies #[trigger] sorted@[q].count
                == failed_ids_with_error(self@, tenant_id, sorted@[q].error_pattern@).len()
                && sorted@[q].count > 0 by {
                let g = origin[q];
                assert(groups@[g].count == failed_ids_with_error(self@, tenant_id, groups@[g].error_pattern@).len());
            }
        }
        let s = WebhookOutboxDlqStats { total_failed, oldest_failed_age_seconds, replayed_count, by_error_summary: sorted };
        assert(s.total_failed == failed_ids(self@, tenant_id).len());
        assert(s.replayed_count == replayed_ids(self@, tenant_id).len());
        assert(match s.oldest_failed_age_seconds {
        None => failed_ids(self@, tenant_id).is_empty(),
        Some(age) => exists|id: u128|
            #![trigger self@[id]]
            failed_ids(self@, tenant_id).contains(id) && age == age_seconds(now, self@[id].updated_at) && forall|
                other: u128,
            |
                failed_ids(self@, tenant_id).contains(other) ==> self@[id].updated_at <= #[trigger] self@[other].updated_at,
        });
        let ghost g = s.by_error_summary@;
        assert(forall|i: int|
        0 <= i < g.len() ==> #[trigger] g[i].count == failed_ids_with_error(self@, tenant_id, g[i].error_pattern@).len()
            && g[i].count > 0);
        assert(forall|id: u128|
        failed_ids(self@, tenant_id).contains(id) ==> exists|i: int|
            0 <= i < g.len() && #[trigger] g[i].error_pattern@ == error_key(self@[id]));
        assert(forall|i: int, j: int| 0 <= i < j < g.len() ==> summary_before(#[trigger] g[i], #[trigger] g[j]));
        proof {
            crate::outbox_laws::law_error_groups_cover_failures(self@, tenant_id, now, s);
        }
        s
    }

    /// DLQ statistics of a tenant, ages measured now.
    pub fn dlq_stats(&self, tenant_id: u128) -> (s: WebhookOutboxDlqStats)
        requires
            self.wf(),
            self@.dom().len() <= i64::MAX,
        ensures
            exists|now: i64| #[trigger] is_dlq_stats(self@, tenant_id, now, s),
            grouped_total(s.by_error_summary@) == s.total_failed,
    {
        let now = current_time_nanos();
        self.dlq_stats_at(tenant_id, now)
    }
}

} // verus!

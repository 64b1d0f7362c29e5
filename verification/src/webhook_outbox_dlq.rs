//! Dead-letter queue of the webhook outbox: failed records are listed,
//! replayed one by one or in bulk, and summarised. These are the decisions
//! of the DLQ endpoints; the store calls are made by the caller.

use vstd::prelude::*;
use crate::ids::{lemma_uuid_text_len, uuid_text};
use crate::text::{contains_text, occurs_at, text_contains};
use crate::webhook_outbox_repo::{
    error_text, failed_ids, is_failed_of, keyed, is_ordered_selection, precedes, selects, ListOrder, RecordFilter,
    OutboxStoreError, WebhookOutboxDlqStats, WebhookOutboxRecord, WebhookOutboxStatus,
};

verus! {

/// Records listed by default when no limit is given.
pub const DLQ_DEFAULT_LIST_LIMIT: i64 = 100;

/// Records replayed by a bulk replay when no maximum is given.
pub const BULK_REPLAY_DEFAULT_MAX: i64 = 50;

/// Hard cap on the records replayed by a single bulk replay call.
pub const BULK_REPLAY_HARD_CAP: i64 = 100;

/// The listing limit of the DLQ and replayed-record endpoints.
pub fn dlq_list_limit(limit: Option<i64>) -> (r: i64)
    ensures
        r == match limit {
            Some(l) => l,
            None => DLQ_DEFAULT_LIST_LIMIT,
        },
{
    match limit {
        Some(l) => l,
        None => DLQ_DEFAULT_LIST_LIMIT,
    }
}

/// The listing limit of a bulk replay asked for `max_records`: the
/// requested maximum (50 by default), held to the range from 0 to the hard
/// cap of 100.
pub open spec fn bulk_replay_limit_of(max_records: Option<i64>) -> i64 {
    let wanted = match max_records {
        Some(m) => m,
        None => BULK_REPLAY_DEFAULT_MAX,
    };
    if wanted < 0 {
        0
    } else if wanted < BULK_REPLAY_HARD_CAP {
        wanted
    } else {
        BULK_REPLAY_HARD_CAP
    }
}

/// How many failed records a bulk replay lists: the requested maximum
/// (50 by default), held to the range from 0 to the hard cap of 100. A
/// negative maximum lists nothing.
pub fn bulk_replay_limit(max_records: Option<i64>) -> (r: i64)
    ensures
        r == bulk_replay_limit_of(max_records),
        0 <= r <= BULK_REPLAY_HARD_CAP,
        match max_records {
            Some(m) => 0 <= m <= 100 ==> r == m,
            None => r == 50,
        },
{
    let wanted = match max_records {
        Some(m) => m,
        None => BULK_REPLAY_DEFAULT_MAX,
    };
    if wanted < 0 {
        0
    } else if wanted < BULK_REPLAY_HARD_CAP {
        wanted
    } else {
        BULK_REPLAY_HARD_CAP
    }
}

/// Error answered by a DLQ endpoint.
#[derive(Debug)]
pub enum DlqEndpointError {
    /// The store refused or failed; its message is passed on.
    StorageError(String),
    /// The endpoint cannot serve the request.
    Internal(String),
}

/// The error of an endpoint whose outbox store is not configured.
pub fn store_not_configured() -> (e: DlqEndpointError)
    ensures
        e matches DlqEndpointError::Internal(m) && m@ == "Webhook outbox repository is not configured"@,
{
    DlqEndpointError::Internal(String::from_str("Webhook outbox repository is not configured"))
}

/// The endpoint error for a store error: storage errors pass on with their
/// message.
pub fn endpoint_error(e: &OutboxStoreError) -> (r: DlqEndpointError)
    ensures
        r matches DlqEndpointError::StorageError(m) && m@ == error_text(*e),
{
    DlqEndpointError::StorageError(e.message())
}

/// Response for listing webhook outbox DLQ records.
#[derive(Debug)]
pub struct ListWebhookOutboxDlqResponse {
    pub records: Vec<WebhookOutboxRecord>,
    pub total: usize,
}

/// Response for listing replayed webhook outbox records.
#[derive(Debug)]
pub struct ListWebhookOutboxReplayedResponse {
    pub records: Vec<WebhookOutboxRecord>,
    pub total: usize,
}

/// Response for replaying a webhook outbox DLQ record.
#[derive(Debug)]
pub struct ReplayWebhookOutboxDlqResponse {
    pub record: WebhookOutboxRecord,
}

/// Response for webhook outbox DLQ stats.
#[derive(Debug)]
pub struct WebhookOutboxDlqStatsResponse {
    pub stats: WebhookOutboxDlqStats,
}

impl ListWebhookOutboxDlqResponse {
    /// The listing of the given records, with their number.
    pub fn from_records(records: Vec<WebhookOutboxRecord>) -> (r: Self)
        ensures
            r.records@ == records@,
            r.total == records@.len(),
    {
        let total = records.len();
        ListWebhookOutboxDlqResponse { records, total }
    }

    /// The empty listing answered when no outbox store is configured.
    pub fn empty() -> (r: Self)
        ensures
            r.records@.len() == 0,
            r.total == 0,
    {
        ListWebhookOutboxDlqResponse { records: Vec::new(), total: 0 }
    }
}

impl ListWebhookOutboxReplayedResponse {
    /// The listing of the given records, with their number.
    pub fn from_records(records: Vec<WebhookOutboxRecord>) -> (r: Self)
        ensures
            r.records@ == records@,
            r.total == records@.len(),
    {
        let total = records.len();
        ListWebhookOutboxReplayedResponse { records, total }
    }

    /// The empty listing answered when no outbox store is configured.
    pub fn empty() -> (r: Self)
        ensures
            r.records@.len() == 0,
            r.total == 0,
    {
        ListWebhookOutboxReplayedResponse { records: Vec::new(), total: 0 }
    }
}

/// A replay refused because the record is no longer failed: its message
/// says `is not failed`.
pub open spec fn is_skip(e: OutboxStoreError) -> bool {
    contains_text(error_text(e), "is not failed"@)
}

/// Response for bulk replaying failed webhook outbox records.
#[derive(Debug)]
pub struct BulkReplayWebhookOutboxDlqResponse {
    /// Number of records successfully replayed (Failed to Pending).
    pub replayed: usize,
    /// Number of records skipped because they were no longer failed.
    pub skipped: usize,
    /// Number of records that met another error.
    pub errors: usize,
    /// The records that were successfully replayed.
    pub records: Vec<WebhookOutboxRecord>,
}

/// The records replayed among `outcomes`, in order.
pub open spec fn replayed_records(outcomes: Seq<Result<WebhookOutboxRecord, OutboxStoreError>>) -> Seq<
    WebhookOutboxRecord,
>
    decreases outcomes.len(),
{
    if outcomes.len() == 0 {
        Seq::empty()
    } else {
        let rest = replayed_records(outcomes.drop_last());
        match outcomes.last() {
            Ok(r) => rest.push(r),
            Err(_) => rest,
        }
    }
}

/// The number of refusals among `outcomes` that are skips.
pub open spec fn skip_count(outcomes: Seq<Result<WebhookOutboxRecord, OutboxStoreError>>) -> nat
    decreases outcomes.len(),
{
    if outcomes.len() == 0 {
        0
    } else {
        skip_count(outcomes.drop_last()) + match outcomes.last() {
            Err(e) => if is_skip(e) {
                1nat
            } else {
                0nat
            },
            Ok(_) => 0nat,
        }
    }
}

impl BulkReplayWebhookOutboxDlqResponse {
    /// The answer of a bulk replay whose listed records were replayed, one
    /// by one, with the outcomes `outcomes`: each outcome is counted once,
    /// as replayed, skipped or an error, and the replayed records are kept
    /// in order.
    pub fn from_outcomes(outcomes: Vec<Result<WebhookOutboxRecord, OutboxStoreError>>) -> (r: Self)
        ensures
            r.replayed + r.skipped + r.errors == outcomes@.len(),
            r.records@ == replayed_records(outcomes@),
            r.replayed == r.records@.len(),
            r.skipped == skip_count(outcomes@),
    {
        let ghost all = outcomes@;
        let n = outcomes.len();
        let mut r = Self::new();
        for o in it: outcomes.into_iter()
            invariant
                it.seq() == all,
                all.len() == n,
                r.replayed + r.skipped + r.errors == it.index(),
                it.index() <= all.len(),
                r.records@ == replayed_records(all.take(it.index() as int)),
                r.replayed == r.records@.len(),
                r.skipped == skip_count(all.take(it.index() as int)),
        {
            let ghost k = it.index();
            assert(all.take(k + 1).drop_last() =~= all.take(k as int));
            r.record_outcome(o);
        }
        assert(all.take(all.len() as int) =~= all);
        r
    }

    /// A bulk replay before any record was attempted.
    pub fn new() -> (r: Self)
        ensures
            r.replayed == 0 && r.skipped == 0 && r.errors == 0 && r.records@.len() == 0,
    {
        BulkReplayWebhookOutboxDlqResponse { replayed: 0, skipped: 0, errors: 0, records: Vec::new() }
    }

    /// Counts the outcome of replaying one listed record: replayed records
    /// are kept, refusals of records no longer failed are skipped, anything
    /// else is an error.
    pub fn record_outcome(&mut self, outcome: Result<WebhookOutboxRecord, OutboxStoreError>)
        requires
            old(self).replayed + old(self).skipped + old(self).errors < usize::MAX,
        ensures
            match outcome {
                Ok(rec) => final(self).replayed == old(self).replayed + 1 && final(self).records@ == old(
                    self,
                ).records@.push(rec) && final(self).skipped == old(self).skipped && final(self).errors == old(
                    self,
                ).errors,
                Err(e) => final(self).replayed == old(self).replayed && final(self).records@ == old(self).records@
                    && if is_skip(e) {
                    final(self).skipped == old(self).skipped + 1 && final(self).errors == old(self).errors
                } else {
                    final(self).skipped == old(self).skipped && final(self).errors == old(self).errors + 1
                },
            },
    {
        match outcome {
            Ok(rec) => {
                self.replayed = self.replayed + 1;
                self.records.push(rec);
            },
            Err(e) => {
                let msg = e.message();
                if text_contains(msg.as_str(), "is not failed") {
                    self.skipped = self.skipped + 1;
                } else {
                    self.errors = self.errors + 1;
                }
            },
        }
    }
}

/// A requested maximum within the hard cap is honoured exactly, a larger
/// one is cut to 100, a negative one lists nothing and no request lists
/// 50; a larger request never gives a smaller limit.
pub proof fn law_bulk_replay_limit_honours_request(a: i64, b: i64)
    ensures
        0 <= a <= 100 ==> bulk_replay_limit_of(Some(a)) == a,
        a > 100 ==> bulk_replay_limit_of(Some(a)) == 100,
        a < 0 ==> bulk_replay_limit_of(Some(a)) == 0,
        bulk_replay_limit_of(None) == 50,
        a <= b ==> bulk_replay_limit_of(Some(a)) <= bulk_replay_limit_of(Some(b)),
{
}

/// The hard cap holds whatever maximum is asked for: the failed records a
/// bulk replay lists under its limit, and so the records it attempts, are
/// never more than 100.
pub proof fn law_bulk_replay_capped(
    m: Map<u128, WebhookOutboxRecord>,
    tenant_id: u128,
    max_records: Option<i64>,
    listed: Seq<WebhookOutboxRecord>,
)
    requires
        is_ordered_selection(
            m,
            RecordFilter::FailedOf { tenant_id },
            ListOrder::UpdatedDesc,
            bulk_replay_limit_of(max_records),
            listed,
        ),
    ensures
        listed.len() <= BULK_REPLAY_HARD_CAP,
{
}

/// A bulk replay accounts for the failed records of the tenant up to its
/// limit, each once: when each record it lists is counted once, as
/// replayed, skipped or an error, the three counts add up to the smaller
/// of the number of failed records and the limit, never more than 100.
pub proof fn law_bulk_replay_counts(
    m: Map<u128, WebhookOutboxRecord>,
    tenant_id: u128,
    max_records: Option<i64>,
    listed: Seq<WebhookOutboxRecord>,
    resp: BulkReplayWebhookOutboxDlqResponse,
)
    requires
        m.dom().finite(),
        keyed(m),
        is_ordered_selection(
            m,
            RecordFilter::FailedOf { tenant_id },
            ListOrder::UpdatedDesc,
            bulk_replay_limit_of(max_records),
            listed,
        ),
        resp.replayed + resp.skipped + resp.errors == listed.len(),
    ensures
        resp.replayed + resp.skipped + resp.errors == ({
            let failed = failed_ids(m, tenant_id).len() as int;
            let limit = bulk_replay_limit_of(max_records) as int;
            if failed < limit {
                failed
            } else {
                limit
            }
        }),
        resp.replayed + resp.skipped + resp.errors <= BULK_REPLAY_HARD_CAP,
{
    let f = failed_ids(m, tenant_id);
    let limit = bulk_replay_limit_of(max_records);
    let ids = Seq::new(listed.len(), |i: int| listed[i].id);
    assert(f.finite()) by {
        assert(f =~= m.dom().filter(|id: u128| is_failed_of(m[id], tenant_id)));
        m.dom().lemma_len_filter(|id: u128| is_failed_of(m[id], tenant_id));
    }
    assert(ids.no_duplicates()) by {
        assert forall|i: int, j: int| 0 <= i < ids.len() && 0 <= j < ids.len() && i != j implies ids[i] != ids[j] by {
            if ids[i] == ids[j] {
                assert(listed[i] == m[listed[i].id] && listed[j] == m[listed[j].id]);
                if i < j {
                    assert(precedes(ListOrder::UpdatedDesc, listed[i], listed[j]));
                } else {
                    assert(precedes(ListOrder::UpdatedDesc, listed[j], listed[i]));
                }
            }
        }
    }
    ids.unique_seq_to_set();
    assert(ids.to_set().subset_of(f)) by {
        assert forall|id: u128| ids.to_set().contains(id) implies f.contains(id) by {
            let i = choose|i: int| 0 <= i < ids.len() && ids[i] == id;
            assert(m.contains_key(listed[i].id) && m[listed[i].id] == listed[i]);
            assert(selects(RecordFilter::FailedOf { tenant_id }, listed[i]));
        }
    }
    vstd::set_lib::lemma_len_subset(ids.to_set(), f);
    if listed.len() < limit {
        assert(f.subset_of(ids.to_set())) by {
            assert forall|id: u128| f.contains(id) implies ids.to_set().contains(id) by {
                assert(m.contains_key(id) && is_failed_of(m[id], tenant_id));
                assert(selects(RecordFilter::FailedOf { tenant_id }, m[id]));
                if !listed.contains(m[id]) {
                    assert(listed.len() == limit);
                }
                let i = choose|i: int| 0 <= i < listed.len() && listed[i] == m[id];
                assert(ids[i] == id);
            }
        }
        vstd::set_lib::lemma_len_subset(f, ids.to_set());
    }
}

/// A replay refused because the record is not failed any more (another
/// replay came first) is counted as skipped, not as an error.
pub proof fn law_not_failed_is_skipped(id: u128, status: WebhookOutboxStatus)
    ensures
        is_skip(OutboxStoreError::NotFailed { id, status }),
{
    reveal_strlit("Outbox record ");
    reveal_strlit(" is not failed (status: ");
    reveal_strlit("is not failed");
    lemma_uuid_text_len(id);
    let t = error_text(OutboxStoreError::NotFailed { id, status });
    let head = "Outbox record "@ + uuid_text(id);
    assert(head.len() == 50);
    assert(t.subrange(51, 64) =~= "is not failed"@);
    assert(occurs_at(t, "is not failed"@, 51));
}

} // verus!

//! Webhook outbox worker decisions. One processing pass over the pending
//! records of a tenant is a state machine: the caller performs each step
//! (store calls, the dispatch itself) and hands back its outcome.

use vstd::prelude::*;
use crate::text::chars_of;
use crate::webhook_dispatcher::{failure_reason_text, WebhookDispatchFailure};
use crate::webhook_outbox_repo::{OutboxStoreError, WebhookOutboxRecord};

verus! {

/// Environment variable name for the webhook outbox worker enablement gate.
pub const WEBHOOK_OUTBOX_WORKER_ENV_VAR: &'static str = "INTENT_API_WEBHOOK_OUTBOX_WORKER";

/// Default batch size per tenant per processing pass.
pub const WEBHOOK_OUTBOX_WORKER_BATCH_SIZE: i64 = 100;

/// Default poll interval of the background worker, in seconds.
pub const WEBHOOK_OUTBOX_WORKER_POLL_INTERVAL_SECS: u64 = 30;

/// Identity under which the worker claims records.
pub open spec fn worker_identity_text() -> Seq<char> {
    "local-worker"@
}

/// ASCII lowercase of a character; other characters are unchanged.
pub open spec fn ascii_lower(c: char) -> char {
    if 'A' <= c && c <= 'Z' {
        ((c as int) + 32) as char
    } else {
        c
    }
}

/// Equality up to ASCII case (`str::eq_ignore_ascii_case`).
pub open spec fn eq_ignore_ascii_case(a: Seq<char>, b: Seq<char>) -> bool {
    a.len() == b.len() && forall|i: int| 0 <= i < a.len() ==> ascii_lower(#[trigger] a[i]) == ascii_lower(b[i])
}

/// The enablement value turns the worker on: `true` or `yes` in any ASCII case, or
/// `1`. An unset variable disables it.
pub open spec fn enables_worker(value: Option<Seq<char>>) -> bool {
    match value {
        Some(v) => eq_ignore_ascii_case(v, "true"@) || v == "1"@ || eq_ignore_ascii_case(v, "yes"@),
        None => false,
    }
}

fn lower_char(c: char) -> (r: char)
    ensures
        r == ascii_lower(c),
{
    if 'A' <= c && c <= 'Z' {
        ((c as u32) + 32) as u8 as char
    } else {
        c
    }
}

fn same_ignoring_ascii_case(a: &str, b: &str) -> (r: bool)
    ensures
        r == eq_ignore_ascii_case(a@, b@),
{
    let va = chars_of(a);
    let vb = chars_of(b);
    if va.len() != vb.len() {
        return false;
    }
    let mut i: usize = 0;
    while i < va.len()
        invariant
            va@ == a@,
            vb@ == b@,
            va@.len() == vb@.len(),
            i <= va@.len(),
            forall|k: int| 0 <= k < i ==> ascii_lower(#[trigger] va@[k]) == ascii_lower(vb@[k]),
        decreases va@.len() - i,
    {
        if lower_char(va[i]) != lower_char(vb[i]) {
            return false;
        }
        i = i + 1;
    }
    true
}

/// Parses the worker gate: enabled only for an explicit `true`, `1` or
/// `yes` (ASCII case ignored); unset, empty or any other value disables it.
pub fn worker_enabled_from(value: Option<&str>) -> (r: bool)
    ensures
        r == enables_worker(
            match value {
                Some(v) => Some(v@),
                None => None,
            },
        ),
{
    match value {
        None => false,
        Some(v) => {
            let one = String::from_str("1");
            let owned = String::from_str(v);
            same_ignoring_ascii_case(v, "true") || owned == one || same_ignoring_ascii_case(v, "yes")
        },
    }
}

/// The next thing the caller of a worker pass must do.
#[derive(Debug)]
pub enum WorkerStep {
    /// List up to `limit` pending records of the tenant.
    ListPending { tenant_id: u128, limit: i64 },
    /// Claim the record for this worker.
    Claim { id: u128, tenant_id: u128, locked_by: String },
    /// Dispatch the claimed record.
    Dispatch { record: WebhookOutboxRecord },
    /// Mark the record delivered.
    MarkDelivered { id: u128, tenant_id: u128 },
    /// Mark the record failed with `reason`.
    MarkFailed { id: u128, tenant_id: u128, reason: String },
    /// The pass is over: the number of records delivered, or the error that
    /// stopped the listing.
    Finished { result: Result<usize, OutboxStoreError> },
}

/// The abstract state of a worker pass: its tenant, the records it listed,
/// how many of them it has taken up, and how many it delivered.
pub struct WorkerPassModel {
    pub tenant: u128,
    pub listed: Seq<WebhookOutboxRecord>,
    pub taken: nat,
    pub delivered: nat,
    /// The listed record in flight, if any.
    pub in_flight: Option<u128>,
}

impl WorkerPassModel {
    /// No more delivered than taken up, no more taken up than listed.
    pub open spec fn consistent(self) -> bool {
        self.delivered <= self.taken <= self.listed.len()
    }

    /// `s` takes up the next listed record, or ends the pass when none is
    /// left, reporting the number delivered.
    pub open spec fn continues_with(self, s: WorkerStep) -> bool {
        if self.taken < self.listed.len() {
            s matches WorkerStep::Claim { id, tenant_id, locked_by } && id == self.listed[self.taken as int].id
                && tenant_id == self.tenant && locked_by@ == worker_identity_text()
        } else {
            s matches WorkerStep::Finished { result: Ok(n) } && n == self.delivered
        }
    }

    /// The state after taking up the next listed record, if any.
    pub open spec fn advanced(self) -> WorkerPassModel {
        if self.taken < self.listed.len() {
            WorkerPassModel { taken: self.taken + 1, in_flight: Some(self.listed[self.taken as int].id), ..self }
        } else {
            WorkerPassModel { in_flight: None, ..self }
        }
    }
}

/// One processing pass of the worker over the pending records of a tenant.
pub struct WebhookOutboxWorkerPass {
    tenant_id: u128,
    pending: Vec<WebhookOutboxRecord>,
    next: usize,
    processed: usize,
    in_flight: Option<u128>,
}

impl View for WebhookOutboxWorkerPass {
    type V = WorkerPassModel;

    closed spec fn view(&self) -> WorkerPassModel {
        WorkerPassModel {
            tenant: self.tenant_id,
            listed: self.pending@,
            taken: self.next as nat,
            delivered: self.processed as nat,
            in_flight: self.in_flight,
        }
    }
}

impl WebhookOutboxWorkerPass {
    /// A well-formed pass has a consistent abstract state.
    pub proof fn lemma_consistent(&self)
        requires
            self.wf(),
        ensures
            self@.consistent(),
    {
    }

    /// Internal consistency of a pass: no more delivered than taken up, and
    /// a record in flight has been taken up and not yet counted.
    pub closed spec fn wf(&self) -> bool {
        &&& self.next <= self.pending@.len()
        &&& self.processed <= self.next
        &&& self.in_flight is Some ==> self.processed < self.next
    }

    /// Starts a pass for `tenant_id` with batch size `batch_size`; a
    /// disabled worker processes nothing.
    pub fn start(enabled: bool, tenant_id: u128, batch_size: i64) -> (r: (Self, WorkerStep))
        ensures
            r.0.wf(),
            r.0@ == (WorkerPassModel { tenant: tenant_id, listed: Seq::empty(), taken: 0, delivered: 0, in_flight: None }),
            enabled ==> r.1 == (WorkerStep::ListPending { tenant_id, limit: batch_size }),
            !enabled ==> (r.1 matches WorkerStep::Finished { result: Ok(n) } && n == 0),
    {
        let pass = WebhookOutboxWorkerPass { tenant_id, pending: Vec::new(), next: 0, processed: 0, in_flight: None };
        if enabled {
            (pass, WorkerStep::ListPending { tenant_id, limit: batch_size })
        } else {
            (pass, WorkerStep::Finished { result: Ok(0) })
        }
    }

    fn take_next(&mut self) -> (s: WorkerStep)
        requires
            old(self).wf(),
            old(self)@.in_flight is None,
        ensures
            final(self).wf(),
            old(self)@.continues_with(s),
            final(self)@ == old(self)@.advanced(),
    {
        if self.next < self.pending.len() {
            let id = self.pending[self.next].id;
            self.next = self.next + 1;
            self.in_flight = Some(id);
            WorkerStep::Claim { id, tenant_id: self.tenant_id, locked_by: String::from_str("local-worker") }
        } else {
            WorkerStep::Finished { result: Ok(self.processed) }
        }
    }

    /// The pending records were listed: take up the first one, or end the
    /// pass; a listing error ends the pass with that error.
    pub fn on_listed(&mut self, listed: Result<Vec<WebhookOutboxRecord>, OutboxStoreError>) -> (s: WorkerStep)
        requires
            old(self).wf(),
            old(self)@.in_flight is None,
        ensures
            final(self).wf(),
            match listed {
                Ok(records) => {
                    let fresh = WorkerPassModel { listed: records@, taken: 0, delivered: 0, in_flight: None, ..old(self)@ };
                    &&& fresh.continues_with(s)
                    &&& final(self)@ == fresh.advanced()
                },
                Err(e) => s == (WorkerStep::Finished { result: Err(e) }) && final(self)@ == old(self)@,
            },
    {
        match listed {
            Ok(records) => {
                self.pending = records;
                self.next = 0;
                self.processed = 0;
                self.take_next()
            },
            Err(e) => WorkerStep::Finished { result: Err(e) },
        }
    }

    /// The record in flight was claimed (dispatch it), or could not be
    /// claimed (count the failure and take up the next record).
    pub fn on_claimed(&mut self, claimed: Result<WebhookOutboxRecord, OutboxStoreError>) -> (r: (WorkerStep, bool))
        requires
            old(self).wf(),
            old(self)@.in_flight is Some,
        ensures
            final(self).wf(),
            match claimed {
                Ok(rec) => r.0 == (WorkerStep::Dispatch { record: rec }) && !r.1 && final(self)@ == (
                WorkerPassModel { in_flight: Some(rec.id), ..old(self)@ }),
                Err(_) => {
                    let idle = WorkerPassModel { in_flight: None, ..old(self)@ };
                    &&& r.1
                    &&& idle.continues_with(r.0)
                    &&& final(self)@ == idle.advanced()
                },
            },
    {
        match claimed {
            Ok(rec) => {
                self.in_flight = Some(rec.id);
                (WorkerStep::Dispatch { record: rec }, false)
            },
            Err(_) => {
                self.in_flight = None;
                (self.take_next(), true)
            },
        }
    }

    /// The record in flight was dispatched: mark it delivered on success,
    /// failed with the failure's reason otherwise.
    pub fn on_dispatched(&mut self, outcome: Result<(), WebhookDispatchFailure>) -> (s: WorkerStep)
        requires
            old(self).wf(),
            old(self)@.in_flight is Some,
        ensures
            final(self)@ == old(self)@,
            final(self).wf(),
            match outcome {
                Ok(()) => s == (WorkerStep::MarkDelivered {
                    id: old(self)@.in_flight->0,
                    tenant_id: old(self)@.tenant,
                }),
                Err(f) => s matches WorkerStep::MarkFailed { id, tenant_id, reason } && id == old(
                    self,
                )@.in_flight->0 && tenant_id == old(self)@.tenant && reason@ == failure_reason_text(f),
            },
    {
        let id = match self.in_flight {
            Some(id) => id,
            None => 0,
        };
        match outcome {
            Ok(()) => WorkerStep::MarkDelivered { id, tenant_id: self.tenant_id },
            Err(f) => WorkerStep::MarkFailed { id, tenant_id: self.tenant_id, reason: f.reason() },
        }
    }

    /// The record in flight was marked delivered (count it), or the mark
    /// failed (count a failure); then take up the next record.
    pub fn on_marked_delivered(&mut self, marked: Result<WebhookOutboxRecord, OutboxStoreError>) -> (r: (WorkerStep, bool))
        requires
            old(self).wf(),
            old(self)@.in_flight is Some,
        ensures
            final(self).wf(),
            ({
                let counted = WorkerPassModel {
                    in_flight: None,
                    delivered: if marked is Ok { old(self)@.delivered + 1 } else { old(self)@.delivered },
                    ..old(self)@
                };
                &&& r.1 == marked is Err
                &&& counted.continues_with(r.0)
                &&& final(self)@ == counted.advanced()
            }),
    {
        self.in_flight = None;
        let failed = marked.is_err();
        if !failed {
            self.processed = self.processed + 1;
        }
        (self.take_next(), failed)
    }

    /// The record in flight was marked failed (or the mark itself failed):
    /// the item counts as failed either way; take up the next record.
    pub fn on_marked_failed(&mut self, marked: Result<WebhookOutboxRecord, OutboxStoreError>) -> (r: (WorkerStep, bool))
        requires
            old(self).wf(),
            old(self)@.in_flight is Some,
        ensures
            final(self).wf(),
            ({
                let idle = WorkerPassModel { in_flight: None, ..old(self)@ };
                &&& r.1
                &&& idle.continues_with(r.0)
                &&& final(self)@ == idle.advanced()
            }),
    {
        self.in_flight = None;
        (self.take_next(), true)
    }

    /// Number of records delivered so far.
    pub fn processed(&self) -> (n: usize)
        ensures
            n == self@.delivered,
    {
        self.processed
    }
}

/// Tenants to process in a background pass: those listed, or none when the
/// listing failed.
pub fn tenants_to_process(listed: Result<Vec<u128>, OutboxStoreError>) -> (r: Vec<u128>)
    ensures
        match listed {
            Ok(t) => r@ == t@,
            Err(_) => r@.len() == 0,
        },
{
    match listed {
        Ok(t) => t,
        Err(_) => Vec::new(),
    }
}

/// A pass that ends reports every listed record taken up and at most as
/// many delivered as it listed.
pub proof fn law_finished_pass_counts(m: WorkerPassModel, s: WorkerStep)
    requires
        m.consistent(),
        m.continues_with(s),
        s is Finished,
    ensures
        m.taken == m.listed.len(),
        s matches WorkerStep::Finished { result: Ok(n) } && n <= m.listed.len(),
{
}

} // verus!

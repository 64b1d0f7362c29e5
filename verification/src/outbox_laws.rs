//! Properties of the webhook outbox store that span several operations.

use vstd::prelude::*;
use crate::text::lemma_text_lt_total;
use crate::webhook_outbox_repo::{
    claim_step, create_step, error_key, grouped_total, failed_ids, failed_ids_with_error, get_step,
    is_dlq_stats, mark_delivered_step, mark_failed_step, replay_step, reschedule_step, summary_before,
    selects, OutboxStoreError, RecordFilter, StepResult, WebhookOutboxDlqErrorSummary, WebhookOutboxDlqStats, WebhookOutboxRecord,
    WebhookOutboxStatus,
};

verus! {

/// A record stored under a fresh id reads back unchanged for its tenant.
pub proof fn law_create_then_get(m: Map<u128, WebhookOutboxRecord>, rec: WebhookOutboxRecord)
    requires
        !m.contains_key(rec.id),
    ensures
        create_step(m, rec).0 == Ok::<WebhookOutboxRecord, OutboxStoreError>(rec),
        get_step(create_step(m, rec).1, rec.id, rec.tenant_id) == Ok::<WebhookOutboxRecord, OutboxStoreError>(rec),
{
}

/// A second record with an id already stored is refused and changes nothing.
pub proof fn law_create_refuses_duplicate(m: Map<u128, WebhookOutboxRecord>, rec: WebhookOutboxRecord)
    requires
        m.contains_key(rec.id),
    ensures
        create_step(m, rec) == (
        Err::<WebhookOutboxRecord, OutboxStoreError>(OutboxStoreError::AlreadyExists { id: rec.id }),
        m,
        ),
{
}

/// Another tenant can neither read nor change a record: every operation it
/// attempts on the record is refused as not found for that tenant, and the
/// store is left as it was.
pub proof fn law_tenant_isolation(
    m: Map<u128, WebhookOutboxRecord>,
    id: u128,
    tenant_id: u128,
    worker: String,
    reason: String,
    actor: Option<String>,
    retry_at: i64,
    now: i64,
)
    requires
        m.contains_key(id),
        m[id].tenant_id != tenant_id,
    ensures
        ({
            let refused = Err::<WebhookOutboxRecord, OutboxStoreError>(
                OutboxStoreError::NotFoundForTenant { id, tenant_id },
            );
            &&& get_step(m, id, tenant_id) == refused
            &&& claim_step(m, id, tenant_id, worker, now) == (refused, m)
            &&& mark_delivered_step(m, id, tenant_id, now) == (refused, m)
            &&& mark_failed_step(m, id, tenant_id, reason, now) == (refused, m)
            &&& reschedule_step(m, id, tenant_id, reason, retry_at, now) == (refused, m)
            &&& replay_step(m, id, tenant_id, actor, now) == (refused, m)
        }),
{
}

/// A claimed record cannot be claimed again: the second claim is refused
/// because the record is no longer pending, and the first worker keeps it.
pub proof fn law_claim_is_exclusive(
    m: Map<u128, WebhookOutboxRecord>,
    id: u128,
    tenant_id: u128,
    first: String,
    second: String,
    now1: i64,
    now2: i64,
)
    requires
        claim_step(m, id, tenant_id, first, now1).0 is Ok,
    ensures
        ({
            let after = claim_step(m, id, tenant_id, first, now1).1;
            &&& after[id].locked_by == Some(first)
            &&& claim_step(after, id, tenant_id, second, now2) == (
            Err::<WebhookOutboxRecord, OutboxStoreError>(
                OutboxStoreError::NotPending { id, status: WebhookOutboxStatus::Claimed },
            ),
            after,
            )
        }),
{
}

/// Only failed records are replayed, and a replayed record is pending again,
/// so replaying it a second time is refused without effect.
pub proof fn law_replay_at_most_once(
    m: Map<u128, WebhookOutboxRecord>,
    id: u128,
    tenant_id: u128,
    actor1: Option<String>,
    actor2: Option<String>,
    now1: i64,
    now2: i64,
)
    requires
        replay_step(m, id, tenant_id, actor1, now1).0 is Ok,
    ensures
        m[id].status == WebhookOutboxStatus::Failed,
        ({
            let after = replay_step(m, id, tenant_id, actor1, now1).1;
            replay_step(after, id, tenant_id, actor2, now2) == (
            Err::<WebhookOutboxRecord, OutboxStoreError>(
                OutboxStoreError::NotFailed { id, status: WebhookOutboxStatus::Pending },
            ),
            after,
            )
        }),
{
}

/// A replayed record starts over: pending, no attempts, no error, no lock,
/// one more replay recorded, and it can be claimed for delivery again.
pub proof fn law_replay_starts_over(
    m: Map<u128, WebhookOutboxRecord>,
    id: u128,
    tenant_id: u128,
    actor: Option<String>,
    worker: String,
    now: i64,
    later: i64,
)
    requires
        replay_step(m, id, tenant_id, actor, now).0 is Ok,
        m[id].replay_count < i32::MAX,
    ensures
        ({
            let r = replay_step(m, id, tenant_id, actor, now).1[id];
            &&& r.status == WebhookOutboxStatus::Pending
            &&& r.attempt_count == 0
            &&& r.last_error is None
            &&& r.locked_at is None
            &&& r.locked_by is None
            &&& r.replay_count == m[id].replay_count + 1
            &&& r.replayed_at == Some(now)
            &&& r.replayed_by == actor
            &&& claim_step(replay_step(m, id, tenant_id, actor, now).1, id, tenant_id, worker, later).0 is Ok
        }),
{
}

/// Every successful change of a record stamps it with the time of the
/// change: claiming, marking delivered, marking failed, rescheduling and
/// replaying at `now` leave the record, as stored and as returned, updated
/// at `now`. A record marked failed at `now` is therefore not failed before
/// any `before <= now`.
pub proof fn law_changes_stamp_the_time(
    m: Map<u128, WebhookOutboxRecord>,
    id: u128,
    tenant_id: u128,
    worker: String,
    reason: String,
    actor: Option<String>,
    retry_at: i64,
    now: i64,
    before: i64,
)
    ensures
        forall|step: StepResult|
            #![trigger step.0]
            (step == claim_step(m, id, tenant_id, worker, now) || step == mark_delivered_step(m, id, tenant_id, now)
                || step == mark_failed_step(m, id, tenant_id, reason, now) || step == reschedule_step(
                m,
                id,
                tenant_id,
                reason,
                retry_at,
                now,
            ) || step == replay_step(m, id, tenant_id, actor, now)) && step.0 is Ok ==> step.0->Ok_0.updated_at
                == now && step.1[id].updated_at == now,
        mark_failed_step(m, id, tenant_id, reason, now).0 is Ok && before <= now ==> !selects(
            RecordFilter::FailedOlderThan { tenant_id, before },
            mark_failed_step(m, id, tenant_id, reason, now).1[id],
        ),
{
}

/// Every successful change of a record raises its lock version by exactly
/// one and leaves every other record as it was; a refused change leaves the
/// whole store as it was.
pub proof fn law_lock_version_counts_changes(
    m: Map<u128, WebhookOutboxRecord>,
    id: u128,
    tenant_id: u128,
    worker: String,
    reason: String,
    actor: Option<String>,
    retry_at: i64,
    now: i64,
    other: u128,
)
    requires
        m.contains_key(id),
        m[id].lock_version < i32::MAX,
        other != id,
    ensures
        forall|step: StepResult|
            #![trigger step.0]
            step == claim_step(m, id, tenant_id, worker, now) || step == mark_delivered_step(m, id, tenant_id, now)
                || step == mark_failed_step(m, id, tenant_id, reason, now) || step == reschedule_step(
                m,
                id,
                tenant_id,
                reason,
                retry_at,
                now,
            ) || step == replay_step(m, id, tenant_id, actor, now) ==> {
                &&& step.0 is Ok ==> step.1[id].lock_version == m[id].lock_version + 1 && step.1[id] == step.0->Ok_0
                    && step.1.contains_key(other) == m.contains_key(other) && (m.contains_key(other)
                    ==> step.1[other] == m[other]) && step.1.dom() == m.dom()
                &&& step.0 is Err ==> step.1 == m
            },
{
    assert forall|step: StepResult|
        #![trigger step.0]
        step == claim_step(m, id, tenant_id, worker, now) || step == mark_delivered_step(m, id, tenant_id, now)
            || step == mark_failed_step(m, id, tenant_id, reason, now) || step == reschedule_step(
            m,
            id,
            tenant_id,
            reason,
            retry_at,
            now,
        ) || step == replay_step(m, id, tenant_id, actor, now) implies {
            &&& step.0 is Ok ==> step.1[id].lock_version == m[id].lock_version + 1 && step.1[id] == step.0->Ok_0
                && step.1.contains_key(other) == m.contains_key(other) && (m.contains_key(other) ==> step.1[other]
                == m[other]) && step.1.dom() == m.dom()
            &&& step.0 is Err ==> step.1 == m
        } by {
        if step.0 is Ok {
            assert(step.1.dom() =~= m.dom());
        }
    }
}

/// The failed records of the tenant falling under one of the groups.
spec fn covered(m: Map<u128, WebhookOutboxRecord>, tenant_id: u128, g: Seq<WebhookOutboxDlqErrorSummary>) -> Set<
    u128,
>
    decreases g.len(),
{
    if g.len() == 0 {
        Set::empty()
    } else {
        covered(m, tenant_id, g.drop_last()).union(failed_ids_with_error(m, tenant_id, g.last().error_pattern@))
    }
}

proof fn lemma_covered(m: Map<u128, WebhookOutboxRecord>, tenant_id: u128, g: Seq<WebhookOutboxDlqErrorSummary>)
    requires
        m.dom().finite(),
        forall|i: int, j: int| 0 <= i < j < g.len() ==> g[i].error_pattern@ != g[j].error_pattern@,
        forall|i: int|
            0 <= i < g.len() ==> #[trigger] g[i].count == failed_ids_with_error(m, tenant_id, g[i].error_pattern@).len(),
    ensures
        covered(m, tenant_id, g).finite(),
        covered(m, tenant_id, g).len() == grouped_total(g),
        forall|id: u128|
            #[trigger] covered(m, tenant_id, g).contains(id) <==> (failed_ids(m, tenant_id).contains(id) && exists|i: int|
                0 <= i < g.len() && error_key(m[id]) == #[trigger] g[i].error_pattern@),
    decreases g.len(),
{
    if g.len() == 0 {
        assert forall|id: u128| !(#[trigger] covered(m, tenant_id, g).contains(id)) by {}
    } else {
        let p = g.drop_last();
        let last = g.last();
        assert forall|i: int, j: int| 0 <= i < j < p.len() implies p[i].error_pattern@ != p[j].error_pattern@ by {
            assert(p[i] == g[i] && p[j] == g[j]);
        }
        assert forall|i: int| 0 <= i < p.len() implies #[trigger] p[i].count == failed_ids_with_error(
            m,
            tenant_id,
            p[i].error_pattern@,
        ).len() by {
            assert(p[i] == g[i]);
        }
        lemma_covered(m, tenant_id, p);
        let a = covered(m, tenant_id, p);
        let b = failed_ids_with_error(m, tenant_id, last.error_pattern@);
        assert(b.subset_of(m.dom()));
        vstd::set_lib::lemma_set_subset_finite(m.dom(), b);
        assert(a.disjoint(b)) by {
            assert forall|id: u128| a.contains(id) implies !b.contains(id) by {
                let i = choose|i: int| 0 <= i < p.len() && error_key(m[id]) == #[trigger] p[i].error_pattern@;
                assert(p[i] == g[i]);
                assert(g[i].error_pattern@ != g[g.len() - 1].error_pattern@);
            }
        }
        vstd::set_lib::lemma_set_disjoint_lens(a, b);
        assert(g[g.len() - 1] == last);
        assert forall|id: u128| #[trigger] covered(m, tenant_id, g).contains(id) <==> (failed_ids(m, tenant_id).contains(id)
            && exists|i: int| 0 <= i < g.len() && error_key(m[id]) == #[trigger] g[i].error_pattern@) by {
            if covered(m, tenant_id, g).contains(id) {
                if a.contains(id) {
                    let i = choose|i: int| 0 <= i < p.len() && error_key(m[id]) == #[trigger] p[i].error_pattern@;
                    assert(p[i] == g[i]);
                } else {
                    assert(b.contains(id));
                    assert(error_key(m[id]) == g[g.len() - 1].error_pattern@);
                }
            }
            if failed_ids(m, tenant_id).contains(id) && exists|i: int|
                0 <= i < g.len() && error_key(m[id]) == #[trigger] g[i].error_pattern@ {
                let i = choose|i: int| 0 <= i < g.len() && error_key(m[id]) == #[trigger] g[i].error_pattern@;
                if i < g.len() - 1 {
                    assert(p[i] == g[i]);
                    assert(a.contains(id));
                } else {
                    assert(b.contains(id));
                }
            }
        }
    }
}

/// The error summary of the DLQ statistics accounts for every failed
/// record exactly once: its counts add up to the number of failed records.
pub proof fn law_error_groups_cover_failures(
    m: Map<u128, WebhookOutboxRecord>,
    tenant_id: u128,
    now: i64,
    s: WebhookOutboxDlqStats,
)
    requires
        m.dom().finite(),
        is_dlq_stats(m, tenant_id, now, s),
    ensures
        grouped_total(s.by_error_summary@) == s.total_failed,
{
    let g = s.by_error_summary@;
    assert forall|i: int, j: int| 0 <= i < j < g.len() implies g[i].error_pattern@ != g[j].error_pattern@ by {
        assert(summary_before(g[i], g[j]));
        lemma_text_lt_total(g[i].error_pattern@, g[j].error_pattern@);
        if g[i].error_pattern@ == g[j].error_pattern@ {
            assert(g[i].count == failed_ids_with_error(m, tenant_id, g[i].error_pattern@).len());
            assert(g[j].count == failed_ids_with_error(m, tenant_id, g[j].error_pattern@).len());
        }
    }
    lemma_covered(m, tenant_id, g);
    assert(covered(m, tenant_id, g) =~= failed_ids(m, tenant_id)) by {
        assert forall|id: u128| failed_ids(m, tenant_id).contains(id) implies #[trigger] covered(m, tenant_id, g).contains(id) by {
            let i = choose|i: int| 0 <= i < g.len() && #[trigger] g[i].error_pattern@ == error_key(m[id]);
            assert(0 <= i < g.len() && error_key(m[id]) == g[i].error_pattern@);
        }
    }
}

} // verus!

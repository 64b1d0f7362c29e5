//! Applying a rebase to an intent: the decisions of the endpoint, as a
//! flow that is told the outcome of each outside step and answers with the
//! next one.
//!
//! The endpoint fetches the intent head (checking the JWT tenant when
//! claims are present), both versions and the plan, applies the rebase and
//! records an audit event. A rebase blocked for manual review also records
//! a blocked audit event, creates a pending approval request and then
//! invalidates the approvals made stale by the rebase: by the classifier
//! when graph data names affected approvals, falling back to cancelling
//! every approved request whenever the targeted cancellation is not known
//! to have covered them all.

use vstd::prelude::*;
use crate::handler_common::{HandlerError, tenant_guard, guard_outcome};
use crate::ids::{uuid_string, uuid_text};
use crate::rebase_plan::{PlanFacts, RiskTier, AffectedItemsFacts, risk_class_label, risk_class_text, use_classifier, uses_classifier};

verus! {

/// The actor recorded for rebases applied through the public endpoint.
pub open spec fn apply_actor_text() -> Seq<char> {
    "external-api/unknown"@
}

/// The requestor type of approval requests created by the endpoint.
pub open spec fn apply_requestor_type_text() -> Seq<char> {
    "external-api"@
}

/// The audit events the endpoint records.
#[derive(Clone, Copy, Debug, PartialEq, Eq, Structural)]
pub enum ApplyAuditKind {
    /// Every apply outcome.
    RebaseApplied,
    /// An apply blocked for manual review.
    RebaseApplyBlocked,
}

/// The event type under which an audit event is published.
pub open spec fn audit_event_type_text(k: ApplyAuditKind) -> Seq<char> {
    match k {
        ApplyAuditKind::RebaseApplied => "RebaseApplied"@,
        ApplyAuditKind::RebaseApplyBlocked => "RebaseApplyBlocked"@,
    }
}

/// What the endpoint reads of the result of an apply.
#[derive(Debug)]
pub struct ApplyFacts {
    /// Whether the apply was blocked for manual review
    pub blocked: bool,
    /// For each graph update the apply made, whether it succeeded
    pub graph_update_successes: Vec<bool>,
}

/// The number of entries of `s` equal to `want`.
pub open spec fn count_of(s: Seq<bool>, want: bool) -> nat
    decreases s.len(),
{
    if s.len() == 0 {
        0
    } else {
        count_of(s.drop_last(), want) + if s.last() == want {
            1nat
        } else {
            0nat
        }
    }
}

/// Every graph update is counted once: as applied or as failed.
pub proof fn law_graph_updates_partition(s: Seq<bool>)
    ensures
        count_of(s, true) + count_of(s, false) == s.len(),
    decreases s.len(),
{
    if s.len() > 0 {
        law_graph_updates_partition(s.drop_last());
    }
}

/// The graph updates that succeeded and those that failed, counted.
pub fn count_graph_updates(successes: &Vec<bool>) -> (r: (usize, usize))
    ensures
        r.0 == count_of(successes@, true),
        r.1 == count_of(successes@, false),
{
    let mut applied: usize = 0;
    let mut failed: usize = 0;
    for k in 0..successes.len()
        invariant
            applied == count_of(successes@.take(k as int), true),
            failed == count_of(successes@.take(k as int), false),
            applied + failed == k,
    {
        assert(successes@.take(k as int + 1).drop_last() =~= successes@.take(k as int));
        if successes[k] {
            applied = applied + 1;
        } else {
            failed = failed + 1;
        }
    }
    assert(successes@.take(successes@.len() as int) =~= successes@);
    (applied, failed)
}

/// What the flow waits for.
#[derive(Clone, Copy, Debug, PartialEq, Eq, Structural)]
pub enum RebaseApplyStage {
    AwaitHead,
    AwaitFromVersion,
    AwaitToVersion,
    AwaitPlan,
    AwaitApply,
    AwaitAudit(ApplyAuditKind),
    AwaitPublish(ApplyAuditKind),
    AwaitApprovalCreated,
    AwaitApprovalList,
    AwaitClassification,
    AwaitTargetedCancel,
    AwaitFlatCancel,
    Done,
}

/// The next outside step of the endpoint.
#[derive(Debug)]
pub enum RebaseApplyAction<E> {
    FetchIntentHead { intent_id: u128 },
    FetchVersion { intent_id: u128, version: i32 },
    ComputePlan { intent_id: u128, from_version: i32, to_version: i32 },
    ApplyRebase { intent_id: u128, tenant_id: u128 },
    /// Record an audit event. Its payload takes these facts; the rest of it
    /// comes from the plan and the apply result.
    RecordAudit {
        kind: ApplyAuditKind,
        tenant_id: u128,
        actor_id: String,
        intent_id: u128,
        from_version: i32,
        to_version: i32,
        manual_review_required: bool,
        graph_updates_applied: usize,
        graph_updates_failed: usize,
    },
    PublishEvent { tenant_id: u128, event_type: String },
    CreateApprovalRequest {
        intent_id: u128,
        from_version: i32,
        to_version: i32,
        tenant_id: u128,
        requestor_id: String,
        requestor_type: String,
    },
    ListApprovals { intent_id: u128, tenant_id: u128 },
    /// Classify the listed approvals, given by their hyphenated ids.
    ClassifyApprovals { approval_ids: Vec<String> },
    CancelTargeted { stale_ids: Vec<String>, new_approval_id: u128 },
    CancelAllApproved {
        intent_id: u128,
        tenant_id: u128,
        actor_id: String,
        from_version: i32,
        to_version: i32,
        new_approval_id: u128,
    },
    /// Answer with the apply result; `manual_review_required` when blocked,
    /// with the graph updates that succeeded and that failed counted.
    Respond { manual_review_required: bool, graph_updates_applied: usize, graph_updates_failed: usize },
    /// Answer with an error.
    Fail { error: HandlerError<E> },
}

/// The abstract state of the flow.
pub struct RebaseApplyModel {
    pub intent_id: u128,
    pub from_version: i32,
    pub to_version: i32,
    pub claims_tenant: Option<u128>,
    pub stage: RebaseApplyStage,
    /// The tenant owning the intent, once the head is fetched.
    pub tenant_id: u128,
    /// The plan, once computed.
    pub plan: PlanFacts,
    /// Whether the apply was blocked for manual review.
    pub blocked: bool,
    /// The apply's graph updates that succeeded, counted.
    pub graph_updates_applied: nat,
    /// The apply's graph updates that failed, counted.
    pub graph_updates_failed: nat,
    /// Whether creating an approval request was attempted.
    pub approval_attempted: bool,
    /// The approval request created, if any.
    pub approval: Option<u128>,
    /// Number of stale approvals named by the classifier.
    pub stale: nat,
    /// Whether the stale approvals are known to be invalidated.
    pub settled: bool,
}

impl RebaseApplyModel {
    /// An answer is due only when no created approval request leaves stale
    /// approvals behind, and a blocked apply has attempted its approval
    /// request.
    pub open spec fn may_respond(self) -> bool {
        &&& (self.approval is Some ==> self.settled)
        &&& (self.blocked ==> self.approval_attempted)
    }

    /// What holds of the flow at each stage: an approval request exists
    /// only for a blocked apply that attempted it, the cancellation stages
    /// have one, and nothing about approvals happens before the blocked
    /// audit.
    pub open spec fn inv(self) -> bool {
        &&& (self.approval is Some ==> self.blocked && self.approval_attempted)
        &&& (self.approval_attempted ==> self.blocked)
        &&& (match self.stage {
            RebaseApplyStage::AwaitApprovalList | RebaseApplyStage::AwaitClassification
            | RebaseApplyStage::AwaitTargetedCancel | RebaseApplyStage::AwaitFlatCancel => self.approval is Some,
            RebaseApplyStage::AwaitApprovalCreated => self.approval_attempted && self.approval is None,
            RebaseApplyStage::Done => true,
            _ => !self.approval_attempted && self.approval is None,
        })
        &&& (self.stage is AwaitAudit && self.stage->AwaitAudit_0 == ApplyAuditKind::RebaseApplyBlocked
            ==> self.blocked)
        &&& (self.stage is AwaitPublish && self.stage->AwaitPublish_0 == ApplyAuditKind::RebaseApplyBlocked
            ==> self.blocked)
    }

    /// The model with a new stage.
    pub open spec fn at(self, s: RebaseApplyStage) -> RebaseApplyModel {
        RebaseApplyModel { stage: s, ..self }
    }
}

/// `a` fetches a version of the flow's intent.
pub open spec fn fetches_version<E>(a: RebaseApplyAction<E>, m: RebaseApplyModel, v: i32) -> bool {
    a == (RebaseApplyAction::<E>::FetchVersion { intent_id: m.intent_id, version: v })
}

/// `a` records the audit event `k` for the flow.
pub open spec fn records_audit<E>(a: RebaseApplyAction<E>, m: RebaseApplyModel, k: ApplyAuditKind) -> bool {
    a matches RebaseApplyAction::RecordAudit {
        kind,
        tenant_id,
        actor_id,
        intent_id,
        from_version,
        to_version,
        manual_review_required,
        graph_updates_applied,
        graph_updates_failed,
    } && kind == k && tenant_id == m.tenant_id && actor_id@ == apply_actor_text() && intent_id == m.intent_id
        && from_version == m.from_version && to_version == m.to_version && manual_review_required == m.blocked
        && graph_updates_applied == m.graph_updates_applied && graph_updates_failed == m.graph_updates_failed
}

/// `a` creates the pending approval request of a blocked apply.
pub open spec fn creates_approval<E>(a: RebaseApplyAction<E>, m: RebaseApplyModel) -> bool {
    a matches RebaseApplyAction::CreateApprovalRequest {
        intent_id,
        from_version,
        to_version,
        tenant_id,
        requestor_id,
        requestor_type,
    } && intent_id == m.intent_id && from_version == m.from_version && to_version == m.to_version
        && tenant_id == m.tenant_id && requestor_id@ == apply_actor_text() && requestor_type@
        == apply_requestor_type_text()
}

/// `a` cancels every approved request of the intent in favour of `new_id`.
pub open spec fn cancels_all<E>(a: RebaseApplyAction<E>, m: RebaseApplyModel, new_id: u128) -> bool {
    a matches RebaseApplyAction::CancelAllApproved {
        intent_id,
        tenant_id,
        actor_id,
        from_version,
        to_version,
        new_approval_id,
    } && intent_id == m.intent_id && tenant_id == m.tenant_id && actor_id@ == apply_actor_text()
        && from_version == m.from_version && to_version == m.to_version && new_approval_id == new_id
}

/// `a` answers with the apply result of `m`.
pub open spec fn responds<E>(a: RebaseApplyAction<E>, m: RebaseApplyModel) -> bool {
    a matches RebaseApplyAction::Respond { manual_review_required, graph_updates_applied, graph_updates_failed }
        && manual_review_required == m.blocked && graph_updates_applied == m.graph_updates_applied
        && graph_updates_failed == m.graph_updates_failed
}

/// What follows the audit of every apply outcome: the blocked audit for a
/// blocked apply, else the answer.
pub open spec fn after_applied_audit<E>(a: RebaseApplyAction<E>, before: RebaseApplyModel, after: RebaseApplyModel) -> bool {
    if before.blocked {
        records_audit(a, before, ApplyAuditKind::RebaseApplyBlocked) && after == before.at(
            RebaseApplyStage::AwaitAudit(ApplyAuditKind::RebaseApplyBlocked),
        )
    } else {
        responds(a, before) && after == before.at(RebaseApplyStage::Done)
    }
}

/// What follows the blocked audit: creating the approval request.
pub open spec fn after_blocked_audit<E>(a: RebaseApplyAction<E>, before: RebaseApplyModel, after: RebaseApplyModel) -> bool {
    creates_approval(a, before) && after == RebaseApplyModel {
        approval_attempted: true,
        ..before.at(RebaseApplyStage::AwaitApprovalCreated)
    }
}

/// The flow of one rebase apply request.
pub struct RebaseApplyFlow {
    intent_id: u128,
    from_version: i32,
    to_version: i32,
    claims_tenant: Option<u128>,
    stage: RebaseApplyStage,
    tenant_id: u128,
    plan: PlanFacts,
    blocked: bool,
    graph_updates_applied: usize,
    graph_updates_failed: usize,
    approval_attempted: bool,
    approval: Option<u128>,
    stale: usize,
    settled: bool,
}

impl View for RebaseApplyFlow {
    type V = RebaseApplyModel;

    closed spec fn view(&self) -> RebaseApplyModel {
        RebaseApplyModel {
            intent_id: self.intent_id,
            from_version: self.from_version,
            to_version: self.to_version,
            claims_tenant: self.claims_tenant,
            stage: self.stage,
            tenant_id: self.tenant_id,
            plan: self.plan,
            blocked: self.blocked,
            graph_updates_applied: self.graph_updates_applied as nat,
            graph_updates_failed: self.graph_updates_failed as nat,
            approval_attempted: self.approval_attempted,
            approval: self.approval,
            stale: self.stale as nat,
            settled: self.settled,
        }
    }
}

fn actor() -> (s: String)
    ensures
        s@ == apply_actor_text(),
{
    String::from_str("external-api/unknown")
}

fn uuid_strings(ids: &Vec<u128>) -> (r: Vec<String>)
    ensures
        r@.len() == ids@.len(),
        forall|k: int| 0 <= k < ids@.len() ==> #[trigger] r@[k]@ == uuid_text(ids@[k]),
{
    let mut r: Vec<String> = Vec::new();
    for k in 0..ids.len()
        invariant
            r@.len() == k,
            forall|q: int| 0 <= q < k ==> #[trigger] r@[q]@ == uuid_text(ids@[q]),
    {
        r.push(uuid_string(ids[k]));
    }
    r
}

impl RebaseApplyFlow {
    /// Starts the flow for a request on `intent_id` from `from_version` to
    /// `to_version`; `claims_tenant` is the tenant of the JWT claims, if
    /// any. The first step fetches the intent head.
    pub fn start<E>(intent_id: u128, from_version: i32, to_version: i32, claims_tenant: Option<u128>) -> (r: (
        Self,
        RebaseApplyAction<E>,
    ))
        ensures
            r.0@.intent_id == intent_id,
            r.0@.from_version == from_version,
            r.0@.to_version == to_version,
            r.0@.claims_tenant == claims_tenant,
            r.0@.stage == RebaseApplyStage::AwaitHead,
            r.0@.inv(),
            !r.0@.blocked && !r.0@.approval_attempted && r.0@.approval is None && !r.0@.settled,
            r.1 == (RebaseApplyAction::<E>::FetchIntentHead { intent_id }),
    {
        let flow = RebaseApplyFlow {
            intent_id,
            from_version,
            to_version,
            claims_tenant,
            stage: RebaseApplyStage::AwaitHead,
            tenant_id: 0,
            plan: PlanFacts {
                risk_tier: RiskTier::Low,
                affected: AffectedItemsFacts { available: false, artifacts: 0, approvals: 0, side_effects: 0 },
            },
            blocked: false,
            graph_updates_applied: 0,
            graph_updates_failed: 0,
            approval_attempted: false,
            approval: None,
            stale: 0,
            settled: false,
        };
        (flow, RebaseApplyAction::FetchIntentHead { intent_id })
    }

    /// The stage the flow waits in.
    pub fn stage(&self) -> (s: RebaseApplyStage)
        ensures
            s == self@.stage,
    {
        self.stage
    }

    fn fail<E>(&mut self, error: HandlerError<E>) -> (a: RebaseApplyAction<E>)
        requires
            old(self)@.inv(),
        ensures
            final(self)@.inv(),
            a is Respond ==> final(self)@.may_respond(),
            final(self)@ == old(self)@.at(RebaseApplyStage::Done),
            a == (RebaseApplyAction::Fail { error }),
    {
        self.stage = RebaseApplyStage::Done;
        RebaseApplyAction::Fail { error }
    }

    /// The intent head was fetched, giving the owning tenant. A fetch error
    /// is answered as is; a JWT naming another tenant is refused; else the
    /// source version is fetched.
    pub fn on_head<E>(&mut self, head: Result<u128, E>) -> (a: RebaseApplyAction<E>)
        requires
            old(self)@.inv(),
            old(self)@.stage == RebaseApplyStage::AwaitHead,
        ensures
            final(self)@.inv(),
            a is Respond ==> final(self)@.may_respond(),
            match head {
                Err(e) => a == (RebaseApplyAction::Fail { error: HandlerError::Service(e) }) && final(self)@
                    == old(self)@.at(RebaseApplyStage::Done),
                Ok(t) => {
                    let guard: Result<(), HandlerError<E>> = match a {
                        RebaseApplyAction::Fail { error } => Err(error),
                        _ => Ok(()),
                    };
                    &&& guard_outcome("intent"@, old(self)@.claims_tenant, t, guard)
                    &&& guard is Ok ==> fetches_version(a, old(self)@, old(self)@.from_version) && final(self)@ == (RebaseApplyModel {
                        tenant_id: t,
                        ..old(self)@.at(RebaseApplyStage::AwaitFromVersion)
                    })
                    &&& guard is Err ==> final(self)@ == old(self)@.at(RebaseApplyStage::Done)
                },
            },
    {
        match head {
            Err(e) => self.fail(HandlerError::Service(e)),
            Ok(t) => {
                match tenant_guard::<E>("intent", self.claims_tenant, t) {
                    Err(error) => self.fail(error),
                    Ok(()) => {
                        self.tenant_id = t;
                        self.stage = RebaseApplyStage::AwaitFromVersion;
                        RebaseApplyAction::FetchVersion { intent_id: self.intent_id, version: self.from_version }
                    },
                }
            },
        }
    }

    /// The source version was fetched: fetch the target version; an error
    /// is answered as is.
    pub fn on_from_version<E>(&mut self, fetched: Result<(), E>) -> (a: RebaseApplyAction<E>)
        requires
            old(self)@.inv(),
            old(self)@.stage == RebaseApplyStage::AwaitFromVersion,
        ensures
            final(self)@.inv(),
            a is Respond ==> final(self)@.may_respond(),
            match fetched {
                Err(e) => a == (RebaseApplyAction::Fail { error: HandlerError::Service(e) }) && final(self)@
                    == old(self)@.at(RebaseApplyStage::Done),
                Ok(()) => fetches_version(a, old(self)@, old(self)@.to_version) && final(self)@ == old(self)@.at(RebaseApplyStage::AwaitToVersion),
            },
    {
        match fetched {
            Err(e) => self.fail(HandlerError::Service(e)),
            Ok(()) => {
                self.stage = RebaseApplyStage::AwaitToVersion;
                RebaseApplyAction::FetchVersion { intent_id: self.intent_id, version: self.to_version }
            },
        }
    }

    /// The target version was fetched: compute the plan; an error is
    /// answered as is.
    pub fn on_to_version<E>(&mut self, fetched: Result<(), E>) -> (a: RebaseApplyAction<E>)
        requires
            old(self)@.inv(),
            old(self)@.stage == RebaseApplyStage::AwaitToVersion,
        ensures
            final(self)@.inv(),
            a is Respond ==> final(self)@.may_respond(),
            match fetched {
                Err(e) => a == (RebaseApplyAction::Fail { error: HandlerError::Service(e) }) && final(self)@
                    == old(self)@.at(RebaseApplyStage::Done),
                Ok(()) => a == (RebaseApplyAction::<E>::ComputePlan {
                    intent_id: old(self)@.intent_id,
                    from_version: old(self)@.from_version,
                    to_version: old(self)@.to_version,
                }) && final(self)@ == old(self)@.at(RebaseApplyStage::AwaitPlan),
            },
    {
        match fetched {
            Err(e) => self.fail(HandlerError::Service(e)),
            Ok(()) => {
                self.stage = RebaseApplyStage::AwaitPlan;
                RebaseApplyAction::ComputePlan {
                    intent_id: self.intent_id,
                    from_version: self.from_version,
                    to_version: self.to_version,
                }
            },
        }
    }

    /// The plan was computed: apply the rebase for the owning tenant; an
    /// error is answered as is.
    pub fn on_plan<E>(&mut self, plan: Result<PlanFacts, E>) -> (a: RebaseApplyAction<E>)
        requires
            old(self)@.inv(),
            old(self)@.stage == RebaseApplyStage::AwaitPlan,
        ensures
            final(self)@.inv(),
            a is Respond ==> final(self)@.may_respond(),
            match plan {
                Err(e) => a == (RebaseApplyAction::Fail { error: HandlerError::Service(e) }) && final(self)@
                    == old(self)@.at(RebaseApplyStage::Done),
                Ok(p) => a == (RebaseApplyAction::<E>::ApplyRebase {
                    intent_id: old(self)@.intent_id,
                    tenant_id: old(self)@.tenant_id,
                }) && final(self)@ == (RebaseApplyModel {
                    plan: p,
                    ..old(self)@.at(RebaseApplyStage::AwaitApply)
                }),
            },
    {
        match plan {
            Err(e) => self.fail(HandlerError::Service(e)),
            Ok(p) => {
                self.plan = p;
                self.stage = RebaseApplyStage::AwaitApply;
                RebaseApplyAction::ApplyRebase { intent_id: self.intent_id, tenant_id: self.tenant_id }
            },
        }
    }

    /// The risk class of the plan, for the duration metric.
    pub fn risk_class(&self) -> (s: &'static str)
        ensures
            s@ == risk_class_text(self@.plan.risk_tier),
    {
        risk_class_label(self.plan.risk_tier)
    }

    /// The rebase was applied with the result `applied`, blocked for
    /// manual review or not. Every outcome is audited, with the apply's
    /// graph updates counted; an error is answered as is.
    pub fn on_applied<E>(&mut self, applied: Result<ApplyFacts, E>) -> (a: RebaseApplyAction<E>)
        requires
            old(self)@.inv(),
            old(self)@.stage == RebaseApplyStage::AwaitApply,
        ensures
            final(self)@.inv(),
            a is Respond ==> final(self)@.may_respond(),
            match applied {
                Err(e) => a == (RebaseApplyAction::Fail { error: HandlerError::Service(e) }) && final(self)@
                    == old(self)@.at(RebaseApplyStage::Done),
                Ok(f) => {
                    let m = RebaseApplyModel {
                        blocked: f.blocked,
                        graph_updates_applied: count_of(f.graph_update_successes@, true),
                        graph_updates_failed: count_of(f.graph_update_successes@, false),
                        ..old(self)@
                    };
                    records_audit(a, m, ApplyAuditKind::RebaseApplied) && final(self)@ == m.at(
                        RebaseApplyStage::AwaitAudit(ApplyAuditKind::RebaseApplied),
                    )
                },
            },
    {
        match applied {
            Err(e) => self.fail(HandlerError::Service(e)),
            Ok(f) => {
                let (applied_count, failed_count) = count_graph_updates(&f.graph_update_successes);
                self.blocked = f.blocked;
                self.graph_updates_applied = applied_count;
                self.graph_updates_failed = failed_count;
                self.stage = RebaseApplyStage::AwaitAudit(ApplyAuditKind::RebaseApplied);
                self.audit(ApplyAuditKind::RebaseApplied)
            },
        }
    }

    fn audit<E>(&self, kind: ApplyAuditKind) -> (a: RebaseApplyAction<E>)
        ensures
            records_audit(a, self@, kind),
    {
        RebaseApplyAction::RecordAudit {
            kind,
            tenant_id: self.tenant_id,
            actor_id: actor(),
            intent_id: self.intent_id,
            from_version: self.from_version,
            to_version: self.to_version,
            manual_review_required: self.blocked,
            graph_updates_applied: self.graph_updates_applied,
            graph_updates_failed: self.graph_updates_failed,
        }
    }

    fn answer<E>(&self) -> (a: RebaseApplyAction<E>)
        ensures
            responds(a, self@),
    {
        RebaseApplyAction::Respond {
            manual_review_required: self.blocked,
            graph_updates_applied: self.graph_updates_applied,
            graph_updates_failed: self.graph_updates_failed,
        }
    }

    fn after_audit<E>(&mut self, kind: ApplyAuditKind) -> (a: RebaseApplyAction<E>)
        requires
            old(self)@.inv(),
            old(self)@.stage == RebaseApplyStage::AwaitAudit(kind) || old(self)@.stage
                == RebaseApplyStage::AwaitPublish(kind),
        ensures
            final(self)@.inv(),
            a is Respond ==> final(self)@.may_respond(),
            kind == ApplyAuditKind::RebaseApplied ==> after_applied_audit(a, old(self)@, final(self)@),
            kind == ApplyAuditKind::RebaseApplyBlocked ==> after_blocked_audit(a, old(self)@, final(self)@),
    {
        match kind {
            ApplyAuditKind::RebaseApplied => {
                if self.blocked {
                    self.stage = RebaseApplyStage::AwaitAudit(ApplyAuditKind::RebaseApplyBlocked);
                    self.audit(ApplyAuditKind::RebaseApplyBlocked)
                } else {
                    self.stage = RebaseApplyStage::Done;
                    self.answer()
                }
            },
            ApplyAuditKind::RebaseApplyBlocked => {
                self.approval_attempted = true;
                self.stage = RebaseApplyStage::AwaitApprovalCreated;
                RebaseApplyAction::CreateApprovalRequest {
                    intent_id: self.intent_id,
                    from_version: self.from_version,
                    to_version: self.to_version,
                    tenant_id: self.tenant_id,
                    requestor_id: actor(),
                    requestor_type: String::from_str("external-api"),
                }
            },
        }
    }

    /// An audit event was recorded (`recorded`) or failed to record. A
    /// recorded event is published; an audit failure skips the publication
    /// and the flow goes on.
    pub fn on_audit_recorded<E>(&mut self, recorded: bool) -> (a: RebaseApplyAction<E>)
        requires
            old(self)@.inv(),
            old(self)@.stage is AwaitAudit,
        ensures
            final(self)@.inv(),
            a is Respond ==> final(self)@.may_respond(),
            ({
                let kind = old(self)@.stage->AwaitAudit_0;
                if recorded {
                    &&& a matches RebaseApplyAction::PublishEvent { tenant_id, event_type } && tenant_id == old(self)@.tenant_id && event_type@ == audit_event_type_text(kind)
                    &&& final(self)@ == old(self)@.at(RebaseApplyStage::AwaitPublish(kind))
                } else if kind == ApplyAuditKind::RebaseApplied {
                    after_applied_audit(a, old(self)@, final(self)@)
                } else {
                    after_blocked_audit(a, old(self)@, final(self)@)
                }
            }),
    {
        let kind = match self.stage {
            RebaseApplyStage::AwaitAudit(k) => k,
            _ => ApplyAuditKind::RebaseApplied,
        };
        if recorded {
            self.stage = RebaseApplyStage::AwaitPublish(kind);
            let event_type = match kind {
                ApplyAuditKind::RebaseApplied => String::from_str("RebaseApplied"),
                ApplyAuditKind::RebaseApplyBlocked => String::from_str("RebaseApplyBlocked"),
            };
            RebaseApplyAction::PublishEvent { tenant_id: self.tenant_id, event_type }
        } else {
            self.after_audit(kind)
        }
    }

    /// The audit event was published; the flow goes on.
    pub fn on_published<E>(&mut self) -> (a: RebaseApplyAction<E>)
        requires
            old(self)@.inv(),
            old(self)@.stage is AwaitPublish,
        ensures
            final(self)@.inv(),
            a is Respond ==> final(self)@.may_respond(),
            old(self)@.stage->AwaitPublish_0 == ApplyAuditKind::RebaseApplied ==> after_applied_audit(
                a,
                old(self)@,
                final(self)@,
            ),
            old(self)@.stage->AwaitPublish_0 == ApplyAuditKind::RebaseApplyBlocked ==> after_blocked_audit(
                a,
                old(self)@,
                final(self)@,
            ),
    {
        let kind = match self.stage {
            RebaseApplyStage::AwaitPublish(k) => k,
            _ => ApplyAuditKind::RebaseApplied,
        };
        self.after_audit(kind)
    }

    /// The pending approval request was created with id `created`, or its
    /// creation failed. Without a request nothing is cancelled and the
    /// apply result is answered; with one, the approvals are listed for the
    /// classifier when the plan allows it, else every approved request is
    /// cancelled.
    pub fn on_approval_created<F>(&mut self, created: Result<u128, F>) -> (a: RebaseApplyAction<F>)
        requires
            old(self)@.inv(),
            old(self)@.stage == RebaseApplyStage::AwaitApprovalCreated,
        ensures
            final(self)@.inv(),
            a is Respond ==> final(self)@.may_respond(),
            match created {
                Err(_) => responds(a, old(self)@) && final(self)@ == old(self)@.at(RebaseApplyStage::Done),
                Ok(id) => {
                    let with_id = RebaseApplyModel { approval: Some(id), ..old(self)@ };
                    if uses_classifier(old(self)@.plan) {
                        a == (RebaseApplyAction::<F>::ListApprovals {
                            intent_id: old(self)@.intent_id,
                            tenant_id: old(self)@.tenant_id,
                        }) && final(self)@ == with_id.at(RebaseApplyStage::AwaitApprovalList)
                    } else {
                        cancels_all(a, old(self)@, id) && final(self)@ == with_id.at(
                            RebaseApplyStage::AwaitFlatCancel,
                        )
                    }
                },
            },
    {
        match created {
            Err(_) => {
                self.stage = RebaseApplyStage::Done;
                self.answer()
            },
            Ok(id) => {
                self.approval = Some(id);
                if use_classifier(&self.plan) {
                    self.stage = RebaseApplyStage::AwaitApprovalList;
                    RebaseApplyAction::ListApprovals { intent_id: self.intent_id, tenant_id: self.tenant_id }
                } else {
                    self.stage = RebaseApplyStage::AwaitFlatCancel;
                    self.cancel_all()
                }
            },
        }
    }

    fn cancel_all<E>(&mut self) -> (a: RebaseApplyAction<E>)
        requires
            old(self)@.inv(),
            old(self)@.approval is Some,
        ensures
            final(self)@.inv(),
            a is Respond ==> final(self)@.may_respond(),
            cancels_all(a, old(self)@, old(self)@.approval->0),
            final(self)@ == old(self)@.at(RebaseApplyStage::AwaitFlatCancel),
    {
        self.stage = RebaseApplyStage::AwaitFlatCancel;
        let new_approval_id = match self.approval {
            Some(id) => id,
            None => 0,
        };
        RebaseApplyAction::CancelAllApproved {
            intent_id: self.intent_id,
            tenant_id: self.tenant_id,
            actor_id: actor(),
            from_version: self.from_version,
            to_version: self.to_version,
            new_approval_id,
        }
    }

    /// The current approvals of the intent were listed: hand their ids to
    /// the classifier; a listing error falls back to cancelling every
    /// approved request.
    pub fn on_approvals_listed<F>(&mut self, listed: Result<Vec<u128>, F>) -> (a: RebaseApplyAction<F>)
        requires
            old(self)@.inv(),
            old(self)@.stage == RebaseApplyStage::AwaitApprovalList,
            old(self)@.approval is Some,
        ensures
            final(self)@.inv(),
            a is Respond ==> final(self)@.may_respond(),
            match listed {
                Err(_) => cancels_all(a, old(self)@, old(self)@.approval->0) && final(self)@ == old(self)@.at(RebaseApplyStage::AwaitFlatCancel),
                Ok(ids) => {
                    &&& a matches RebaseApplyAction::ClassifyApprovals { approval_ids } && approval_ids@.len()
                        == ids@.len() && forall|k: int|
                        0 <= k < ids@.len() ==> #[trigger] approval_ids@[k]@ == uuid_text(ids@[k])
                    &&& final(self)@ == old(self)@.at(RebaseApplyStage::AwaitClassification)
                },
            },
    {
        match listed {
            Err(_) => self.cancel_all(),
            Ok(ids) => {
                self.stage = RebaseApplyStage::AwaitClassification;
                RebaseApplyAction::ClassifyApprovals { approval_ids: uuid_strings(&ids) }
            },
        }
    }

    /// The classifier named the stale approvals: cancel exactly those, or,
    /// when it named none, every approved request.
    pub fn on_classified<F>(&mut self, stale_ids: Vec<String>) -> (a: RebaseApplyAction<F>)
        requires
            old(self)@.inv(),
            old(self)@.stage == RebaseApplyStage::AwaitClassification,
            old(self)@.approval is Some,
        ensures
            final(self)@.inv(),
            a is Respond ==> final(self)@.may_respond(),
            if stale_ids@.len() == 0 {
                cancels_all(a, old(self)@, old(self)@.approval->0) && final(self)@ == old(self)@.at(
                    RebaseApplyStage::AwaitFlatCancel,
                )
            } else {
                a == (RebaseApplyAction::<F>::CancelTargeted {
                    stale_ids,
                    new_approval_id: old(self)@.approval->0,
                }) && final(self)@ == (RebaseApplyModel {
                    stale: stale_ids@.len(),
                    ..old(self)@.at(RebaseApplyStage::AwaitTargetedCancel)
                })
            },
    {
        if stale_ids.len() == 0 {
            self.cancel_all()
        } else {
            self.stale = stale_ids.len();
            self.stage = RebaseApplyStage::AwaitTargetedCancel;
            let new_approval_id = match self.approval {
                Some(id) => id,
                None => 0,
            };
            RebaseApplyAction::CancelTargeted { stale_ids, new_approval_id }
        }
    }

    /// The targeted cancellation cancelled `cancelled` approvals. Fewer
    /// than the classifier named falls back to cancelling every approved
    /// request; otherwise the apply result is answered.
    pub fn on_targeted_cancelled<F>(&mut self, cancelled: usize) -> (a: RebaseApplyAction<F>)
        requires
            old(self)@.inv(),
            old(self)@.stage == RebaseApplyStage::AwaitTargetedCancel,
            old(self)@.approval is Some,
        ensures
            final(self)@.inv(),
            a is Respond ==> final(self)@.may_respond(),
            if cancelled < old(self)@.stale {
                cancels_all(a, old(self)@, old(self)@.approval->0) && final(self)@ == old(self)@.at(
                    RebaseApplyStage::AwaitFlatCancel,
                )
            } else {
                responds(a, old(self)@) && final(self)@ == (RebaseApplyModel {
                    settled: true,
                    ..old(self)@.at(RebaseApplyStage::Done)
                })
            },
    {
        if cancelled < self.stale {
            self.cancel_all()
        } else {
            self.settled = true;
            self.stage = RebaseApplyStage::Done;
            self.answer()
        }
    }

    /// Every approved request was cancelled; answer with the apply result.
    pub fn on_flat_cancelled<F>(&mut self) -> (a: RebaseApplyAction<F>)
        requires
            old(self)@.inv(),
            old(self)@.stage == RebaseApplyStage::AwaitFlatCancel,
        ensures
            final(self)@.inv(),
            a is Respond ==> final(self)@.may_respond(),
            responds(a, old(self)@),
            final(self)@ == (RebaseApplyModel { settled: true, ..old(self)@.at(RebaseApplyStage::Done) }),
    {
        self.settled = true;
        self.stage = RebaseApplyStage::Done;
        self.answer()
    }
}

} // verus!

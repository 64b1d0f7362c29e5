use intent_api::handler_common::{outcome_label, tenant_guard, HandlerError};
use intent_api::rebase_apply::{count_graph_updates, ApplyAuditKind, ApplyFacts, RebaseApplyAction, RebaseApplyFlow, RebaseApplyStage};
use intent_api::rebase_plan::{graph_size_label, risk_class_label, use_classifier, AffectedItemsFacts, PlanFacts, RiskTier};
use intent_api::rebase_preview::{PreviewAction, PreviewFlow};
use intent_api::replay::{replay_rationale, HeadFacts, ReplayAction, ReplayFlow, ReplayOutcome, ReplayRequest};
use intent_api::simulation::{
    check_simulation_versions, select_side_effects, simulation_choice, CompensationSimulationRequest,
    RebaseSimulationQuery, SimulationAction, SimulationChoice, SimulationFlow,
};
use intent_api::trigger_reapproval::{
    CreatedApproval, ReapprovalAction, ReapprovalFlow, TriggerReapprovalRequest,
};

type SvcErr = &'static str;

fn uuid_text(id: u128) -> String {
    uuid::Uuid::from_u128(id).to_string()
}

fn mismatch(what: &str, jwt: u128, owner: u128) -> String {
    format!(
        "Tenant mismatch: JWT tenant_id ({}) does not match {} tenant_id ({})",
        uuid_text(jwt),
        what,
        uuid_text(owner)
    )
}

// -----------------------------------------------------------------------------
// Shared decisions
// -----------------------------------------------------------------------------

#[test]
fn tenant_guard_fails_closed_and_open() {
    assert!(tenant_guard::<SvcErr>("intent", None, 5).is_ok());
    assert!(tenant_guard::<SvcErr>("intent", Some(5), 5).is_ok());
    match tenant_guard::<SvcErr>("intent", Some(4), 5) {
        Err(HandlerError::Unauthorized(m)) => assert_eq!(m, mismatch("intent", 4, 5)),
        other => panic!("unexpected {:?}", other),
    }
    assert_eq!(outcome_label(true), "success");
    assert_eq!(outcome_label(false), "error");
}

#[test]
fn plan_labels() {
    let facts = |available, a, b, c| AffectedItemsFacts { available, artifacts: a, approvals: b, side_effects: c };
    assert_eq!(graph_size_label(&facts(false, 1, 1, 1)), "unknown");
    assert_eq!(graph_size_label(&facts(true, 3, 3, 3)), "small");
    assert_eq!(graph_size_label(&facts(true, 3, 3, 4)), "medium");
    assert_eq!(graph_size_label(&facts(true, 50, 49, 0)), "medium");
    assert_eq!(graph_size_label(&facts(true, 50, 50, 0)), "large");
    assert_eq!(graph_size_label(&facts(true, usize::MAX, usize::MAX, usize::MAX)), "large");
    assert_eq!(risk_class_label(RiskTier::Low), "low");
    assert_eq!(risk_class_label(RiskTier::Medium), "medium");
    assert_eq!(risk_class_label(RiskTier::High), "high");
    assert_eq!(risk_class_label(RiskTier::Critical), "critical");
    let plan = |available, approvals| PlanFacts { risk_tier: RiskTier::Low, affected: facts(available, 0, approvals, 0) };
    assert!(use_classifier(&plan(true, 1)));
    assert!(!use_classifier(&plan(true, 0)));
    assert!(!use_classifier(&plan(false, 3)));
}

// -----------------------------------------------------------------------------
// Rebase apply
// -----------------------------------------------------------------------------

fn apply_until_applied(claims: Option<u128>, plan: PlanFacts, blocked: bool) -> (RebaseApplyFlow, RebaseApplyAction<SvcErr>) {
    let (mut flow, a) = RebaseApplyFlow::start::<SvcErr>(10, 1, 2, claims);
    assert!(matches!(a, RebaseApplyAction::FetchIntentHead { intent_id: 10 }));
    let a = flow.on_head::<SvcErr>(Ok(77));
    assert!(matches!(a, RebaseApplyAction::FetchVersion { intent_id: 10, version: 1 }));
    let a = flow.on_from_version::<SvcErr>(Ok(()));
    assert!(matches!(a, RebaseApplyAction::FetchVersion { intent_id: 10, version: 2 }));
    let a = flow.on_to_version::<SvcErr>(Ok(()));
    assert!(matches!(a, RebaseApplyAction::ComputePlan { intent_id: 10, from_version: 1, to_version: 2 }));
    let a = flow.on_plan::<SvcErr>(Ok(plan));
    assert!(matches!(a, RebaseApplyAction::ApplyRebase { intent_id: 10, tenant_id: 77 }));
    let a = flow.on_applied::<SvcErr>(Ok(ApplyFacts { blocked, graph_update_successes: vec![true, false, true] }));
    (flow, a)
}

fn plan(available: bool, approvals: usize) -> PlanFacts {
    PlanFacts {
        risk_tier: RiskTier::High,
        affected: AffectedItemsFacts { available, artifacts: 0, approvals, side_effects: 0 },
    }
}

#[test]
fn rebase_apply_unblocked_audits_publishes_and_answers() {
    let (mut flow, a) = apply_until_applied(None, plan(true, 0), false);
    assert_eq!(flow.risk_class(), "high");
    match a {
        RebaseApplyAction::RecordAudit {
            kind,
            tenant_id,
            actor_id,
            intent_id,
            from_version,
            to_version,
            manual_review_required,
            graph_updates_applied,
            graph_updates_failed,
        } => {
            assert_eq!(kind, ApplyAuditKind::RebaseApplied);
            assert_eq!(tenant_id, 77);
            assert_eq!(actor_id, "external-api/unknown");
            assert_eq!(intent_id, 10);
            assert_eq!((from_version, to_version), (1, 2));
            assert!(!manual_review_required);
            assert_eq!((graph_updates_applied, graph_updates_failed), (2, 1));
        },
        other => panic!("unexpected {:?}", other),
    }
    match flow.on_audit_recorded::<SvcErr>(true) {
        RebaseApplyAction::PublishEvent { tenant_id: 77, event_type } => assert_eq!(event_type, "RebaseApplied"),
        other => panic!("unexpected {:?}", other),
    }
    assert!(matches!(
        flow.on_published::<SvcErr>(),
        RebaseApplyAction::Respond { manual_review_required: false, graph_updates_applied: 2, graph_updates_failed: 1 }
    ));
    assert_eq!(flow.stage(), RebaseApplyStage::Done);
}

#[test]
fn rebase_apply_audit_failure_skips_publication() {
    let (mut flow, _) = apply_until_applied(None, plan(true, 0), false);
    assert!(matches!(flow.on_audit_recorded::<SvcErr>(false), RebaseApplyAction::Respond { manual_review_required: false, .. }));
}

#[test]
fn rebase_apply_rejects_tenant_mismatch() {
    let (mut flow, _) = RebaseApplyFlow::start::<SvcErr>(10, 1, 2, Some(5));
    match flow.on_head::<SvcErr>(Ok(77)) {
        RebaseApplyAction::Fail { error: HandlerError::Unauthorized(m) } => assert_eq!(m, mismatch("intent", 5, 77)),
        other => panic!("unexpected {:?}", other),
    }
    assert_eq!(flow.stage(), RebaseApplyStage::Done);
}

#[test]
fn rebase_apply_service_errors_pass_through() {
    let (mut flow, _) = RebaseApplyFlow::start::<SvcErr>(10, 1, 2, None);
    assert!(matches!(flow.on_head::<SvcErr>(Err("not found")), RebaseApplyAction::Fail { error: HandlerError::Service("not found") }));
    let (mut flow, _) = RebaseApplyFlow::start::<SvcErr>(10, 1, 2, None);
    flow.on_head::<SvcErr>(Ok(1));
    flow.on_from_version::<SvcErr>(Ok(()));
    assert!(matches!(flow.on_to_version::<SvcErr>(Err("v2")), RebaseApplyAction::Fail { error: HandlerError::Service("v2") }));
}

fn blocked_until_created(p: PlanFacts) -> RebaseApplyFlow {
    let (mut flow, _) = apply_until_applied(Some(77), p, true);
    match flow.on_audit_recorded::<SvcErr>(true) {
        RebaseApplyAction::PublishEvent { event_type, .. } => assert_eq!(event_type, "RebaseApplied"),
        other => panic!("unexpected {:?}", other),
    }
    match flow.on_published::<SvcErr>() {
        RebaseApplyAction::RecordAudit {
            kind: ApplyAuditKind::RebaseApplyBlocked,
            manual_review_required: true,
            from_version: 1,
            to_version: 2,
            ..
        } => {},
        other => panic!("unexpected {:?}", other),
    }
    match flow.on_audit_recorded::<SvcErr>(false) {
        RebaseApplyAction::CreateApprovalRequest { intent_id, from_version, to_version, tenant_id, requestor_id, requestor_type } => {
            assert_eq!((intent_id, from_version, to_version, tenant_id), (10, 1, 2, 77));
            assert_eq!(requestor_id, "external-api/unknown");
            assert_eq!(requestor_type, "external-api");
        },
        other => panic!("unexpected {:?}", other),
    }
    flow
}

#[test]
fn rebase_apply_blocked_without_graph_cancels_every_approval() {
    let mut flow = blocked_until_created(plan(false, 3));
    match flow.on_approval_created::<SvcErr>(Ok(900)) {
        RebaseApplyAction::CancelAllApproved { new_approval_id: 900, tenant_id: 77, .. } => {},
        other => panic!("unexpected {:?}", other),
    }
    assert!(matches!(flow.on_flat_cancelled::<SvcErr>(), RebaseApplyAction::Respond { manual_review_required: true, .. }));
}

#[test]
fn rebase_apply_blocked_with_graph_uses_classifier() {
    let mut flow = blocked_until_created(plan(true, 2));
    assert!(matches!(flow.on_approval_created::<SvcErr>(Ok(900)), RebaseApplyAction::ListApprovals { intent_id: 10, tenant_id: 77 }));
    match flow.on_approvals_listed::<SvcErr>(Ok(vec![1, 2])) {
        RebaseApplyAction::ClassifyApprovals { approval_ids } => assert_eq!(approval_ids, vec![uuid_text(1), uuid_text(2)]),
        other => panic!("unexpected {:?}", other),
    }
    match flow.on_classified::<SvcErr>(vec![uuid_text(2)]) {
        RebaseApplyAction::CancelTargeted { stale_ids, new_approval_id: 900 } => assert_eq!(stale_ids, vec![uuid_text(2)]),
        other => panic!("unexpected {:?}", other),
    }
    assert!(matches!(flow.on_targeted_cancelled::<SvcErr>(1), RebaseApplyAction::Respond { manual_review_required: true, .. }));
}

#[test]
fn rebase_apply_targeted_shortfall_falls_back_to_flat() {
    let mut flow = blocked_until_created(plan(true, 2));
    flow.on_approval_created::<SvcErr>(Ok(900));
    flow.on_approvals_listed::<SvcErr>(Ok(vec![1, 2]));
    flow.on_classified::<SvcErr>(vec![uuid_text(1), uuid_text(2)]);
    assert!(matches!(flow.on_targeted_cancelled::<SvcErr>(1), RebaseApplyAction::CancelAllApproved { new_approval_id: 900, .. }));
    assert!(matches!(flow.on_flat_cancelled::<SvcErr>(), RebaseApplyAction::Respond { manual_review_required: true, .. }));
}

#[test]
fn rebase_apply_classifier_without_stale_ids_falls_back_to_flat() {
    let mut flow = blocked_until_created(plan(true, 2));
    flow.on_approval_created::<SvcErr>(Ok(900));
    flow.on_approvals_listed::<SvcErr>(Ok(vec![1]));
    assert!(matches!(flow.on_classified::<SvcErr>(vec![]), RebaseApplyAction::CancelAllApproved { .. }));
}

#[test]
fn rebase_apply_listing_error_falls_back_to_flat() {
    let mut flow = blocked_until_created(plan(true, 2));
    flow.on_approval_created::<SvcErr>(Ok(900));
    assert!(matches!(flow.on_approvals_listed::<SvcErr>(Err("db")), RebaseApplyAction::CancelAllApproved { .. }));
}

#[test]
fn graph_updates_are_counted_by_outcome() {
    assert_eq!(count_graph_updates(&vec![]), (0, 0));
    assert_eq!(count_graph_updates(&vec![true, true, false, true]), (3, 1));
    assert_eq!(count_graph_updates(&vec![false, false]), (0, 2));
    let all = vec![true; 7];
    let (a, f) = count_graph_updates(&all);
    assert_eq!(a + f, all.len());
}

#[test]
fn rebase_apply_failed_approval_creation_still_answers() {
    let mut flow = blocked_until_created(plan(true, 2));
    assert!(matches!(flow.on_approval_created::<SvcErr>(Err("db")), RebaseApplyAction::Respond { manual_review_required: true, .. }));
}

// -----------------------------------------------------------------------------
// Trigger re-approval
// -----------------------------------------------------------------------------

fn reapproval_request(original: &str, current: &str) -> TriggerReapprovalRequest {
    TriggerReapprovalRequest {
        intent_id: 10,
        original_version_from: 1,
        current_version_to: 2,
        original_scope_hash: original.to_string(),
        current_scope_hash: current.to_string(),
        reapproval_reason: "scope drift".to_string(),
    }
}

#[test]
fn reapproval_refused_when_scope_hashes_match() {
    let (flow, a) = ReapprovalFlow::start::<SvcErr>(reapproval_request("abc", "abc"), None, false, false);
    match a {
        ReapprovalAction::Fail { error: HandlerError::InvalidIngestRequest(m) } => {
            assert_eq!(m, "Scope hashes match — no re-approval required")
        },
        other => panic!("unexpected {:?}", other),
    }
    assert_eq!(flow.stage(), intent_api::trigger_reapproval::ReapprovalStage::Done);
}

#[test]
fn reapproval_rejects_tenant_mismatch() {
    let (mut flow, _) = ReapprovalFlow::start::<SvcErr>(reapproval_request("a", "b"), Some(5), true, true);
    match flow.on_head::<SvcErr>(Ok(77)) {
        ReapprovalAction::Fail { error: HandlerError::Unauthorized(m) } => assert_eq!(m, mismatch("intent", 5, 77)),
        other => panic!("unexpected {:?}", other),
    }
}

#[test]
fn reapproval_missing_intent_passes_error() {
    let (mut flow, _) = ReapprovalFlow::start::<SvcErr>(reapproval_request("a", "b"), None, false, false);
    assert!(matches!(flow.on_head::<SvcErr>(Err("not found")), ReapprovalAction::Fail { error: HandlerError::Service("not found") }));
}

#[test]
fn reapproval_without_transaction_creates_cancels_audits_answers() {
    let (mut flow, _) = ReapprovalFlow::start::<SvcErr>(reapproval_request("a", "b"), None, true, true);
    match flow.on_head::<SvcErr>(Ok(77)) {
        ReapprovalAction::CreateApproval { in_tx: false, intent_id: 10, version_from: 1, version_to: 2, tenant_id: 77, requestor_id, requestor_type, decision_class } => {
            assert_eq!(requestor_id, "external-api/trigger-reapproval");
            assert_eq!(requestor_type, "external-api");
            assert_eq!(decision_class, "ScopeChange");
        },
        other => panic!("unexpected {:?}", other),
    }
    let created = CreatedApproval { id: 900, status: "Pending".to_string() };
    match flow.on_created::<SvcErr>(Ok(created)) {
        ReapprovalAction::CancelAllApproved { new_approval_id: 900, decision_class, .. } => assert_eq!(decision_class, "ScopeChange"),
        other => panic!("unexpected {:?}", other),
    }
    match flow.on_flat_cancelled::<SvcErr>() {
        ReapprovalAction::RecordAudit {
            approval_request_id: 900,
            tenant_id: 77,
            intent_id: 10,
            intent_version_from: 1,
            intent_version_to: 2,
            decision_class,
            reapproval_reason,
            original_scope_hash,
            current_scope_hash,
            ..
        } => {
            assert_eq!(decision_class, "ScopeChange");
            assert_eq!(reapproval_reason, "scope drift");
            assert_eq!((original_scope_hash.as_str(), current_scope_hash.as_str()), ("a", "b"));
        },
        other => panic!("unexpected {:?}", other),
    }
    match flow.on_audit_recorded::<SvcErr>(true) {
        ReapprovalAction::PublishEvent {
            event_type,
            tenant_id: 77,
            approval_request_id: 900,
            intent_id: 10,
            intent_version_from: 1,
            intent_version_to: 2,
            reason,
        } => {
            assert_eq!(event_type, "ApprovalRequested");
            assert_eq!(reason, "scope drift");
        },
        other => panic!("unexpected {:?}", other),
    }
    match flow.on_published::<SvcErr>() {
        ReapprovalAction::Respond { response } => {
            assert_eq!(response.approval_request_id, 900);
            assert_eq!(response.intent_id, 10);
            assert_eq!(response.intent_version_from, 1);
            assert_eq!(response.intent_version_to, 2);
            assert_eq!(response.status, "Pending");
            assert!(response.notification_intent);
            assert_eq!(response.reason, "scope drift");
        },
        other => panic!("unexpected {:?}", other),
    }
}

#[test]
fn reapproval_with_transaction_runs_create_cancel_commit() {
    let (mut flow, _) = ReapprovalFlow::start::<SvcErr>(reapproval_request("a", "b"), Some(77), true, true);
    assert!(matches!(flow.on_head::<SvcErr>(Ok(77)), ReapprovalAction::BeginTenantTx { tenant_id: 77 }));
    assert!(matches!(flow.on_tx_begun::<SvcErr>(Ok(())), ReapprovalAction::CreateApproval { in_tx: true, .. }));
    let created = CreatedApproval { id: 900, status: "Pending".to_string() };
    match flow.on_tx_created::<SvcErr>(Ok(created)) {
        ReapprovalAction::CancelApprovedInTx { reason, actor_id, .. } => {
            assert_eq!(reason, format!("Superseded by new approval request {} due to scope change", uuid_text(900)));
            assert_eq!(actor_id, "external-api/trigger-reapproval");
        },
        other => panic!("unexpected {:?}", other),
    }
    assert!(matches!(flow.on_tx_cancelled::<SvcErr>(Ok(2)), ReapprovalAction::CommitTx));
    assert!(matches!(flow.on_tx_committed::<SvcErr>(Ok(())), ReapprovalAction::RecordAudit { .. }));
    assert!(matches!(flow.on_audit_recorded::<SvcErr>(false), ReapprovalAction::Respond { .. }));
}

#[test]
fn reapproval_transaction_errors() {
    let (mut flow, _) = ReapprovalFlow::start::<SvcErr>(reapproval_request("a", "b"), Some(77), true, true);
    flow.on_head::<SvcErr>(Ok(77));
    match flow.on_tx_begun::<SvcErr>(Err("pool closed".to_string())) {
        ReapprovalAction::Fail { error: HandlerError::Internal(m) } => {
            assert_eq!(m, "trigger_reapproval: failed to begin RLS transaction: pool closed")
        },
        other => panic!("unexpected {:?}", other),
    }
    let (mut flow, _) = ReapprovalFlow::start::<SvcErr>(reapproval_request("a", "b"), Some(77), true, true);
    flow.on_head::<SvcErr>(Ok(77));
    flow.on_tx_begun::<SvcErr>(Ok(()));
    match flow.on_tx_created::<SvcErr>(Err("dup".to_string())) {
        ReapprovalAction::Fail { error: HandlerError::StorageError(m) } => {
            assert_eq!(m, "trigger_reapproval: RLS approval creation failed: dup")
        },
        other => panic!("unexpected {:?}", other),
    }
}

#[test]
fn reapproval_without_sql_repo_takes_direct_path() {
    let (mut flow, _) = ReapprovalFlow::start::<SvcErr>(reapproval_request("a", "b"), Some(77), true, false);
    assert!(matches!(flow.on_head::<SvcErr>(Ok(77)), ReapprovalAction::CreateApproval { in_tx: false, .. }));
}

// -----------------------------------------------------------------------------
// Replay
// -----------------------------------------------------------------------------

#[test]
fn replay_with_claims_checks_tenant_then_replays() {
    let req = ReplayRequest { from_version: None, to_version: 2, checkpoint_id: None };
    let (mut flow, a) = ReplayFlow::start::<SvcErr>(10, req, Some(77));
    assert!(matches!(a, ReplayAction::FetchIntentHead { intent_id: 10 }));
    let a = flow.on_head::<SvcErr>(Ok(HeadFacts { tenant_id: 77, version_number: 1 }));
    assert!(matches!(a, ReplayAction::Replay { intent_id: 10, tenant_id: 77, from_version: 1, to_version: 2, checkpoint_id: None }));
    match flow.on_replayed::<SvcErr>(Ok(outcome())) {
        ReplayAction::RecordAudit {
            actor_id,
            initiated_via,
            rationale,
            from_version: 1,
            to_version: 2,
            checkpoint_id: Some(900),
            checkpoint_selection_outcome,
            ..
        } => {
            assert_eq!(actor_id, "external-api/replay");
            assert_eq!(initiated_via, "post-intents-intent-id-replay");
            assert_eq!(rationale, "Bounded replay initiated from v1 to v2 via public replay endpoint");
            assert_eq!(checkpoint_selection_outcome, "latest_active");
        },
        other => panic!("unexpected {:?}", other),
    }
    assert!(matches!(flow.on_audit_recorded::<SvcErr>(true), ReplayAction::PublishEvent { .. }));
    match flow.on_published::<SvcErr>() {
        ReplayAction::Respond { response } => {
            assert_eq!(response.intent_id, 10);
            assert_eq!(response.from_version, 1);
            assert_eq!(response.to_version, 2);
            assert_eq!(response.aligned_checkpoint_id, Some(900));
            assert_eq!(response.checkpoint_selection_outcome, "latest_active");
            assert_eq!(response.runtime_execution_status, "signaled");
            assert!(response.signal_sent);
            assert!(response.replay_attempted);
            assert!(!response.replay_completed);
        },
        other => panic!("unexpected {:?}", other),
    }
}

fn outcome() -> ReplayOutcome {
    ReplayOutcome {
        aligned_checkpoint_id: Some(900),
        checkpoint_selection_outcome: "latest_active".to_string(),
        runtime_execution_status: "signaled".to_string(),
        signal_sent: true,
        replay_attempted: true,
        replay_completed: false,
    }
}

#[test]
fn replay_answers_at_once_when_audit_fails() {
    let req = ReplayRequest { from_version: Some(2), to_version: 3, checkpoint_id: None };
    let (mut flow, _) = ReplayFlow::start::<SvcErr>(10, req, Some(77));
    flow.on_head::<SvcErr>(Ok(HeadFacts { tenant_id: 77, version_number: 9 }));
    flow.on_replayed::<SvcErr>(Ok(outcome()));
    match flow.on_audit_recorded::<SvcErr>(false) {
        ReplayAction::Respond { response } => {
            assert_eq!((response.from_version, response.to_version), (2, 3));
            assert_eq!(response.runtime_execution_status, "signaled");
        },
        other => panic!("unexpected {:?}", other),
    }
}

#[test]
fn replay_rejects_tenant_mismatch() {
    let req = ReplayRequest { from_version: None, to_version: 2, checkpoint_id: None };
    let (mut flow, _) = ReplayFlow::start::<SvcErr>(10, req, Some(5));
    match flow.on_head::<SvcErr>(Ok(HeadFacts { tenant_id: 77, version_number: 1 })) {
        ReplayAction::Fail { error: HandlerError::Unauthorized(m) } => {
            assert!(m.contains("Tenant mismatch"));
            assert_eq!(m, mismatch("intent", 5, 77));
        },
        other => panic!("unexpected {:?}", other),
    }
}

#[test]
fn replay_without_claims_checks_versions() {
    let req = ReplayRequest { from_version: Some(3), to_version: 5, checkpoint_id: Some(42) };
    let (mut flow, _) = ReplayFlow::start::<SvcErr>(10, req, None);
    assert!(matches!(flow.on_head::<SvcErr>(Ok(HeadFacts { tenant_id: 77, version_number: 9 })), ReplayAction::FetchVersion { version: 5, .. }));
    assert!(matches!(flow.on_to_version::<SvcErr>(Ok(())), ReplayAction::FetchVersion { version: 3, .. }));
    assert!(matches!(flow.on_from_version::<SvcErr>(Ok(())), ReplayAction::Replay { from_version: 3, to_version: 5, checkpoint_id: Some(42), .. }));
    assert!(matches!(flow.on_replayed::<SvcErr>(Err("runtime")), ReplayAction::Fail { error: HandlerError::Service("runtime") }));

    let req = ReplayRequest { from_version: None, to_version: 5, checkpoint_id: None };
    let (mut flow, _) = ReplayFlow::start::<SvcErr>(10, req, None);
    flow.on_head::<SvcErr>(Ok(HeadFacts { tenant_id: 77, version_number: 4 }));
    assert!(matches!(flow.on_to_version::<SvcErr>(Ok(())), ReplayAction::Replay { from_version: 4, .. }));
}

#[test]
fn replay_rationale_texts() {
    assert_eq!(replay_rationale(-1, 0), "Bounded replay initiated from v-1 to v0 via public replay endpoint");
    assert_eq!(replay_rationale(12, 345), "Bounded replay initiated from v12 to v345 via public replay endpoint");
}

// -----------------------------------------------------------------------------
// Simulation
// -----------------------------------------------------------------------------

fn version_error(from: i32, to: i32) -> Option<String> {
    match check_simulation_versions::<SvcErr>(from, to) {
        Ok(()) => None,
        Err(HandlerError::InvalidIntentVersion(m)) => Some(m),
        Err(other) => panic!("unexpected {:?}", other),
    }
}

#[test]
fn simulation_version_checks() {
    assert_eq!(version_error(1, 2), None);
    assert_eq!(version_error(0, 2).unwrap(), "from_version (0) must be >= 1");
    assert_eq!(version_error(-1, 2).unwrap(), "from_version (-1) must be >= 1");
    assert_eq!(version_error(1, 0).unwrap(), "to_version (0) must be >= 1");
    assert_eq!(version_error(2, 1).unwrap(), "from_version (2) must be less than to_version (1)");
    assert_eq!(version_error(3, 3).unwrap(), "from_version (3) must be less than to_version (3)");
}

#[test]
fn simulation_modes() {
    assert_eq!(simulation_choice(Some("stochastic"), Some(42)), SimulationChoice::Stochastic { seed: Some(42) });
    assert_eq!(simulation_choice(Some("stochastic"), None), SimulationChoice::Stochastic { seed: None });
    assert_eq!(simulation_choice(Some("deterministic"), Some(1)), SimulationChoice::Deterministic);
    assert_eq!(simulation_choice(Some("invalid_mode"), None), SimulationChoice::Deterministic);
    assert_eq!(simulation_choice(Some("Stochastic"), None), SimulationChoice::Deterministic);
    assert_eq!(simulation_choice(None, Some(3)), SimulationChoice::Deterministic);
}

#[test]
fn side_effect_selection() {
    assert_eq!(select_side_effects(&vec![5, 6, 7], None), vec![0, 1, 2]);
    assert_eq!(select_side_effects(&vec![5, 6, 7, 5], Some(&vec![5, 9])), vec![0, 3]);
    assert!(select_side_effects(&vec![5, 6], Some(&vec![])).is_empty());
    assert!(select_side_effects(&vec![], None).is_empty());
}

#[test]
fn rebase_simulation_flow() {
    let q = RebaseSimulationQuery { tenant_id: 3, from_version: 1, to_version: 2, mode: Some("stochastic".to_string()), seed: Some(42) };
    let (mut flow, a) = SimulationFlow::start_rebase::<SvcErr>(10, q);
    assert!(matches!(a, SimulationAction::FetchIntentHead { intent_id: 10 }));
    assert!(matches!(flow.on_head::<SvcErr>(Ok(())), SimulationAction::ListSideEffects { intent_id: 10, tenant_id: 3 }));
    match flow.on_side_effects::<SvcErr>(Ok(vec![])) {
        SimulationAction::Simulate { choice, selected, from_version: 1, to_version: 2, .. } => {
            assert_eq!(choice, SimulationChoice::Stochastic { seed: Some(42) });
            assert!(selected.is_empty());
        },
        other => panic!("unexpected {:?}", other),
    }
    assert!(matches!(flow.on_simulated::<SvcErr>(Ok(())), SimulationAction::Respond));
}

#[test]
fn rebase_simulation_refuses_reversed_versions_after_head() {
    let q = RebaseSimulationQuery { tenant_id: 3, from_version: 2, to_version: 1, mode: None, seed: None };
    let (mut flow, _) = SimulationFlow::start_rebase::<SvcErr>(10, q);
    match flow.on_head::<SvcErr>(Ok(())) {
        SimulationAction::Fail { error: HandlerError::InvalidIntentVersion(m) } => {
            assert_eq!(m, "from_version (2) must be less than to_version (1)")
        },
        other => panic!("unexpected {:?}", other),
    }
    let q = RebaseSimulationQuery { tenant_id: 3, from_version: 1, to_version: 2, mode: None, seed: None };
    let (mut flow, _) = SimulationFlow::start_rebase::<SvcErr>(10, q);
    assert!(matches!(flow.on_head::<SvcErr>(Err("missing")), SimulationAction::Fail { error: HandlerError::Service("missing") }));
}

#[test]
fn simulation_run_guards_request_tenant_and_filters() {
    let req = || CompensationSimulationRequest {
        intent_id: 10,
        tenant_id: 3,
        from_version: 1,
        to_version: 2,
        mode: None,
        seed: None,
        side_effect_ids: Some(vec![8]),
    };
    let (_, a) = SimulationFlow::start_run::<SvcErr>(req(), Some(4));
    match a {
        SimulationAction::Fail { error: HandlerError::Unauthorized(m) } => assert_eq!(m, mismatch("request", 4, 3)),
        other => panic!("unexpected {:?}", other),
    }
    let (mut flow, a) = SimulationFlow::start_run::<SvcErr>(req(), Some(3));
    assert!(matches!(a, SimulationAction::FetchIntentHead { intent_id: 10 }));
    flow.on_head::<SvcErr>(Ok(()));
    match flow.on_side_effects::<SvcErr>(Ok(vec![7, 8, 9])) {
        SimulationAction::Simulate { choice: SimulationChoice::Deterministic, selected, .. } => assert_eq!(selected, vec![1]),
        other => panic!("unexpected {:?}", other),
    }
}

// -----------------------------------------------------------------------------
// Rebase preview
// -----------------------------------------------------------------------------

#[test]
fn rebase_preview_flow() {
    let (mut flow, a) = PreviewFlow::start::<SvcErr>(10, 1, 2, Some(77));
    assert!(matches!(a, PreviewAction::FetchIntentHead { intent_id: 10 }));
    assert!(matches!(flow.on_head::<SvcErr>(Ok(77)), PreviewAction::ComputePlan { intent_id: 10, from_version: 1, to_version: 2 }));
    let facts = AffectedItemsFacts { available: true, artifacts: 12, approvals: 0, side_effects: 0 };
    assert!(matches!(flow.on_plan::<SvcErr>(Ok(facts)), PreviewAction::FetchVersion { version: 1, .. }));
    assert!(matches!(flow.on_from_version::<SvcErr>(Ok(())), PreviewAction::FetchVersion { version: 2, .. }));
    assert!(matches!(flow.on_to_version::<SvcErr>(Ok(())), PreviewAction::Respond { graph_size: "medium" }));
}

#[test]
fn rebase_preview_rejects_tenant_mismatch_and_passes_errors() {
    let (mut flow, _) = PreviewFlow::start::<SvcErr>(10, 1, 2, Some(5));
    match flow.on_head::<SvcErr>(Ok(77)) {
        PreviewAction::Fail { error: HandlerError::Unauthorized(m) } => assert_eq!(m, mismatch("intent", 5, 77)),
        other => panic!("unexpected {:?}", other),
    }
    let (mut flow, _) = PreviewFlow::start::<SvcErr>(10, 2, 1, None);
    flow.on_head::<SvcErr>(Ok(77));
    assert!(matches!(flow.on_plan::<SvcErr>(Err("bad order")), PreviewAction::Fail { error: HandlerError::Service("bad order") }));
}

use intent_api::jwt_auth::{jwt_auth_decision, token_rejected, unauthorized_response, AuthDecision};
use intent_api::compensation_view::{
    format_action_decision, format_compensation_status, format_coordination_status, format_error_severity,
    format_feasibility, format_feasibility_risk, format_gate_status, format_retry_exhaustion_risk, format_run_status,
    format_strategy_severity, format_strategy_type, CompensationFeasibility, CompensationStatus, CoordinationStatus,
    CoordinationSummary, CoordinationSummaryResponse, ErrorClassification, ErrorSeverity, OrchestrationActionDecision,
    OrchestrationRun, OrchestrationRunResponse, PolicyGateMetadata, PolicyGateMetadataResponse, PolicyGateStatus,
    PolicyGateSummary, PolicyGateSummaryResponse, RiskLevel, RiskMetadata, RiskMetadataResponse, RunItemResult,
    RunStatus, StrategyType, CompensationAction, CompensationActionResponse,
};
use intent_api::trace_context::{current_trace_context, trace_context_from_span_id};
use intent_api::types::{
    default_actor, default_export_include_artifacts, default_export_include_audit_events,
    default_export_include_policy_snapshots, default_include_artifacts, default_include_audit_events,
    default_include_policy_snapshots,
};
use intent_api::validation::{collect_nested_errors, validate_intent, ErrorEntry, ErrorTree, ErrorsKind, FieldError};

// -----------------------------------------------------------------------------
// JWT authentication
// -----------------------------------------------------------------------------

#[test]
fn test_unauthorized_response_builder_has_headers() {
    let response = unauthorized_response("test");
    assert_eq!(response.status, 401);
    assert_eq!(response.content_type, "application/json");
    assert_eq!(response.cache_control, "no-store");
    assert_eq!(response.body, r#"{"error":{"code":"UNAUTHORIZED","message":"test"}}"#);
}

#[test]
fn public_paths_pass_without_token() {
    for p in ["/health", "/ready", "/metrics"] {
        assert!(matches!(jwt_auth_decision(p, None), AuthDecision::Pass));
    }
    assert!(!matches!(jwt_auth_decision("/health/", None), AuthDecision::Pass));
}

#[test]
fn bearer_token_is_handed_on() {
    match jwt_auth_decision("/intents", Some("Bearer abc.def")) {
        AuthDecision::VerifyToken { token } => assert_eq!(token, "abc.def"),
        other => panic!("unexpected {:?}", other),
    }
    match jwt_auth_decision("/intents", Some("Bearer ")) {
        AuthDecision::VerifyToken { token } => assert_eq!(token, ""),
        other => panic!("unexpected {:?}", other),
    }
}

#[test]
fn missing_or_other_scheme_is_refused() {
    for header in [None, Some("Basic xyz"), Some("bearer abc"), Some("Bearer")] {
        match jwt_auth_decision("/intents", header) {
            AuthDecision::Reject { response } => {
                assert_eq!(response.status, 401);
                assert_eq!(
                    response.body,
                    r#"{"error":{"code":"UNAUTHORIZED","message":"Missing or invalid Authorization header"}}"#
                );
            },
            other => panic!("unexpected {:?}", other),
        }
    }
    assert_eq!(token_rejected().body, r#"{"error":{"code":"UNAUTHORIZED","message":"Invalid or expired token"}}"#);
}

// -----------------------------------------------------------------------------
// Validation
// -----------------------------------------------------------------------------

fn fe(code: &str, message: Option<&str>) -> FieldError {
    FieldError { code: code.to_string(), message: message.map(|m| m.to_string()) }
}

fn sample_tree() -> ErrorTree {
    ErrorTree {
        entries: vec![
            ErrorEntry { field: "name".to_string(), kind: ErrorsKind::Field(vec![fe("length", Some("too short"))]) },
            ErrorEntry {
                field: "scope".to_string(),
                kind: ErrorsKind::Struct(Box::new(ErrorTree {
                    entries: vec![ErrorEntry {
                        field: "owner".to_string(),
                        kind: ErrorsKind::Field(vec![fe("required", None), fe("email", Some("bad email"))]),
                    }],
                })),
            },
            ErrorEntry { field: "items".to_string(), kind: ErrorsKind::List },
        ],
    }
}

#[test]
fn nested_errors_get_dotted_paths() {
    let mut out = Vec::new();
    collect_nested_errors(&sample_tree(), "", &mut out);
    let paths: Vec<&str> = out.iter().map(|(p, _)| p.as_str()).collect();
    assert_eq!(paths, vec!["name", "scope.owner", "scope.owner"]);
    assert_eq!(out[1].1.code, "required");

    let mut out = vec![("x".to_string(), fe("c", None))];
    collect_nested_errors(&sample_tree(), "req", &mut out);
    assert_eq!(out.len(), 4);
    assert_eq!(out[1].0, "req.name");
    assert_eq!(out[3].0, "req.scope.owner");
}

#[test]
fn validation_answer() {
    let ok = validate_intent(Ok(()));
    assert!(ok.valid);
    assert!(ok.errors.is_empty());

    let tree = sample_tree();
    let r = validate_intent(Err(&tree));
    assert!(!r.valid);
    assert_eq!(r.errors.len(), 3);
    assert_eq!(r.errors[0].field, "name");
    assert_eq!(r.errors[0].message, "too short");
    assert_eq!(r.errors[1].message, "required");
    assert_eq!(r.errors[2].message, "bad email");

    let only_lists = ErrorTree { entries: vec![ErrorEntry { field: "items".to_string(), kind: ErrorsKind::List }] };
    let r = validate_intent(Err(&only_lists));
    assert!(r.valid);
    assert!(r.errors.is_empty());
}

// -----------------------------------------------------------------------------
// Compensation labels and responses
// -----------------------------------------------------------------------------

#[test]
fn compensation_labels() {
    assert_eq!(format_gate_status(&PolicyGateStatus::ManualReviewRequired), "manual_review_required");
    assert_eq!(format_gate_status(&PolicyGateStatus::Eligible), "eligible");
    assert_eq!(format_feasibility(&CompensationFeasibility::SemiAutomatic), "semi_automatic");
    assert_eq!(format_feasibility(&CompensationFeasibility::NotPossible), "not_possible");
    assert_eq!(format_strategy_type(&StrategyType::CounterAction), "counter_action");
    assert_eq!(format_strategy_type(&StrategyType::FollowupNotice), "followup_notice");
    assert_eq!(format_compensation_status(&CompensationStatus::Waived), "waived");
    assert_eq!(format_strategy_severity(&RiskLevel::Critical), "critical");
    assert_eq!(format_retry_exhaustion_risk(&RiskLevel::Medium), "medium");
    assert_eq!(format_feasibility_risk(&RiskLevel::Low), "low");
    assert_eq!(format_error_severity(&ErrorSeverity::NoError), "none");
    assert_eq!(format_error_severity(&ErrorSeverity::High), "high");
    assert_eq!(format_coordination_status(&CoordinationStatus::AwaitingManualReview), "awaiting_manual_review");
    assert_eq!(format_run_status(&RunStatus::CompletedWithErrors), "completed_with_errors");
    assert_eq!(format_action_decision(&OrchestrationActionDecision::NotFound), "not_found");
}

#[test]
fn policy_gate_responses() {
    let meta = PolicyGateMetadata {
        auto_executable: true,
        is_dlq_candidate: false,
        can_reapprove: true,
        retry_budget_exhausted: false,
        has_non_retryable_error: true,
        feasibility: CompensationFeasibility::ManualOnly,
        strategy_type: StrategyType::Quarantine,
        status: CompensationStatus::Failed,
        attempt_count: 2,
        max_retries: 5,
    };
    let r = PolicyGateMetadataResponse::from(meta);
    assert!(r.auto_executable && !r.is_dlq_candidate && r.can_reapprove && r.has_non_retryable_error);
    assert_eq!((r.feasibility.as_str(), r.strategy_type.as_str(), r.status.as_str()), ("manual_only", "quarantine", "failed"));
    assert_eq!((r.attempt_count, r.max_retries), (2, 5));

    let risk = RiskMetadata {
        strategy_severity: RiskLevel::High,
        retry_exhaustion_risk: RiskLevel::Low,
        feasibility_risk: RiskLevel::Critical,
        error_severity: ErrorSeverity::Medium,
        retry_budget_remaining: 3,
        error_classification: Some(ErrorClassification {
            error_code: "E42".to_string(),
            retryable: false,
            reason: "quota".to_string(),
        }),
        is_terminal: false,
        requires_manual_intervention: true,
    };
    let r = RiskMetadataResponse::from(risk);
    assert_eq!(r.strategy_severity, "high");
    assert_eq!(r.feasibility_risk, "critical");
    assert_eq!(r.error_severity, "medium");
    let ec = r.error_classification.unwrap();
    assert_eq!((ec.error_code.as_str(), ec.retryable, ec.reason.as_str()), ("E42", false, "quota"));

    let s = PolicyGateSummaryResponse::from(PolicyGateSummary {
        total_actions: 7,
        eligible_count: 1,
        blocked_count: 2,
        manual_review_required_count: 3,
        dlq_candidate_count: 4,
        pending_approval_count: 5,
        auto_executable_count: 6,
    });
    assert_eq!((s.total_actions, s.blocked_count, s.auto_executable_count), (7, 2, 6));
    let c = CoordinationSummaryResponse::from(CoordinationSummary {
        total_actions: 8,
        ready_count: 1,
        awaiting_policy_count: 2,
        awaiting_manual_review_count: 3,
        blocked_count: 4,
        terminal_count: 5,
        dlq_candidate_count: 6,
        auto_executable_count: 7,
    });
    assert_eq!((c.total_actions, c.terminal_count, c.auto_executable_count), (8, 5, 7));
}

#[test]
fn orchestration_run_response() {
    let run = OrchestrationRun {
        id: 1,
        tenant_id: 2,
        intent_id: Some(3),
        action_ids: vec![4, 5],
        status: RunStatus::Completed,
        initiated_by: Some("op".to_string()),
        created_at: 10,
        started_at: Some(11),
        completed_at: None,
        succeeded_count: 1,
        failed_count: 1,
        skipped_count: 0,
        not_found_count: 0,
        total_count: 2,
        item_results: vec![
            RunItemResult {
                action_id: 4,
                action_taken: OrchestrationActionDecision::Execute,
                success: true,
                reason: "ok".to_string(),
                resulting_status: "executed".to_string(),
            },
            RunItemResult {
                action_id: 5,
                action_taken: OrchestrationActionDecision::Skip,
                success: false,
                reason: "terminal".to_string(),
                resulting_status: "failed".to_string(),
            },
        ],
    };
    let r = OrchestrationRunResponse::from(run);
    assert_eq!(r.status, "completed");
    assert_eq!(r.action_ids, vec![4, 5]);
    assert_eq!(r.item_results.len(), 2);
    assert_eq!(r.item_results[0].action_taken, "execute");
    assert_eq!(r.item_results[1].action_taken, "skip");
    assert_eq!(r.item_results[1].reason, "terminal");
    assert_eq!(r.initiated_by.as_deref(), Some("op"));
}

// -----------------------------------------------------------------------------
// Defaults and trace context
// -----------------------------------------------------------------------------

#[test]
fn request_defaults() {
    assert_eq!(default_actor(), "system");
    assert!(default_export_include_artifacts());
    assert!(default_export_include_audit_events());
    assert!(default_export_include_policy_snapshots());
    assert!(default_include_artifacts());
    assert!(default_include_audit_events());
    assert!(default_include_policy_snapshots());
}

#[test]
fn test_trace_context_extraction() {
    let (trace_id, span_id) = current_trace_context();
    // Outside any span both are absent; the function must not panic.
    assert_eq!(trace_id.is_none(), span_id.is_none());
}

#[test]
fn trace_context_formats() {
    let (t, s) = trace_context_from_span_id(Some(0x1a2b));
    assert_eq!(s.as_deref(), Some("0000000000001a2b"));
    assert_eq!(t.as_deref(), Some("0000000000001a2b0000000000000000"));
    let (t, s) = trace_context_from_span_id(None);
    assert!(t.is_none() && s.is_none());
}

#[test]
fn compensation_action_response_uses_snake_case_labels() {
    let action = CompensationAction {
        id: 1,
        tenant_id: 2,
        intent_id: 3,
        status: CompensationStatus::Approved,
        strategy_type: StrategyType::CounterAction,
        feasibility: CompensationFeasibility::SemiAutomatic,
        rationale: "undo the charge".to_string(),
        attempt_count: 2,
        lock_version: 5,
        approved_at: Some(1_700_000_000_000_000_000),
        approved_by: Some("ops".to_string()),
        waived_at: None,
        waived_by: None,
        executed_at: None,
        executed_by: None,
        failed_at: Some(7),
        execution_result_payload: Some(serde_json::Value::Bool(true)),
    };
    let r = CompensationActionResponse::from(action);
    assert_eq!((r.id, r.tenant_id, r.intent_id), (1, 2, 3));
    assert_eq!(r.status, "approved");
    assert_eq!(r.strategy_type, "counter_action");
    assert_eq!(r.feasibility, "semi_automatic");
    assert_eq!(r.rationale, "undo the charge");
    assert_eq!((r.attempt_count, r.lock_version), (2, 5));
    assert_eq!(r.approved_at, Some(1_700_000_000_000_000_000));
    assert_eq!(r.approved_by.as_deref(), Some("ops"));
    assert_eq!(r.failed_at, Some(7));
    assert_eq!(r.execution_result_payload, Some(serde_json::Value::Bool(true)));
}

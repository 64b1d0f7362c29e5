//! How the API presents compensation state: the labels of the compensation
//! enums, and the response bodies built from policy-gate, risk,
//! coordination and orchestration-run results.

use vstd::prelude::*;

verus! {

// =============================================================================
// Enums and their labels
// =============================================================================

/// Whether an action may proceed past the policy gate.
#[derive(Clone, Copy, Debug, PartialEq, Eq, Structural)]
pub enum PolicyGateStatus {
    Eligible,
    Blocked,
    ManualReviewRequired,
}

/// How a side effect can be compensated.
#[derive(Clone, Copy, Debug, PartialEq, Eq, Structural)]
pub enum CompensationFeasibility {
    Automatic,
    SemiAutomatic,
    ManualOnly,
    NotPossible,
}

/// The kind of compensation strategy.
#[derive(Clone, Copy, Debug, PartialEq, Eq, Structural)]
pub enum StrategyType {
    Rollback,
    CounterAction,
    FollowupNotice,
    Quarantine,
    Escalation,
}

/// Lifecycle status of a compensation action.
#[derive(Clone, Copy, Debug, PartialEq, Eq, Structural)]
pub enum CompensationStatus {
    Pending,
    Approved,
    Executed,
    Failed,
    Waived,
}

/// A four-level risk grade (strategy severity, retry exhaustion risk,
/// feasibility risk).
#[derive(Clone, Copy, Debug, PartialEq, Eq, Structural)]
pub enum RiskLevel {
    Low,
    Medium,
    High,
    Critical,
}

/// Severity of the last error of an action.
#[derive(Clone, Copy, Debug, PartialEq, Eq, Structural)]
pub enum ErrorSeverity {
    NoError,
    Low,
    Medium,
    High,
}

/// Where an action stands for coordination.
#[derive(Clone, Copy, Debug, PartialEq, Eq, Structural)]
pub enum CoordinationStatus {
    Ready,
    AwaitingPolicy,
    AwaitingManualReview,
    Blocked,
    Terminal,
}

/// Status of an orchestration run.
#[derive(Clone, Copy, Debug, PartialEq, Eq, Structural)]
pub enum RunStatus {
    Pending,
    Running,
    Completed,
    CompletedWithErrors,
    Failed,
}

/// What an orchestration run did with one action.
#[derive(Clone, Copy, Debug, PartialEq, Eq, Structural)]
pub enum OrchestrationActionDecision {
    Approve,
    Reapprove,
    Execute,
    Skip,
    NotFound,
}

/// Label of a gate status.
pub open spec fn gate_status_text(s: PolicyGateStatus) -> Seq<char> {
    match s {
        PolicyGateStatus::Eligible => "eligible"@,
        PolicyGateStatus::Blocked => "blocked"@,
        PolicyGateStatus::ManualReviewRequired => "manual_review_required"@,
    }
}

/// Label of a feasibility.
pub open spec fn feasibility_text(f: CompensationFeasibility) -> Seq<char> {
    match f {
        CompensationFeasibility::Automatic => "automatic"@,
        CompensationFeasibility::SemiAutomatic => "semi_automatic"@,
        CompensationFeasibility::ManualOnly => "manual_only"@,
        CompensationFeasibility::NotPossible => "not_possible"@,
    }
}

/// Label of a strategy type.
pub open spec fn strategy_type_text(s: StrategyType) -> Seq<char> {
    match s {
        StrategyType::Rollback => "rollback"@,
        StrategyType::CounterAction => "counter_action"@,
        StrategyType::FollowupNotice => "followup_notice"@,
        StrategyType::Quarantine => "quarantine"@,
        StrategyType::Escalation => "escalation"@,
    }
}

/// Label of a compensation status.
pub open spec fn compensation_status_text(s: CompensationStatus) -> Seq<char> {
    match s {
        CompensationStatus::Pending => "pending"@,
        CompensationStatus::Approved => "approved"@,
        CompensationStatus::Executed => "executed"@,
        CompensationStatus::Failed => "failed"@,
        CompensationStatus::Waived => "waived"@,
    }
}

/// Label of a risk grade.
pub open spec fn risk_level_text(r: RiskLevel) -> Seq<char> {
    match r {
        RiskLevel::Low => "low"@,
        RiskLevel::Medium => "medium"@,
        RiskLevel::High => "high"@,
        RiskLevel::Critical => "critical"@,
    }
}

/// Label of an error severity.
pub open spec fn error_severity_text(e: ErrorSeverity) -> Seq<char> {
    match e {
        ErrorSeverity::NoError => "none"@,
        ErrorSeverity::Low => "low"@,
        ErrorSeverity::Medium => "medium"@,
        ErrorSeverity::High => "high"@,
    }
}

/// Label of a coordination status.
pub open spec fn coordination_status_text(s: CoordinationStatus) -> Seq<char> {
    match s {
        CoordinationStatus::Ready => "ready"@,
        CoordinationStatus::AwaitingPolicy => "awaiting_policy"@,
        CoordinationStatus::AwaitingManualReview => "awaiting_manual_review"@,
        CoordinationStatus::Blocked => "blocked"@,
        CoordinationStatus::Terminal => "terminal"@,
    }
}

/// Label of a run status.
pub open spec fn run_status_text(s: RunStatus) -> Seq<char> {
    match s {
        RunStatus::Pending => "pending"@,
        RunStatus::Running => "running"@,
        RunStatus::Completed => "completed"@,
        RunStatus::CompletedWithErrors => "completed_with_errors"@,
        RunStatus::Failed => "failed"@,
    }
}

/// Label of an action decision.
pub open spec fn action_decision_text(d: OrchestrationActionDecision) -> Seq<char> {
    match d {
        OrchestrationActionDecision::Approve => "approve"@,
        OrchestrationActionDecision::Reapprove => "reapprove"@,
        OrchestrationActionDecision::Execute => "execute"@,
        OrchestrationActionDecision::Skip => "skip"@,
        OrchestrationActionDecision::NotFound => "not_found"@,
    }
}

/// The label of a gate status.
pub fn format_gate_status(status: &PolicyGateStatus) -> (s: String)
    ensures
        s@ == gate_status_text(*status),
{
    match status {
        PolicyGateStatus::Eligible => String::from_str("eligible"),
        PolicyGateStatus::Blocked => String::from_str("blocked"),
        PolicyGateStatus::ManualReviewRequired => String::from_str("manual_review_required"),
    }
}

/// The label of a feasibility.
pub fn format_feasibility(f: &CompensationFeasibility) -> (s: String)
    ensures
        s@ == feasibility_text(*f),
{
    match f {
        CompensationFeasibility::Automatic => String::from_str("automatic"),
        CompensationFeasibility::SemiAutomatic => String::from_str("semi_automatic"),
        CompensationFeasibility::ManualOnly => String::from_str("manual_only"),
        CompensationFeasibility::NotPossible => String::from_str("not_possible"),
    }
}

/// The label of a strategy type.
pub fn format_strategy_type(st: &StrategyType) -> (s: String)
    ensures
        s@ == strategy_type_text(*st),
{
    match st {
        StrategyType::Rollback => String::from_str("rollback"),
        StrategyType::CounterAction => String::from_str("counter_action"),
        StrategyType::FollowupNotice => String::from_str("followup_notice"),
        StrategyType::Quarantine => String::from_str("quarantine"),
        StrategyType::Escalation => String::from_str("escalation"),
    }
}

/// The label of a compensation status.
pub fn format_compensation_status(st: &CompensationStatus) -> (s: String)
    ensures
        s@ == compensation_status_text(*st),
{
    match st {
        CompensationStatus::Pending => String::from_str("pending"),
        CompensationStatus::Approved => String::from_str("approved"),
        CompensationStatus::Executed => String::from_str("executed"),
        CompensationStatus::Failed => String::from_str("failed"),
        CompensationStatus::Waived => String::from_str("waived"),
    }
}

fn format_risk_level(r: &RiskLevel) -> (s: String)
    ensures
        s@ == risk_level_text(*r),
{
    match r {
        RiskLevel::Low => String::from_str("low"),
        RiskLevel::Medium => String::from_str("medium"),
        RiskLevel::High => String::from_str("high"),
        RiskLevel::Critical => String::from_str("critical"),
    }
}

/// The label of a strategy severity.
pub fn format_strategy_severity(r: &RiskLevel) -> (s: String)
    ensures
        s@ == risk_level_text(*r),
{
    format_risk_level(r)
}

/// The label of a retry exhaustion risk.
pub fn format_retry_exhaustion_risk(r: &RiskLevel) -> (s: String)
    ensures
        s@ == risk_level_text(*r),
{
    format_risk_level(r)
}

/// The label of a feasibility risk.
pub fn format_feasibility_risk(r: &RiskLevel) -> (s: String)
    ensures
        s@ == risk_level_text(*r),
{
    format_risk_level(r)
}

/// The label of an error severity.
pub fn format_error_severity(e: &ErrorSeverity) -> (s: String)
    ensures
        s@ == error_severity_text(*e),
{
    match e {
        ErrorSeverity::NoError => String::from_str("none"),
        ErrorSeverity::Low => String::from_str("low"),
        ErrorSeverity::Medium => String::from_str("medium"),
        ErrorSeverity::High => String::from_str("high"),
    }
}

/// The label of a coordination status.
pub fn format_coordination_status(status: &CoordinationStatus) -> (s: String)
    ensures
        s@ == coordination_status_text(*status),
{
    match status {
        CoordinationStatus::Ready => String::from_str("ready"),
        CoordinationStatus::AwaitingPolicy => String::from_str("awaiting_policy"),
        CoordinationStatus::AwaitingManualReview => String::from_str("awaiting_manual_review"),
        CoordinationStatus::Blocked => String::from_str("blocked"),
        CoordinationStatus::Terminal => String::from_str("terminal"),
    }
}

/// The label of a run status.
pub fn format_run_status(st: &RunStatus) -> (s: String)
    ensures
        s@ == run_status_text(*st),
{
    match st {
        RunStatus::Pending => String::from_str("pending"),
        RunStatus::Running => String::from_str("running"),
        RunStatus::Completed => String::from_str("completed"),
        RunStatus::CompletedWithErrors => String::from_str("completed_with_errors"),
        RunStatus::Failed => String::from_str("failed"),
    }
}

/// The label of an action decision.
pub fn format_action_decision(d: &OrchestrationActionDecision) -> (s: String)
    ensures
        s@ == action_decision_text(*d),
{
    match d {
        OrchestrationActionDecision::Approve => String::from_str("approve"),
        OrchestrationActionDecision::Reapprove => String::from_str("reapprove"),
        OrchestrationActionDecision::Execute => String::from_str("execute"),
        OrchestrationActionDecision::Skip => String::from_str("skip"),
        OrchestrationActionDecision::NotFound => String::from_str("not_found"),
    }
}

// =============================================================================
// Policy gate results
// =============================================================================

/// Policy gate metadata of one action, as evaluated.
#[derive(Debug, Clone, Copy)]
pub struct PolicyGateMetadata {
    pub auto_executable: bool,
    pub is_dlq_candidate: bool,
    pub can_reapprove: bool,
    pub retry_budget_exhausted: bool,
    pub has_non_retryable_error: bool,
    pub feasibility: CompensationFeasibility,
    pub strategy_type: StrategyType,
    pub status: CompensationStatus,
    pub attempt_count: i32,
    pub max_retries: i32,
}

/// Policy gate metadata of one action, as answered.
#[derive(Debug)]
pub struct PolicyGateMetadataResponse {
    pub auto_executable: bool,
    pub is_dlq_candidate: bool,
    pub can_reapprove: bool,
    pub retry_budget_exhausted: bool,
    pub has_non_retryable_error: bool,
    pub feasibility: String,
    pub strategy_type: String,
    pub status: String,
    pub attempt_count: i32,
    pub max_retries: i32,
}

impl PolicyGateMetadataResponse {
    /// The answer for `meta`: flags and counts as they are, enums by label.
    #[allow(clippy::should_implement_trait)]
    pub fn from(meta: PolicyGateMetadata) -> (r: Self)
        ensures
            r.auto_executable == meta.auto_executable,
            r.is_dlq_candidate == meta.is_dlq_candidate,
            r.can_reapprove == meta.can_reapprove,
            r.retry_budget_exhausted == meta.retry_budget_exhausted,
            r.has_non_retryable_error == meta.has_non_retryable_error,
            r.feasibility@ == feasibility_text(meta.feasibility),
            r.strategy_type@ == strategy_type_text(meta.strategy_type),
            r.status@ == compensation_status_text(meta.status),
            r.attempt_count == meta.attempt_count,
            r.max_retries == meta.max_retries,
    {
        PolicyGateMetadataResponse {
            auto_executable: meta.auto_executable,
            is_dlq_candidate: meta.is_dlq_candidate,
            can_reapprove: meta.can_reapprove,
            retry_budget_exhausted: meta.retry_budget_exhausted,
            has_non_retryable_error: meta.has_non_retryable_error,
            feasibility: format_feasibility(&meta.feasibility),
            strategy_type: format_strategy_type(&meta.strategy_type),
            status: format_compensation_status(&meta.status),
            attempt_count: meta.attempt_count,
            max_retries: meta.max_retries,
        }
    }
}

/// Classification of the last error of an action.
#[derive(Debug)]
pub struct ErrorClassification {
    pub error_code: String,
    pub retryable: bool,
    pub reason: String,
}

/// Classification of the last error of an action, as answered.
#[derive(Debug)]
pub struct ErrorClassificationResponse {
    pub error_code: String,
    pub retryable: bool,
    pub reason: String,
}

impl ErrorClassificationResponse {
    /// The answer for `ec`, field by field.
    #[allow(clippy::should_implement_trait)]
    pub fn from(ec: ErrorClassification) -> (r: Self)
        ensures
            r.error_code == ec.error_code,
            r.retryable == ec.retryable,
            r.reason == ec.reason,
    {
        ErrorClassificationResponse { error_code: ec.error_code, retryable: ec.retryable, reason: ec.reason }
    }
}

/// Risk metadata of one action, as evaluated.
#[derive(Debug)]
pub struct RiskMetadata {
    pub strategy_severity: RiskLevel,
    pub retry_exhaustion_risk: RiskLevel,
    pub feasibility_risk: RiskLevel,
    pub error_severity: ErrorSeverity,
    pub retry_budget_remaining: i32,
    pub error_classification: Option<ErrorClassification>,
    pub is_terminal: bool,
    pub requires_manual_intervention: bool,
}

/// Risk metadata of one action, as answered.
#[derive(Debug)]
pub struct RiskMetadataResponse {
    pub strategy_severity: String,
    pub retry_exhaustion_risk: String,
    pub feasibility_risk: String,
    pub error_severity: String,
    pub retry_budget_remaining: i32,
    pub error_classification: Option<ErrorClassificationResponse>,
    pub is_terminal: bool,
    pub requires_manual_intervention: bool,
}

impl RiskMetadataResponse {
    /// The answer for `risk`: grades by label, the rest as it is.
    #[allow(clippy::should_implement_trait)]
    pub fn from(risk: RiskMetadata) -> (r: Self)
        ensures
            r.strategy_severity@ == risk_level_text(risk.strategy_severity),
            r.retry_exhaustion_risk@ == risk_level_text(risk.retry_exhaustion_risk),
            r.feasibility_risk@ == risk_level_text(risk.feasibility_risk),
            r.error_severity@ == error_severity_text(risk.error_severity),
            r.retry_budget_remaining == risk.retry_budget_remaining,
            r.is_terminal == risk.is_terminal,
            r.requires_manual_intervention == risk.requires_manual_intervention,
            match risk.error_classification {
                Some(ec) => r.error_classification matches Some(rc) && rc.error_code == ec.error_code
                    && rc.retryable == ec.retryable && rc.reason == ec.reason,
                None => r.error_classification is None,
            },
    {
        RiskMetadataResponse {
            strategy_severity: format_strategy_severity(&risk.strategy_severity),
            retry_exhaustion_risk: format_retry_exhaustion_risk(&risk.retry_exhaustion_risk),
            feasibility_risk: format_feasibility_risk(&risk.feasibility_risk),
            error_severity: format_error_severity(&risk.error_severity),
            retry_budget_remaining: risk.retry_budget_remaining,
            error_classification: match risk.error_classification {
                Some(ec) => Some(ErrorClassificationResponse::from(ec)),
                None => None,
            },
            is_terminal: risk.is_terminal,
            requires_manual_intervention: risk.requires_manual_intervention,
        }
    }
}

/// Policy gate evaluations, counted.
#[derive(Debug, Clone, Copy)]
pub struct PolicyGateSummary {
    pub total_actions: usize,
    pub eligible_count: usize,
    pub blocked_count: usize,
    pub manual_review_required_count: usize,
    pub dlq_candidate_count: usize,
    pub pending_approval_count: usize,
    pub auto_executable_count: usize,
}

/// Policy gate evaluations, counted, as answered.
#[derive(Debug, Clone, Copy)]
pub struct PolicyGateSummaryResponse {
    pub total_actions: usize,
    pub eligible_count: usize,
    pub blocked_count: usize,
    pub manual_review_required_count: usize,
    pub dlq_candidate_count: usize,
    pub pending_approval_count: usize,
    pub auto_executable_count: usize,
}

impl PolicyGateSummaryResponse {
    /// The answer for `summary`: the same counts.
    #[allow(clippy::should_implement_trait)]
    pub fn from(summary: PolicyGateSummary) -> (r: Self)
        ensures
            r.total_actions == summary.total_actions,
            r.eligible_count == summary.eligible_count,
            r.blocked_count == summary.blocked_count,
            r.manual_review_required_count == summary.manual_review_required_count,
            r.dlq_candidate_count == summary.dlq_candidate_count,
            r.pending_approval_count == summary.pending_approval_count,
            r.auto_executable_count == summary.auto_executable_count,
    {
        PolicyGateSummaryResponse {
            total_actions: summary.total_actions,
            eligible_count: summary.eligible_count,
            blocked_count: summary.blocked_count,
            manual_review_required_count: summary.manual_review_required_count,
            dlq_candidate_count: summary.dlq_candidate_count,
            pending_approval_count: summary.pending_approval_count,
            auto_executable_count: summary.auto_executable_count,
        }
    }
}

// =============================================================================
// Coordination results
// =============================================================================

/// Coordination records, counted.
#[derive(Debug, Clone, Copy)]
pub struct CoordinationSummary {
    pub total_actions: usize,
    pub ready_count: usize,
    pub awaiting_policy_count: usize,
    pub awaiting_manual_review_count: usize,
    pub blocked_count: usize,
    pub terminal_count: usize,
    pub dlq_candidate_count: usize,
    pub auto_executable_count: usize,
}

/// Coordination records, counted, as answered.
#[derive(Debug, Clone, Copy)]
pub struct CoordinationSummaryResponse {
    pub total_actions: usize,
    pub ready_count: usize,
    pub awaiting_policy_count: usize,
    pub awaiting_manual_review_count: usize,
    pub blocked_count: usize,
    pub terminal_count: usize,
    pub dlq_candidate_count: usize,
    pub auto_executable_count: usize,
}

impl CoordinationSummaryResponse {
    /// The answer for `summary`: the same counts.
    #[allow(clippy::should_implement_trait)]
    pub fn from(summary: CoordinationSummary) -> (r: Self)
        ensures
            r.total_actions == summary.total_actions,
            r.ready_count == summary.ready_count,
            r.awaiting_policy_count == summary.awaiting_policy_count,
            r.awaiting_manual_review_count == summary.awaiting_manual_review_count,
            r.blocked_count == summary.blocked_count,
            r.terminal_count == summary.terminal_count,
            r.dlq_candidate_count == summary.dlq_candidate_count,
            r.auto_executable_count == summary.auto_executable_count,
    {
        CoordinationSummaryResponse {
            total_actions: summary.total_actions,
            ready_count: summary.ready_count,
            awaiting_policy_count: summary.awaiting_policy_count,
            awaiting_manual_review_count: summary.awaiting_manual_review_count,
            blocked_count: summary.blocked_count,
            terminal_count: summary.terminal_count,
            dlq_candidate_count: summary.dlq_candidate_count,
            auto_executable_count: summary.auto_executable_count,
        }
    }
}

// =============================================================================
// Orchestration runs
// =============================================================================

/// What a run did with one action.
#[derive(Debug)]
pub struct RunItemResult {
    pub action_id: u128,
    pub action_taken: OrchestrationActionDecision,
    pub success: bool,
    pub reason: String,
    pub resulting_status: String,
}

/// What a run did with one action, as answered.
#[derive(Debug)]
pub struct RunItemResultResponse {
    pub action_id: u128,
    pub action_taken: String,
    pub success: bool,
    pub reason: String,
    pub resulting_status: String,
}

/// An orchestration run; instants are nanoseconds since the Unix epoch.
#[derive(Debug)]
pub struct OrchestrationRun {
    pub id: u128,
    pub tenant_id: u128,
    pub intent_id: Option<u128>,
    pub action_ids: Vec<u128>,
    pub status: RunStatus,
    pub initiated_by: Option<String>,
    pub created_at: i64,
    pub started_at: Option<i64>,
    pub completed_at: Option<i64>,
    pub succeeded_count: usize,
    pub failed_count: usize,
    pub skipped_count: usize,
    pub not_found_count: usize,
    pub total_count: usize,
    pub item_results: Vec<RunItemResult>,
}

/// An orchestration run, as answered.
#[derive(Debug)]
pub struct OrchestrationRunResponse {
    pub id: u128,
    pub tenant_id: u128,
    pub intent_id: Option<u128>,
    pub action_ids: Vec<u128>,
    pub status: String,
    pub initiated_by: Option<String>,
    pub created_at: i64,
    pub started_at: Option<i64>,
    pub completed_at: Option<i64>,
    pub succeeded_count: usize,
    pub failed_count: usize,
    pub skipped_count: usize,
    pub not_found_count: usize,
    pub total_count: usize,
    pub item_results: Vec<RunItemResultResponse>,
}

/// `r` answers for the item result `i`.
pub open spec fn answers_item(r: RunItemResultResponse, i: RunItemResult) -> bool {
    &&& r.action_id == i.action_id
    &&& r.action_taken@ == action_decision_text(i.action_taken)
    &&& r.success == i.success
    &&& r.reason == i.reason
    &&& r.resulting_status == i.resulting_status
}

impl OrchestrationRunResponse {
    /// The answer for `run`: its status and each item's decision by label,
    /// everything else as it is, items in order.
    #[allow(clippy::should_implement_trait)]
    pub fn from(run: OrchestrationRun) -> (r: Self)
        ensures
            r.id == run.id,
            r.tenant_id == run.tenant_id,
            r.intent_id == run.intent_id,
            r.action_ids@ == run.action_ids@,
            r.status@ == run_status_text(run.status),
            r.initiated_by == run.initiated_by,
            r.created_at == run.created_at,
            r.started_at == run.started_at,
            r.completed_at == run.completed_at,
            r.succeeded_count == run.succeeded_count,
            r.failed_count == run.failed_count,
            r.skipped_count == run.skipped_count,
            r.not_found_count == run.not_found_count,
            r.total_count == run.total_count,
            r.item_results@.len() == run.item_results@.len(),
            forall|k: int|
                0 <= k < run.item_results@.len() ==> answers_item(
                    #[trigger] r.item_results@[k],
                    run.item_results@[k],
                ),
    {
        let mut items: Vec<RunItemResultResponse> = Vec::new();
        let mut k: usize = 0;
        while k < run.item_results.len()
            invariant
                k <= run.item_results@.len(),
                items@.len() == k,
                forall|q: int| 0 <= q < k ==> answers_item(#[trigger] items@[q], run.item_results@[q]),
            decreases run.item_results@.len() - k,
        {
            let it = &run.item_results[k];
            items.push(
                RunItemResultResponse {
                    action_id: it.action_id,
                    action_taken: format_action_decision(&it.action_taken),
                    success: it.success,
                    reason: it.reason.clone(),
                    resulting_status: it.resulting_status.clone(),
                },
            );
            k = k + 1;
        }
        OrchestrationRunResponse {
            id: run.id,
            tenant_id: run.tenant_id,
            intent_id: run.intent_id,
            action_ids: run.action_ids,
            status: format_run_status(&run.status),
            initiated_by: run.initiated_by,
            created_at: run.created_at,
            started_at: run.started_at,
            completed_at: run.completed_at,
            succeeded_count: run.succeeded_count,
            failed_count: run.failed_count,
            skipped_count: run.skipped_count,
            not_found_count: run.not_found_count,
            total_count: run.total_count,
            item_results: items,
        }
    }
}

// =============================================================================
// Compensation actions
// =============================================================================

/// A compensation action, as the endpoints read it.
#[derive(Debug)]
pub struct CompensationAction {
    pub id: u128,
    pub tenant_id: u128,
    pub intent_id: u128,
    pub status: CompensationStatus,
    pub strategy_type: StrategyType,
    pub feasibility: CompensationFeasibility,
    pub rationale: String,
    pub attempt_count: i32,
    pub lock_version: i32,
    pub approved_at: Option<i64>,
    pub approved_by: Option<String>,
    pub waived_at: Option<i64>,
    pub waived_by: Option<String>,
    pub executed_at: Option<i64>,
    pub executed_by: Option<String>,
    pub failed_at: Option<i64>,
    /// The result of the execution, as JSON
    pub execution_result_payload: Option<serde_json::Value>,
}

/// A compensation action after an approval, waiver or execution.
#[derive(Debug, Clone)]
pub struct CompensationActionResponse {
    pub id: u128,
    pub tenant_id: u128,
    pub intent_id: u128,
    pub status: String,
    pub strategy_type: String,
    pub feasibility: String,
    pub rationale: String,
    pub attempt_count: i32,
    pub lock_version: i32,
    pub approved_at: Option<i64>,
    pub approved_by: Option<String>,
    pub waived_at: Option<i64>,
    pub waived_by: Option<String>,
    pub executed_at: Option<i64>,
    pub executed_by: Option<String>,
    pub failed_at: Option<i64>,
    pub execution_result_payload: Option<serde_json::Value>,
}

impl CompensationActionResponse {
    /// The answer for `action`: its enums by their snake_case label, every
    /// other field as it is.
    #[allow(clippy::should_implement_trait)]
    pub fn from(action: CompensationAction) -> (r: Self)
        ensures
            r.id == action.id,
            r.tenant_id == action.tenant_id,
            r.intent_id == action.intent_id,
            r.status@ == compensation_status_text(action.status),
            r.strategy_type@ == strategy_type_text(action.strategy_type),
            r.feasibility@ == feasibility_text(action.feasibility),
            r.rationale == action.rationale,
            r.attempt_count == action.attempt_count,
            r.lock_version == action.lock_version,
            r.approved_at == action.approved_at,
            r.approved_by == action.approved_by,
            r.waived_at == action.waived_at,
            r.waived_by == action.waived_by,
            r.executed_at == action.executed_at,
            r.executed_by == action.executed_by,
            r.failed_at == action.failed_at,
            r.execution_result_payload == action.execution_result_payload,
    {
        let status = format_compensation_status(&action.status);
        let strategy_type = format_strategy_type(&action.strategy_type);
        let feasibility = format_feasibility(&action.feasibility);
        CompensationActionResponse {
            id: action.id,
            tenant_id: action.tenant_id,
            intent_id: action.intent_id,
            status,
            strategy_type,
            feasibility,
            rationale: action.rationale,
            attempt_count: action.attempt_count,
            lock_version: action.lock_version,
            approved_at: action.approved_at,
            approved_by: action.approved_by,
            waived_at: action.waived_at,
            waived_by: action.waived_by,
            executed_at: action.executed_at,
            executed_by: action.executed_by,
            failed_at: action.failed_at,
            execution_result_payload: action.execution_result_payload,
        }
    }
}

} // verus!

//! Request and response bodies of the API that hold plain values, and the
//! defaults of optional request fields.

use vstd::prelude::*;

verus! {

// =============================================================================
// Approval request bodies
// =============================================================================

/// Body of an approval.
#[derive(Debug)]
pub struct ApproveApprovalRequestBody {
    pub resolution_notes: Option<String>,
}

/// Body of a rejection.
#[derive(Debug)]
pub struct RejectApprovalRequestBody {
    pub resolution_notes: Option<String>,
}

/// Body of an expiry.
#[derive(Debug)]
pub struct ExpireApprovalRequestBody {
    pub reason: Option<String>,
}

// =============================================================================
// Compensation action bodies and summaries
// =============================================================================

/// Body approving a compensation action.
#[derive(Debug)]
pub struct ApproveCompensationActionBody {
    /// Lock version for optimistic concurrency control
    pub lock_version: i32,
    /// Actor who approved, for audit purposes
    pub approved_by: Option<String>,
}

/// Body waiving a compensation action.
#[derive(Debug)]
pub struct WaiveCompensationActionBody {
    /// Lock version for optimistic concurrency control
    pub lock_version: i32,
    /// Actor who waived, for audit purposes
    pub waived_by: Option<String>,
}

/// Body executing a compensation action.
#[derive(Debug)]
pub struct ExecuteCompensationActionBody {
    /// Actor who executed, for audit purposes
    pub executed_by: Option<String>,
}

/// Body re-approving a compensation action.
#[derive(Debug, Clone, Copy)]
pub struct ReapproveCompensationActionBody {
    /// Lock version for optimistic concurrency control
    pub lock_version: i32,
}

/// Number of compensation actions in each status.
#[derive(Debug, Clone, Copy)]
pub struct CompensationActionStatusCounts {
    pub pending: usize,
    pub approved: usize,
    pub executed: usize,
    pub failed: usize,
    pub waived: usize,
}

/// Side effects of an intent, counted.
#[derive(Debug, Clone, Copy)]
pub struct SideEffectSummary {
    pub total: usize,
    pub irreversible_count: usize,
    pub auto_compensatable_count: usize,
}

/// Compensation actions of an intent, counted.
#[derive(Debug, Clone, Copy)]
pub struct CompensationActionSummary {
    pub total: usize,
    pub status_counts: CompensationActionStatusCounts,
    pub retryable_failed_count: usize,
    pub dlq_candidate_count: usize,
    pub reapprovable_count: usize,
    pub auto_executable_count: usize,
}

/// Candidates for batch orchestration, counted.
#[derive(Debug, Clone, Copy)]
pub struct BatchCandidatesSummary {
    pub pending_approval_count: usize,
    pub approved_service_executable_count: usize,
    pub retryable_failed_count: usize,
    pub dlq_count: usize,
}

/// Planned compensation actions by feasibility.
#[derive(Debug, Clone, Copy)]
pub struct FeasibilityCounts {
    pub automatic: usize,
    pub semi_automatic: usize,
    pub manual_only: usize,
    pub not_possible: usize,
}

/// Outcome of an orchestration dry run, counted.
#[derive(Debug, Clone, Copy)]
pub struct OrchestrationDryRunSummaryResponse {
    pub total: usize,
    pub can_approve: usize,
    pub can_reapprove: usize,
    pub can_execute: usize,
    pub no_action: usize,
    pub not_found: usize,
}

/// Outcome of a batch orchestration, counted.
#[derive(Debug, Clone, Copy)]
pub struct BatchOrchestrationSummaryResponse {
    pub total: usize,
    pub succeeded: usize,
    pub failed: usize,
    pub not_found: usize,
}

// =============================================================================
// Forensic summaries
// =============================================================================

/// Entries of a forensic bundle, counted.
#[derive(Debug, Clone, Copy)]
pub struct ForensicBundleContentsSummary {
    pub intent_versions: usize,
    pub artifacts: usize,
    pub approvals: usize,
    pub audit_events: usize,
    pub policy_snapshots: usize,
}

/// Entries of a forensic export, counted.
#[derive(Debug, Clone, Copy)]
pub struct ForensicExportContentsSummary {
    /// Number of intent version entries
    pub intent_versions: usize,
    /// Number of artifact entries
    pub artifacts: usize,
    /// Number of audit event entries
    pub audit_events: usize,
    /// Number of policy snapshot entries
    pub policy_snapshots: usize,
}

/// Artifact coverage of a forensic verification.
#[derive(Debug, Clone, Copy)]
pub struct ForensicArtifactCoverage {
    /// Number of artifacts found for the intent
    pub artifact_count: usize,
    /// Number of artifacts with complete provenance chain
    pub artifacts_with_provenance: usize,
    /// Whether artifact coverage is complete
    pub coverage_complete: bool,
}

/// Policy snapshot coverage of a forensic verification.
#[derive(Debug, Clone, Copy)]
pub struct ForensicPolicySnapshotCoverage {
    /// Number of policy snapshots found for the intent
    pub snapshot_count: usize,
    /// Whether snapshots cover all versions
    pub coverage_complete: bool,
}

/// The actor recorded when a forensic bundle request names none.
pub open spec fn default_actor_text() -> Seq<char> {
    "system"@
}

/// `system`: the actor of a forensic bundle request that names none.
pub fn default_actor() -> (s: String)
    ensures
        s@ == default_actor_text(),
{
    String::from_str("system")
}

/// A forensic export includes artifacts unless told otherwise.
pub fn default_export_include_artifacts() -> (b: bool)
    ensures
        b,
{
    true
}

/// A forensic export includes audit events unless told otherwise.
pub fn default_export_include_audit_events() -> (b: bool)
    ensures
        b,
{
    true
}

/// A forensic export includes policy snapshots unless told otherwise.
pub fn default_export_include_policy_snapshots() -> (b: bool)
    ensures
        b,
{
    true
}

/// A forensic verification covers artifacts unless told otherwise.
pub fn default_include_artifacts() -> (b: bool)
    ensures
        b,
{
    true
}

/// A forensic verification covers audit events unless told otherwise.
pub fn default_include_audit_events() -> (b: bool)
    ensures
        b,
{
    true
}

/// A forensic verification covers policy snapshots unless told otherwise.
pub fn default_include_policy_snapshots() -> (b: bool)
    ensures
        b,
{
    true
}

// =============================================================================
// Impact report sections
// =============================================================================

/// Trigger section of an impact report.
#[derive(Debug, Clone)]
pub struct ImpactTrigger {
    pub change_summary: String,
    pub risk_tier: String,
    pub decision_class: String,
}

/// Scope section of an impact report.
#[derive(Debug, Clone, Copy)]
pub struct ImpactScope {
    pub affected_artifacts_count: usize,
    pub affected_approvals_count: usize,
    pub affected_side_effects_count: usize,
}

/// Invalidation section of an impact report.
#[derive(Debug, Clone, Copy)]
pub struct ImpactInvalidation {
    pub invalidated_artifacts_count: usize,
    pub invalidated_approvals_count: usize,
}

/// Compensation section of an impact report.
#[derive(Debug, Clone, Copy)]
pub struct ImpactCompensation {
    pub total_actions: usize,
    pub eligible_count: usize,
    pub blocked_count: usize,
    pub manual_review_required_count: usize,
    pub dlq_candidate_count: usize,
}

/// Safety gate section of an impact report.
#[derive(Debug, Clone, Copy)]
pub struct SafetyGateSummary {
    pub open_gates: usize,
    pub blocked_gates: usize,
    pub manual_review_gates: usize,
}

/// Propagation to downstream systems, counted.
#[derive(Debug, Clone, Copy)]
pub struct PropagationSummary {
    pub total: usize,
    pub acknowledged: usize,
    pub pending: usize,
    pub failed: usize,
}

// =============================================================================
// Webhook subscriptions, health, request ids
// =============================================================================

/// Changes to a webhook subscription; absent fields stay as they are, and
/// `downstream_system_id: Some(None)` clears that field.
#[derive(Debug)]
pub struct UpdateWebhookSubscriptionRequest {
    pub webhook_url: Option<String>,
    pub downstream_system_id: Option<Option<String>>,
    pub status: Option<String>,
    pub max_attempts: Option<i32>,
    pub event_types: Option<Vec<String>>,
}

/// Health check answer.
#[derive(Debug)]
pub struct HealthResponse {
    pub status: String,
    pub uptime_seconds: u64,
}

/// Request id kept with a request.
#[derive(Debug)]
pub struct RequestId(pub String);

} // verus!

//! Request, query and response bodies of the API's other endpoints, held
//! as plain values: identifiers as the 128-bit value of their UUID, instants
//! as nanoseconds since the Unix epoch (UTC).

use vstd::prelude::*;
use crate::compensation_view::CompensationActionResponse;
use crate::types::{
    FeasibilityCounts, ImpactCompensation, ImpactInvalidation, ImpactScope, ImpactTrigger,
    OrchestrationDryRunSummaryResponse, BatchOrchestrationSummaryResponse, PropagationSummary, SafetyGateSummary,
};

verus! {

// =============================================================================
// Errors
// =============================================================================

/// Error body of an API answer.
#[derive(Debug)]
pub struct ApiError {
    pub error: ErrorDetails,
}

/// What an error body says: a code, a message, whether a retry may succeed, and details.
#[derive(Debug)]
pub struct ErrorDetails {
    pub code: String,
    pub message: String,
    pub retryable: bool,
    pub details: Option<serde_json::Value>,
}

// =============================================================================
// Approval requests
// =============================================================================

/// One approval request in a list.
#[derive(Debug, Clone)]
pub struct ApprovalRequestSummary {
    pub id: u128,
    pub intent_id: u128,
    pub intent_version_from: i32,
    pub intent_version_to: i32,
    pub decision_class: String,
    pub reason: String,
    pub requestor_id: String,
    pub requestor_type: String,
    pub status: String,
    pub created_at: i64,
    pub expires_at: Option<i64>,
}

/// Pending approval requests of a tenant.
#[derive(Debug, Clone)]
pub struct ListPendingApprovalRequestsResponse {
    pub approval_requests: Vec<ApprovalRequestSummary>,
    pub total: usize,
}

/// Answer to an approval, rejection or expiry of an approval request.
#[derive(Debug, Clone)]
pub struct ApprovalRequestResponse {
    pub id: u128,
    pub intent_id: u128,
    pub status: String,
    pub resolved_by: String,
    pub resolved_at: Option<i64>,
    pub resolution_notes: Option<String>,
}

/// Query listing pending approval requests.
#[derive(Debug)]
pub struct ListPendingApprovalRequestsQuery {
    pub tenant_id: u128,
}

/// Whether an approval still holds for the current scope of its intent.
#[derive(Debug, Clone)]
pub struct ApprovalRevalidationResponse {
    pub approval_id: u128,
    pub valid: bool,
    pub reason: String,
    pub approval_basis_scope_hash: String,
    pub current_scope_hash: Option<String>,
    pub revalidation_required: bool,
    pub intent_id: u128,
    pub approval_basis_version: i32,
}

// =============================================================================
// Policy snapshots
// =============================================================================

/// Query reading a policy snapshot by id.
#[derive(Debug)]
pub struct GetPolicySnapshotQuery {
    pub tenant_id: u128,
}

/// Query reading the latest policy snapshot of an intent.
#[derive(Debug)]
pub struct GetLatestPolicySnapshotQuery {
    pub tenant_id: u128,
}

/// Query reading the policy snapshot of an intent version.
#[derive(Debug)]
pub struct GetPolicySnapshotByVersionQuery {
    pub tenant_id: u128,
}

/// Query listing the policy snapshots of an intent.
#[derive(Debug)]
pub struct ListPolicySnapshotsQuery {
    pub tenant_id: u128,
}

// =============================================================================
// Compensation and orchestration
// =============================================================================

/// Query listing compensation actions.
#[derive(Debug)]
pub struct ListCompensationActionsQuery {
    pub tenant_id: u128,
}

/// Query listing side effects.
#[derive(Debug)]
pub struct ListSideEffectsQuery {
    pub tenant_id: u128,
}

/// Query reading the orchestration dashboard.
#[derive(Debug)]
pub struct OrchestrationDashboardQuery {
    pub tenant_id: u128,
}

/// Query listing dead-letter candidates among compensation actions.
#[derive(Debug)]
pub struct ListDlqCandidatesQuery {
    pub tenant_id: u128,
}

/// Query listing batch orchestration candidates.
#[derive(Debug)]
pub struct ListBatchCandidatesQuery {
    pub tenant_id: u128,
}

/// Request planning compensation actions for the side effects of a rebase.
#[derive(Debug, Clone)]
pub struct PlanCompensationActionsRequest {
    pub intent_id: u128,
    pub tenant_id: u128,
    pub from_version: i32,
    pub to_version: i32,
    pub workflow_id: u128,
}

/// Compensation actions planned, with their count by feasibility.
#[derive(Debug, Clone)]
pub struct PlanCompensationActionsResponse {
    pub actions: Vec<CompensationActionResponse>,
    pub total: usize,
    pub feasibility_counts: FeasibilityCounts,
}

/// Request starting an orchestration run over compensation actions.
#[derive(Debug, Clone)]
pub struct CreateOrchestrationRunRequest {
    pub action_ids: Vec<u128>,
    pub intent_id: Option<u128>,
    pub initiated_by: Option<String>,
}

/// Query reading orchestration runs.
#[derive(Debug)]
pub struct OrchestrationRunQuery {
    pub tenant_id: u128,
}

/// Request planning orchestration steps without running them.
#[derive(Debug, Clone)]
pub struct OrchestrationDryRunRequest {
    pub action_ids: Vec<u128>,
}

/// The step a dry run proposes for one compensation action.
#[derive(Debug, Clone)]
pub struct OrchestrationDryRunProposalResponse {
    pub action_id: u128,
    pub proposed_action: String,
    pub reason: String,
    pub current_status: String,
}

/// Proposals of a dry run, the actions not found, and the counts.
#[derive(Debug, Clone)]
pub struct OrchestrationDryRunResponse {
    pub proposals: Vec<OrchestrationDryRunProposalResponse>,
    pub not_found: Vec<u128>,
    pub summary: OrchestrationDryRunSummaryResponse,
}

/// Query of the manual orchestration commands.
#[derive(Debug)]
pub struct OrchestrationQuery {
    pub tenant_id: u128,
}

/// Request running an orchestration command over several actions.
#[derive(Debug, Clone)]
pub struct BatchOrchestrationRequest {
    pub action_ids: Vec<u128>,
    pub initiated_by: Option<String>,
}

/// Outcome of a batched command for one action.
#[derive(Debug, Clone)]
pub struct BatchItemOutcomeResponse {
    pub action_id: u128,
    pub success: bool,
    pub result: Option<CompensationActionResponse>,
    pub error: Option<String>,
}

/// Outcomes of a batched command, the actions not found, and the counts.
#[derive(Debug, Clone)]
pub struct BatchOrchestrationResponse {
    pub outcomes: Vec<BatchItemOutcomeResponse>,
    pub not_found: Vec<u128>,
    pub summary: BatchOrchestrationSummaryResponse,
}

// =============================================================================
// Forensics
// =============================================================================

/// Time range of a forensic bundle, in nanoseconds since the Unix epoch.
#[derive(Debug, Clone)]
pub struct ForensicBundleTimeRange {
    pub start: i64,
    pub end: i64,
}

/// Integrity of a forensic bundle: its manifest hash and chain check.
#[derive(Debug, Clone)]
pub struct ForensicBundleIntegrityInfo {
    pub manifest_hash: String,
    pub chain_verified: bool,
    pub verification_timestamp: i64,
}

/// Time range of a forensic export, in nanoseconds since the Unix epoch.
#[derive(Debug, Clone)]
pub struct ForensicExportTimeRange {
    pub start: i64,
    pub end: i64,
}

/// Query listing forensic bundles, at most `limit` of them.
#[derive(Debug)]
pub struct ListForensicBundlesQuery {
    pub tenant_id: u128,
    pub limit: Option<usize>,
}

/// Time range of a forensic verification, in nanoseconds since the Unix epoch.
#[derive(Debug, Clone)]
pub struct ForensicVerificationTimeRange {
    pub start: i64,
    pub end: i64,
}

/// Intent version coverage of a forensic verification.
#[derive(Debug, Clone)]
pub struct ForensicIntentVersionCoverage {
    pub intent_exists: bool,
    pub intent_id: u128,
    pub version_count: usize,
    pub earliest_version: Option<i64>,
    pub latest_version: Option<i64>,
    pub has_artifact_traceability: bool,
}

/// Audit event coverage of a forensic verification.
#[derive(Debug, Clone)]
pub struct ForensicAuditEventCoverage {
    pub event_count: usize,
    pub time_range_complete: bool,
    pub first_event: Option<i64>,
    pub last_event: Option<i64>,
}

// =============================================================================
// Policy gate and coordination queries
// =============================================================================

/// Query evaluating the compensation policy gate of a tenant.
#[derive(Debug)]
pub struct CompensationPolicyGateQuery {
    pub tenant_id: u128,
}

/// Query evaluating the compensation policy gate of an intent.
#[derive(Debug)]
pub struct IntentCompensationPolicyGateQuery {
    pub tenant_id: u128,
}

/// Query reading the orchestration coordination of a tenant.
#[derive(Debug)]
pub struct OrchestrationCoordinationQuery {
    pub tenant_id: u128,
}

/// Query reading the orchestration coordination of an intent.
#[derive(Debug)]
pub struct IntentOrchestrationCoordinationQuery {
    pub tenant_id: u128,
}

// =============================================================================
// Impact reports
// =============================================================================

/// Query of an impact report between two versions.
#[derive(Debug)]
pub struct ImpactReportQuery {
    pub tenant_id: u128,
    pub from_version: i32,
    pub to_version: i32,
}

/// When and for which versions an impact report was made.
#[derive(Debug, Clone)]
pub struct ImpactProvenance {
    pub generated_at: i64,
    pub from_version: i32,
    pub to_version: i32,
}

/// Impact report of a change between two versions of an intent.
#[derive(Debug, Clone)]
pub struct ImpactReportResponse {
    pub intent_id: u128,
    pub tenant_id: u128,
    pub trigger: ImpactTrigger,
    pub scope: ImpactScope,
    pub invalidation: ImpactInvalidation,
    pub compensation: ImpactCompensation,
    pub safety_gates: SafetyGateSummary,
    pub provenance: ImpactProvenance,
    pub unsupported_items: Vec<String>,
}

// =============================================================================
// Propagation
// =============================================================================

/// Query reading the propagation status of an intent.
#[derive(Debug)]
pub struct PropagationStatusQuery {
    pub tenant_id: u128,
}

/// Propagation status at one downstream system.
#[derive(Debug, Clone)]
pub struct DownstreamSystemStatus {
    pub system_id: String,
    pub acknowledged_at: Option<i64>,
    pub status: String,
    pub last_seen_version: i32,
}

/// Propagation status of an intent at its downstream systems.
#[derive(Debug, Clone)]
pub struct PropagationStatusResponse {
    pub intent_id: u128,
    pub tenant_id: u128,
    pub downstream_systems: Vec<DownstreamSystemStatus>,
    pub propagation_summary: PropagationSummary,
    pub unsupported_items: Vec<String>,
}

/// Request recording that a downstream system was signalled.
#[derive(Debug, Clone)]
pub struct IngestPropagationSignalRequest {
    pub tenant_id: u128,
    pub downstream_system_id: String,
    pub last_seen_version: i32,
}

/// The propagation signal recorded.
#[derive(Debug, Clone)]
pub struct IngestPropagationSignalResponse {
    pub record_id: u128,
    pub intent_id: u128,
    pub tenant_id: u128,
    pub downstream_system_id: String,
    pub status: String,
}

// =============================================================================
// Webhook subscriptions
// =============================================================================

/// Request creating a webhook subscription.
#[derive(Debug, Clone)]
pub struct CreateWebhookSubscriptionRequest {
    pub tenant_id: u128,
    pub intent_id: u128,
    pub subscription_id: u128,
    pub webhook_url: String,
    pub downstream_system_id: Option<String>,
    pub max_attempts: Option<i32>,
    pub event_types: Option<Vec<String>>,
}

/// A webhook subscription.
#[derive(Debug, Clone)]
pub struct WebhookSubscriptionResponse {
    pub id: u128,
    pub tenant_id: u128,
    pub intent_id: u128,
    pub subscription_id: u128,
    pub webhook_url: String,
    pub downstream_system_id: Option<String>,
    pub status: String,
    pub max_attempts: i32,
    pub event_types: Vec<String>,
    pub created_at: i64,
    pub updated_at: i64,
}

/// Webhook subscriptions of an intent.
#[derive(Debug, Clone)]
pub struct ListWebhookSubscriptionsResponse {
    pub subscriptions: Vec<WebhookSubscriptionResponse>,
    pub total: usize,
}

/// Query listing the webhook subscriptions of an intent.
#[derive(Debug)]
pub struct ListWebhookSubscriptionsQuery {
    pub tenant_id: u128,
    pub intent_id: u128,
}

} // verus!

//! Triggering re-approval when the scope of an intent drifted: the
//! decisions of the endpoint, as a flow that is told the outcome of each
//! outside step and answers with the next one.
//!
//! Matching scope hashes are refused before anything else. Otherwise the
//! intent head is fetched (checking the JWT tenant when claims are
//! present), a pending approval request is created and the approved
//! requests it supersedes are cancelled, inside one tenant-scoped
//! transaction when the RLS pool, JWT claims and an SQL repository are all
//! at hand, else directly. The request is then audited and answered.

use vstd::prelude::*;
use crate::handler_common::{HandlerError, tenant_guard, guard_outcome};
use crate::ids::{uuid_string, uuid_text};

verus! {

/// A request to trigger re-approval.
#[derive(Debug)]
pub struct TriggerReapprovalRequest {
    /// Intent to request re-approval for
    pub intent_id: u128,
    /// Original intent version that was previously approved
    pub original_version_from: i32,
    /// Current intent version that requires re-approval
    pub current_version_to: i32,
    /// Scope hash at the time of original approval
    pub original_scope_hash: String,
    /// Current scope hash (computed from latest intent state)
    pub current_scope_hash: String,
    /// Human-readable reason for re-approval requirement
    pub reapproval_reason: String,
}

/// The answer to a re-approval trigger.
#[derive(Debug)]
pub struct TriggerReapprovalResponse {
    /// ID of the newly created approval request
    pub approval_request_id: u128,
    /// Intent this approval request is for
    pub intent_id: u128,
    /// Original version that was previously approved
    pub intent_version_from: i32,
    /// Current version requiring re-approval
    pub intent_version_to: i32,
    /// Approval status of the created request
    pub status: String,
    /// Advisory flag indicating a notification should be sent
    pub notification_intent: bool,
    /// Human-readable reason for re-approval
    pub reason: String,
}

/// An approval request as created: its id and status name.
#[derive(Debug)]
pub struct CreatedApproval {
    pub id: u128,
    pub status: String,
}

/// The actor recorded for re-approval triggers.
pub open spec fn reapproval_actor_text() -> Seq<char> {
    "external-api/trigger-reapproval"@
}

/// The decision class of a scope change.
pub open spec fn scope_change_text() -> Seq<char> {
    "ScopeChange"@
}

/// The message refusing a trigger whose scope hashes match.
pub open spec fn hashes_match_text() -> Seq<char> {
    "Scope hashes match — no re-approval required"@
}

/// The reason recorded on approvals superseded by `new_id`.
pub open spec fn superseded_text(new_id: u128) -> Seq<char> {
    "Superseded by new approval request "@ + uuid_text(new_id) + " due to scope change"@
}

/// The message of a failed step of the tenant-scoped transaction.
pub open spec fn tx_error_text(step: TxStep, detail: Seq<char>) -> Seq<char> {
    match step {
        TxStep::Begin => "trigger_reapproval: failed to begin RLS transaction: "@ + detail,
        TxStep::Create => "trigger_reapproval: RLS approval creation failed: "@ + detail,
        TxStep::Cancel => "trigger_reapproval: RLS cancellation failed: "@ + detail,
        TxStep::Commit => "trigger_reapproval: failed to commit RLS transaction: "@ + detail,
    }
}

/// A step of the tenant-scoped transaction.
#[derive(Clone, Copy, Debug, PartialEq, Eq, Structural)]
pub enum TxStep {
    Begin,
    Create,
    Cancel,
    Commit,
}

/// The error a failed transaction step is answered with: beginning the
/// transaction fails as an internal error, the others as storage errors.
pub open spec fn is_tx_error<E>(e: HandlerError<E>, step: TxStep, detail: Seq<char>) -> bool {
    match step {
        TxStep::Begin => e matches HandlerError::Internal(m) && m@ == tx_error_text(step, detail),
        _ => e matches HandlerError::StorageError(m) && m@ == tx_error_text(step, detail),
    }
}

/// What the flow waits for.
#[derive(Clone, Copy, Debug, PartialEq, Eq, Structural)]
pub enum ReapprovalStage {
    AwaitHead,
    AwaitTx(TxStep),
    AwaitCreate,
    AwaitFlatCancel,
    AwaitAudit,
    AwaitPublish,
    Done,
}

/// The next outside step of the endpoint.
#[derive(Debug)]
pub enum ReapprovalAction<E> {
    FetchIntentHead { intent_id: u128 },
    /// Begin a transaction scoped to the tenant.
    BeginTenantTx { tenant_id: u128 },
    /// Create the pending approval request (inside the transaction when
    /// `in_tx`).
    CreateApproval {
        in_tx: bool,
        intent_id: u128,
        version_from: i32,
        version_to: i32,
        tenant_id: u128,
        requestor_id: String,
        requestor_type: String,
        decision_class: String,
    },
    /// Cancel, inside the transaction, the approved requests of the intent.
    CancelApprovedInTx { intent_id: u128, tenant_id: u128, actor_id: String, reason: String },
    CommitTx,
    /// Cancel, with their audit events, the approved requests of the intent
    /// superseded by `new_approval_id`.
    CancelAllApproved {
        intent_id: u128,
        tenant_id: u128,
        actor_id: String,
        version_from: i32,
        version_to: i32,
        decision_class: String,
        new_approval_id: u128,
    },
    /// Record the approval-requested audit event, with its payload.
    RecordAudit {
        tenant_id: u128,
        actor_id: String,
        intent_id: u128,
        approval_request_id: u128,
        intent_version_from: i32,
        intent_version_to: i32,
        decision_class: String,
        reapproval_reason: String,
        original_scope_hash: String,
        current_scope_hash: String,
    },
    /// Publish the audit event; the publication carries the request's id,
    /// intent, versions and reason.
    PublishEvent {
        tenant_id: u128,
        event_type: String,
        approval_request_id: u128,
        intent_id: u128,
        intent_version_from: i32,
        intent_version_to: i32,
        reason: String,
    },
    /// Answer `201 Created` with the response.
    Respond { response: TriggerReapprovalResponse },
    /// Answer with an error.
    Fail { error: HandlerError<E> },
}

/// The abstract state of the flow.
pub struct ReapprovalModel {
    pub intent_id: u128,
    pub version_from: i32,
    pub version_to: i32,
    pub reason: Seq<char>,
    pub original_scope_hash: Seq<char>,
    pub current_scope_hash: Seq<char>,
    pub claims_tenant: Option<u128>,
    /// Whether the tenant-scoped transaction path is used.
    pub in_tx: bool,
    pub stage: ReapprovalStage,
    pub tenant_id: u128,
    /// The approval request created, with its status name.
    pub created: Option<(u128, Seq<char>)>,
    /// Whether the superseded approvals were cancelled.
    pub superseded_cancelled: bool,
}

impl ReapprovalModel {
    /// The model with a new stage.
    pub open spec fn at(self, s: ReapprovalStage) -> ReapprovalModel {
        ReapprovalModel { stage: s, ..self }
    }

    /// An answer reports the created request only after the approvals it
    /// supersedes were cancelled.
    pub open spec fn may_respond(self) -> bool {
        self.created is Some && self.superseded_cancelled
    }

    /// What holds at each stage.
    pub open spec fn inv(self) -> bool {
        &&& (self.superseded_cancelled ==> self.created is Some)
        &&& (self.in_tx ==> self.claims_tenant is Some)
        &&& (match self.stage {
            ReapprovalStage::AwaitHead => self.created is None,
            ReapprovalStage::AwaitCreate => !self.in_tx && self.created is None,
            ReapprovalStage::AwaitTx(TxStep::Begin) | ReapprovalStage::AwaitTx(TxStep::Create) => self.in_tx
                && self.created is None,
            ReapprovalStage::AwaitTx(TxStep::Cancel) => self.in_tx && self.created is Some
                && !self.superseded_cancelled,
            ReapprovalStage::AwaitTx(TxStep::Commit) => self.in_tx && self.superseded_cancelled,
            ReapprovalStage::AwaitFlatCancel => !self.in_tx && self.created is Some,
            ReapprovalStage::AwaitAudit | ReapprovalStage::AwaitPublish => self.superseded_cancelled,
            ReapprovalStage::Done => true,
        })
    }
}

/// `r` answers the flow with its created request.
pub open spec fn is_reapproval_response(r: TriggerReapprovalResponse, m: ReapprovalModel) -> bool {
    &&& m.created is Some
    &&& r.approval_request_id == m.created.unwrap().0
    &&& r.status@ == m.created.unwrap().1
    &&& r.intent_id == m.intent_id
    &&& r.intent_version_from == m.version_from
    &&& r.intent_version_to == m.version_to
    &&& r.notification_intent
    &&& r.reason@ == m.reason
}

/// `a` creates the pending approval request of the flow.
pub open spec fn creates_request<E>(a: ReapprovalAction<E>, m: ReapprovalModel) -> bool {
    a matches ReapprovalAction::CreateApproval {
        in_tx,
        intent_id,
        version_from,
        version_to,
        tenant_id,
        requestor_id,
        requestor_type,
        decision_class,
    } && in_tx == m.in_tx && intent_id == m.intent_id && version_from == m.version_from && version_to
        == m.version_to && tenant_id == m.tenant_id && requestor_id@ == reapproval_actor_text()
        && requestor_type@ == "external-api"@ && decision_class@ == scope_change_text()
}

/// `a` records the approval-requested audit event of the flow.
pub open spec fn records_request_audit<E>(a: ReapprovalAction<E>, m: ReapprovalModel) -> bool {
    a matches ReapprovalAction::RecordAudit {
        tenant_id,
        actor_id,
        intent_id,
        approval_request_id,
        intent_version_from,
        intent_version_to,
        decision_class,
        reapproval_reason,
        original_scope_hash,
        current_scope_hash,
    } && tenant_id == m.tenant_id && actor_id@ == reapproval_actor_text() && intent_id == m.intent_id
        && m.created is Some && approval_request_id == m.created.unwrap().0 && intent_version_from
        == m.version_from && intent_version_to == m.version_to && decision_class@ == scope_change_text()
        && reapproval_reason@ == m.reason && original_scope_hash@ == m.original_scope_hash
        && current_scope_hash@ == m.current_scope_hash
}

/// The flow of one re-approval trigger.
pub struct ReapprovalFlow {
    intent_id: u128,
    version_from: i32,
    version_to: i32,
    reason: String,
    original_scope_hash: String,
    current_scope_hash: String,
    claims_tenant: Option<u128>,
    in_tx: bool,
    stage: ReapprovalStage,
    tenant_id: u128,
    created: Option<CreatedApproval>,
    superseded_cancelled: bool,
}

impl View for ReapprovalFlow {
    type V = ReapprovalModel;

    closed spec fn view(&self) -> ReapprovalModel {
        ReapprovalModel {
            intent_id: self.intent_id,
            version_from: self.version_from,
            version_to: self.version_to,
            reason: self.reason@,
            original_scope_hash: self.original_scope_hash@,
            current_scope_hash: self.current_scope_hash@,
            claims_tenant: self.claims_tenant,
            in_tx: self.in_tx,
            stage: self.stage,
            tenant_id: self.tenant_id,
            created: match self.created {
                Some(c) => Some((c.id, c.status@)),
                None => None,
            },
            superseded_cancelled: self.superseded_cancelled,
        }
    }
}

fn reapproval_actor() -> (s: String)
    ensures
        s@ == reapproval_actor_text(),
{
    String::from_str("external-api/trigger-reapproval")
}

fn tx_error<E>(step: TxStep, detail: String) -> (e: HandlerError<E>)
    ensures
        is_tx_error(e, step, detail@),
{
    let mut m = match step {
        TxStep::Begin => String::from_str("trigger_reapproval: failed to begin RLS transaction: "),
        TxStep::Create => String::from_str("trigger_reapproval: RLS approval creation failed: "),
        TxStep::Cancel => String::from_str("trigger_reapproval: RLS cancellation failed: "),
        TxStep::Commit => String::from_str("trigger_reapproval: failed to commit RLS transaction: "),
    };
    m.append(detail.as_str());
    match step {
        TxStep::Begin => HandlerError::Internal(m),
        _ => HandlerError::StorageError(m),
    }
}

impl ReapprovalFlow {
    /// Starts the flow. Matching scope hashes are refused at once;
    /// otherwise the intent head is fetched. The transaction path is taken
    /// when `rls_pool` is available, JWT claims are present and the
    /// approval repository is SQL-backed (`sql_repo`).
    pub fn start<E>(request: TriggerReapprovalRequest, claims_tenant: Option<u128>, rls_pool: bool, sql_repo: bool) -> (r: (
        Self,
        ReapprovalAction<E>,
    ))
        ensures
            r.0@.inv(),
            r.0@.intent_id == request.intent_id,
            r.0@.version_from == request.original_version_from,
            r.0@.version_to == request.current_version_to,
            r.0@.reason == request.reapproval_reason@,
            r.0@.original_scope_hash == request.original_scope_hash@,
            r.0@.current_scope_hash == request.current_scope_hash@,
            r.0@.claims_tenant == claims_tenant,
            r.0@.in_tx == (rls_pool && claims_tenant is Some && sql_repo),
            r.0@.created is None && !r.0@.superseded_cancelled,
            if request.original_scope_hash@ == request.current_scope_hash@ {
                &&& r.1 matches ReapprovalAction::Fail { error: HandlerError::InvalidIngestRequest(m) } && m@
                    == hashes_match_text()
                &&& r.0@.stage == ReapprovalStage::Done
            } else {
                &&& r.1 == (ReapprovalAction::<E>::FetchIntentHead { intent_id: request.intent_id })
                &&& r.0@.stage == ReapprovalStage::AwaitHead
            },
    {
        let same = request.original_scope_hash == request.current_scope_hash;
        let in_tx = rls_pool && claims_tenant.is_some() && sql_repo;
        let intent_id = request.intent_id;
        let flow = ReapprovalFlow {
            intent_id,
            version_from: request.original_version_from,
            version_to: request.current_version_to,
            reason: request.reapproval_reason,
            original_scope_hash: request.original_scope_hash,
            current_scope_hash: request.current_scope_hash,
            claims_tenant,
            in_tx,
            stage: if same {
                ReapprovalStage::Done
            } else {
                ReapprovalStage::AwaitHead
            },
            tenant_id: 0,
            created: None,
            superseded_cancelled: false,
        };
        if same {
            let error = HandlerError::InvalidIngestRequest(
                String::from_str("Scope hashes match — no re-approval required"),
            );
            (flow, ReapprovalAction::Fail { error })
        } else {
            (flow, ReapprovalAction::FetchIntentHead { intent_id })
        }
    }

    /// The stage the flow waits in.
    pub fn stage(&self) -> (s: ReapprovalStage)
        ensures
            s == self@.stage,
    {
        self.stage
    }

    fn fail<E>(&mut self, error: HandlerError<E>) -> (a: ReapprovalAction<E>)
        requires
            old(self)@.inv(),
        ensures
            final(self)@.inv(),
            final(self)@ == old(self)@.at(ReapprovalStage::Done),
            a == (ReapprovalAction::Fail { error }),
    {
        self.stage = ReapprovalStage::Done;
        ReapprovalAction::Fail { error }
    }

    fn create_request<E>(&mut self) -> (a: ReapprovalAction<E>)
        requires
            old(self)@.inv(),
            old(self)@.created is None,
            old(self)@.stage == (if old(self)@.in_tx {
                ReapprovalStage::AwaitTx(TxStep::Create)
            } else {
                ReapprovalStage::AwaitCreate
            }),
        ensures
            final(self)@ == old(self)@,
            creates_request(a, old(self)@),
    {
        ReapprovalAction::CreateApproval {
            in_tx: self.in_tx,
            intent_id: self.intent_id,
            version_from: self.version_from,
            version_to: self.version_to,
            tenant_id: self.tenant_id,
            requestor_id: reapproval_actor(),
            requestor_type: String::from_str("external-api"),
            decision_class: String::from_str("ScopeChange"),
        }
    }

    /// The intent head was fetched, giving the owning tenant. A fetch error
    /// is answered as is; a JWT naming another tenant is refused; else the
    /// transaction is begun for the claimed tenant, or, off the transaction
    /// path, the approval request is created.
    pub fn on_head<E>(&mut self, head: Result<u128, E>) -> (a: ReapprovalAction<E>)
        requires
            old(self)@.inv(),
            old(self)@.stage == ReapprovalStage::AwaitHead,
        ensures
            final(self)@.inv(),
            match head {
                Err(e) => a == (ReapprovalAction::Fail { error: HandlerError::Service(e) }) && final(self)@
                    == old(self)@.at(ReapprovalStage::Done),
                Ok(t) => {
                    let guard: Result<(), HandlerError<E>> = match a {
                        ReapprovalAction::Fail { error } => Err(error),
                        _ => Ok(()),
                    };
                    let owned = ReapprovalModel { tenant_id: t, ..old(self)@ };
                    &&& guard_outcome("intent"@, old(self)@.claims_tenant, t, guard)
                    &&& guard is Err ==> final(self)@ == old(self)@.at(ReapprovalStage::Done)
                    &&& guard is Ok && old(self)@.in_tx ==> a == (ReapprovalAction::<E>::BeginTenantTx {
                        tenant_id: old(self)@.claims_tenant->0,
                    }) && final(self)@ == owned.at(ReapprovalStage::AwaitTx(TxStep::Begin))
                    &&& guard is Ok && !old(self)@.in_tx ==> creates_request(a, owned) && final(self)@
                        == owned.at(ReapprovalStage::AwaitCreate)
                },
            },
    {
        match head {
            Err(e) => self.fail(HandlerError::Service(e)),
            Ok(t) => {
                match tenant_guard::<E>("intent", self.claims_tenant, t) {
                    Err(error) => self.fail(error),
                    Ok(()) => {
                        self.tenant_id = t;
                        if self.in_tx {
                            self.stage = ReapprovalStage::AwaitTx(TxStep::Begin);
                            let tenant_id = match self.claims_tenant {
                                Some(c) => c,
                                None => t,
                            };
                            ReapprovalAction::BeginTenantTx { tenant_id }
                        } else {
                            self.stage = ReapprovalStage::AwaitCreate;
                            self.create_request()
                        }
                    },
                }
            },
        }
    }

    /// The transaction was begun: create the approval request in it. A
    /// failure, given by its message, is answered as an internal error.
    pub fn on_tx_begun<E>(&mut self, begun: Result<(), String>) -> (a: ReapprovalAction<E>)
        requires
            old(self)@.inv(),
            old(self)@.stage == ReapprovalStage::AwaitTx(TxStep::Begin),
        ensures
            final(self)@.inv(),
            match begun {
                Err(d) => (a matches ReapprovalAction::Fail { error } && is_tx_error(error, TxStep::Begin, d@))
                    && final(self)@ == old(self)@.at(ReapprovalStage::Done),
                Ok(()) => creates_request(a, old(self)@) && final(self)@ == old(self)@.at(
                    ReapprovalStage::AwaitTx(TxStep::Create),
                ),
            },
    {
        match begun {
            Err(d) => self.fail(tx_error(TxStep::Begin, d)),
            Ok(()) => {
                self.stage = ReapprovalStage::AwaitTx(TxStep::Create);
                self.create_request()
            },
        }
    }

    /// The approval request was created in the transaction: cancel the
    /// approvals it supersedes in the same transaction. A failure, given by
    /// its message, is answered as a storage error.
    pub fn on_tx_created<E>(&mut self, created: Result<CreatedApproval, String>) -> (a: ReapprovalAction<E>)
        requires
            old(self)@.inv(),
            old(self)@.stage == ReapprovalStage::AwaitTx(TxStep::Create),
        ensures
            final(self)@.inv(),
            match created {
                Err(d) => (a matches ReapprovalAction::Fail { error } && is_tx_error(error, TxStep::Create, d@))
                    && final(self)@ == old(self)@.at(ReapprovalStage::Done),
                Ok(c) => {
                    &&& a matches ReapprovalAction::CancelApprovedInTx { intent_id, tenant_id, actor_id, reason }
                        && intent_id == old(self)@.intent_id && tenant_id == old(self)@.tenant_id && actor_id@
                        == reapproval_actor_text() && reason@ == superseded_text(c.id)
                    &&& final(self)@ == (ReapprovalModel {
                        created: Some((c.id, c.status@)),
                        ..old(self)@.at(ReapprovalStage::AwaitTx(TxStep::Cancel))
                    })
                },
            },
    {
        match created {
            Err(d) => self.fail(tx_error(TxStep::Create, d)),
            Ok(c) => {
                let mut reason = String::from_str("Superseded by new approval request ");
                reason.append(uuid_string(c.id).as_str());
                reason.append(" due to scope change");
                self.created = Some(c);
                self.stage = ReapprovalStage::AwaitTx(TxStep::Cancel);
                ReapprovalAction::CancelApprovedInTx {
                    intent_id: self.intent_id,
                    tenant_id: self.tenant_id,
                    actor_id: reapproval_actor(),
                    reason,
                }
            },
        }
    }

    /// The superseded approvals were cancelled in the transaction: commit
    /// it. A failure, given by its message, is answered as a storage error.
    pub fn on_tx_cancelled<E>(&mut self, cancelled: Result<u64, String>) -> (a: ReapprovalAction<E>)
        requires
            old(self)@.inv(),
            old(self)@.stage == ReapprovalStage::AwaitTx(TxStep::Cancel),
        ensures
            final(self)@.inv(),
            match cancelled {
                Err(d) => (a matches ReapprovalAction::Fail { error } && is_tx_error(error, TxStep::Cancel, d@))
                    && final(self)@ == old(self)@.at(ReapprovalStage::Done),
                Ok(_) => a == ReapprovalAction::<E>::CommitTx && final(self)@ == (ReapprovalModel {
                    superseded_cancelled: true,
                    ..old(self)@.at(ReapprovalStage::AwaitTx(TxStep::Commit))
                }),
            },
    {
        match cancelled {
            Err(d) => self.fail(tx_error(TxStep::Cancel, d)),
            Ok(_) => {
                self.superseded_cancelled = true;
                self.stage = ReapprovalStage::AwaitTx(TxStep::Commit);
                ReapprovalAction::CommitTx
            },
        }
    }

    fn record_audit<E>(&mut self) -> (a: ReapprovalAction<E>)
        requires
            old(self)@.inv(),
            old(self)@.created is Some,
            old(self)@.superseded_cancelled,
        ensures
            final(self)@.inv(),
            records_request_audit(a, old(self)@),
            final(self)@ == old(self)@.at(ReapprovalStage::AwaitAudit),
    {
        self.stage = ReapprovalStage::AwaitAudit;
        let approval_request_id = match &self.created {
            Some(c) => c.id,
            None => 0,
        };
        ReapprovalAction::RecordAudit {
            tenant_id: self.tenant_id,
            actor_id: reapproval_actor(),
            intent_id: self.intent_id,
            approval_request_id,
            intent_version_from: self.version_from,
            intent_version_to: self.version_to,
            decision_class: String::from_str("ScopeChange"),
            reapproval_reason: self.reason.clone(),
            original_scope_hash: self.original_scope_hash.clone(),
            current_scope_hash: self.current_scope_hash.clone(),
        }
    }

    /// The transaction was committed: record the audit event. A failure,
    /// given by its message, is answered as a storage error.
    pub fn on_tx_committed<E>(&mut self, committed: Result<(), String>) -> (a: ReapprovalAction<E>)
        requires
            old(self)@.inv(),
            old(self)@.stage == ReapprovalStage::AwaitTx(TxStep::Commit),
        ensures
            final(self)@.inv(),
            match committed {
                Err(d) => (a matches ReapprovalAction::Fail { error } && is_tx_error(error, TxStep::Commit, d@))
                    && final(self)@ == old(self)@.at(ReapprovalStage::Done),
                Ok(()) => records_request_audit(a, old(self)@) && final(self)@ == old(self)@.at(
                    ReapprovalStage::AwaitAudit,
                ),
            },
    {
        match committed {
            Err(d) => self.fail(tx_error(TxStep::Commit, d)),
            Ok(()) => self.record_audit(),
        }
    }

    /// The approval request was created off the transaction path: cancel
    /// the approved requests it supersedes. A creation error is answered as
    /// is.
    pub fn on_created<E>(&mut self, created: Result<CreatedApproval, E>) -> (a: ReapprovalAction<E>)
        requires
            old(self)@.inv(),
            old(self)@.stage == ReapprovalStage::AwaitCreate,
        ensures
            final(self)@.inv(),
            match created {
                Err(e) => a == (ReapprovalAction::Fail { error: HandlerError::Service(e) }) && final(self)@
                    == old(self)@.at(ReapprovalStage::Done),
                Ok(c) => {
                    &&& a matches ReapprovalAction::CancelAllApproved {
                        intent_id,
                        tenant_id,
                        actor_id,
                        version_from,
                        version_to,
                        decision_class,
                        new_approval_id,
                    } && intent_id == old(self)@.intent_id && tenant_id == old(self)@.tenant_id && actor_id@
                        == reapproval_actor_text() && version_from == old(self)@.version_from && version_to == old(
                    self)@.version_to && decision_class@ == scope_change_text() && new_approval_id == c.id
                    &&& final(self)@ == (ReapprovalModel {
                        created: Some((c.id, c.status@)),
                        ..old(self)@.at(ReapprovalStage::AwaitFlatCancel)
                    })
                },
            },
    {
        match created {
            Err(e) => self.fail(HandlerError::Service(e)),
            Ok(c) => {
                let new_approval_id = c.id;
                self.created = Some(c);
                self.stage = ReapprovalStage::AwaitFlatCancel;
                ReapprovalAction::CancelAllApproved {
                    intent_id: self.intent_id,
                    tenant_id: self.tenant_id,
                    actor_id: reapproval_actor(),
                    version_from: self.version_from,
                    version_to: self.version_to,
                    decision_class: String::from_str("ScopeChange"),
                    new_approval_id,
                }
            },
        }
    }

    /// The superseded approvals were cancelled: record the audit event.
    pub fn on_flat_cancelled<E>(&mut self) -> (a: ReapprovalAction<E>)
        requires
            old(self)@.inv(),
            old(self)@.stage == ReapprovalStage::AwaitFlatCancel,
        ensures
            final(self)@.inv(),
            records_request_audit(a, old(self)@),
            final(self)@ == (ReapprovalModel {
                superseded_cancelled: true,
                ..old(self)@.at(ReapprovalStage::AwaitAudit)
            }),
    {
        self.superseded_cancelled = true;
        self.record_audit()
    }

    fn respond<E>(&mut self) -> (a: ReapprovalAction<E>)
        requires
            old(self)@.inv(),
            old(self)@.created is Some,
            old(self)@.superseded_cancelled,
        ensures
            final(self)@.inv(),
            final(self)@ == old(self)@.at(ReapprovalStage::Done),
            a matches ReapprovalAction::Respond { response } && is_reapproval_response(response, old(self)@),
    {
        self.stage = ReapprovalStage::Done;
        let (approval_request_id, status) = match &self.created {
            Some(c) => (c.id, c.status.clone()),
            None => (0, String::new()),
        };
        let response = TriggerReapprovalResponse {
            approval_request_id,
            intent_id: self.intent_id,
            intent_version_from: self.version_from,
            intent_version_to: self.version_to,
            status,
            notification_intent: true,
            reason: self.reason.clone(),
        };
        ReapprovalAction::Respond { response }
    }

    /// The audit event was recorded (`recorded`): publish it; an audit
    /// failure skips the publication and answers at once.
    pub fn on_audit_recorded<E>(&mut self, recorded: bool) -> (a: ReapprovalAction<E>)
        requires
            old(self)@.inv(),
            old(self)@.stage == ReapprovalStage::AwaitAudit,
        ensures
            final(self)@.inv(),
            old(self)@.may_respond(),
            recorded ==> (a matches ReapprovalAction::PublishEvent {
                tenant_id,
                event_type,
                approval_request_id,
                intent_id,
                intent_version_from,
                intent_version_to,
                reason,
            } && tenant_id == old(self)@.tenant_id && event_type@ == "ApprovalRequested"@ && approval_request_id
                == old(self)@.created.unwrap().0 && intent_id == old(self)@.intent_id && intent_version_from == old(
            self)@.version_from && intent_version_to == old(self)@.version_to && reason@ == old(self)@.reason)
                && final(self)@ == old(self)@.at(ReapprovalStage::AwaitPublish),
            !recorded ==> (a matches ReapprovalAction::Respond { response } && is_reapproval_response(
                response,
                old(self)@,
            )) && final(self)@ == old(self)@.at(ReapprovalStage::Done),
    {
        if recorded {
            self.stage = ReapprovalStage::AwaitPublish;
            let approval_request_id = match &self.created {
                Some(c) => c.id,
                None => 0,
            };
            ReapprovalAction::PublishEvent {
                tenant_id: self.tenant_id,
                event_type: String::from_str("ApprovalRequested"),
                approval_request_id,
                intent_id: self.intent_id,
                intent_version_from: self.version_from,
                intent_version_to: self.version_to,
                reason: self.reason.clone(),
            }
        } else {
            self.respond()
        }
    }

    /// The audit event was published: answer.
    pub fn on_published<E>(&mut self) -> (a: ReapprovalAction<E>)
        requires
            old(self)@.inv(),
            old(self)@.stage == ReapprovalStage::AwaitPublish,
        ensures
            final(self)@.inv(),
            old(self)@.may_respond(),
            a matches ReapprovalAction::Respond { response } && is_reapproval_response(response, old(self)@),
            final(self)@ == old(self)@.at(ReapprovalStage::Done),
    {
        self.respond()
    }
}

} // verus!

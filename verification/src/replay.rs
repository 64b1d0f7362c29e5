//! Initiating a bounded replay of an intent: the decisions of the endpoint,
//! as a flow that is told the outcome of each outside step and answers
//! with the next one.
//!
//! The intent head is fetched; the source version defaults to the head's
//! version. With JWT claims the owning tenant is checked and the replay
//! follows at once; without them the target version, and the source
//! version when given explicitly, are checked to exist first. A replay is
//! audited, and the audit event published when it was recorded; the answer
//! carries the replay's result.

use vstd::prelude::*;
use crate::handler_common::{HandlerError, tenant_guard, guard_outcome};
use crate::text::{i64_decimal, signed_decimal_text};

verus! {

/// A request to replay an intent.
#[derive(Debug)]
pub struct ReplayRequest {
    /// Source version (the head's version when absent)
    pub from_version: Option<i32>,
    /// Target version
    pub to_version: i32,
    /// A specific checkpoint to replay from
    pub checkpoint_id: Option<u128>,
}

/// What the endpoint reads of an intent head.
#[derive(Clone, Copy, Debug)]
pub struct HeadFacts {
    pub tenant_id: u128,
    pub version_number: i32,
}

/// What the endpoint reads of the result of a replay.
#[derive(Debug)]
pub struct ReplayOutcome {
    /// The checkpoint the replay was aligned to, if any
    pub aligned_checkpoint_id: Option<u128>,
    /// How the checkpoint was selected
    pub checkpoint_selection_outcome: String,
    /// The runtime's execution status, as its label
    pub runtime_execution_status: String,
    pub signal_sent: bool,
    pub replay_attempted: bool,
    pub replay_completed: bool,
}

/// Answer of the replay endpoint.
#[derive(Debug)]
pub struct ReplayResponse {
    pub intent_id: u128,
    pub from_version: i32,
    pub to_version: i32,
    pub aligned_checkpoint_id: Option<u128>,
    pub checkpoint_selection_outcome: String,
    pub runtime_execution_status: String,
    pub signal_sent: bool,
    pub replay_attempted: bool,
    pub replay_completed: bool,
}

/// The actor recorded for replays through the public endpoint.
pub open spec fn replay_actor_text() -> Seq<char> {
    "external-api/replay"@
}

/// How the replay was initiated, as audited.
pub open spec fn replay_via_text() -> Seq<char> {
    "post-intents-intent-id-replay"@
}

/// The audited rationale of a replay from `from` to `to`.
pub open spec fn replay_rationale_text(from: i32, to: i32) -> Seq<char> {
    "Bounded replay initiated from v"@ + signed_decimal_text(from as int) + " to v"@ + signed_decimal_text(
        to as int,
    ) + " via public replay endpoint"@
}

/// The audit rationale of a replay from `from` to `to`.
pub fn replay_rationale(from: i32, to: i32) -> (s: String)
    ensures
        s@ == replay_rationale_text(from, to),
{
    let mut s = String::from_str("Bounded replay initiated from v");
    s.append(i64_decimal(from as i64).as_str());
    s.append(" to v");
    s.append(i64_decimal(to as i64).as_str());
    s.append(" via public replay endpoint");
    s
}

/// What the flow waits for.
#[derive(Clone, Copy, Debug, PartialEq, Eq, Structural)]
pub enum ReplayStage {
    AwaitHead,
    AwaitToVersion,
    AwaitFromVersion,
    AwaitReplay,
    AwaitAudit,
    AwaitPublish,
    Done,
}

/// The next outside step of the endpoint.
#[derive(Debug)]
pub enum ReplayAction<E> {
    FetchIntentHead { intent_id: u128 },
    /// Check that the version exists.
    FetchVersion { intent_id: u128, version: i32 },
    /// Replay the intent's workflow from `from_version` to `to_version`.
    Replay { intent_id: u128, tenant_id: u128, from_version: i32, to_version: i32, checkpoint_id: Option<u128> },
    /// Record the replay-initiated audit event.
    RecordAudit {
        tenant_id: u128,
        actor_id: String,
        intent_id: u128,
        from_version: i32,
        to_version: i32,
        checkpoint_id: Option<u128>,
        checkpoint_selection_outcome: String,
        initiated_via: String,
        rationale: String,
    },
    PublishEvent { tenant_id: u128, event_type: String },
    /// Answer with the replay's result.
    Respond { response: ReplayResponse },
    Fail { error: HandlerError<E> },
}

/// The abstract state of the flow.
pub struct ReplayModel {
    pub intent_id: u128,
    pub requested_from: Option<i32>,
    pub to_version: i32,
    pub checkpoint_id: Option<u128>,
    pub claims_tenant: Option<u128>,
    pub stage: ReplayStage,
    pub tenant_id: u128,
    /// The source version, once the head is known.
    pub from_version: i32,
    /// The replay's result, once it was initiated.
    pub outcome: Option<ReplayOutcome>,
}

impl ReplayModel {
    /// The model with a new stage.
    pub open spec fn at(self, s: ReplayStage) -> ReplayModel {
        ReplayModel { stage: s, ..self }
    }

    /// The result of the replay is known while its audit and publication
    /// are under way.
    pub open spec fn inv(self) -> bool {
        (self.stage == ReplayStage::AwaitAudit || self.stage == ReplayStage::AwaitPublish) ==> self.outcome is Some
    }

    /// The answer of a flow whose replay has the result `o`.
    pub open spec fn response(self, o: ReplayOutcome) -> ReplayResponse {
        ReplayResponse {
            intent_id: self.intent_id,
            from_version: self.from_version,
            to_version: self.to_version,
            aligned_checkpoint_id: o.aligned_checkpoint_id,
            checkpoint_selection_outcome: o.checkpoint_selection_outcome,
            runtime_execution_status: o.runtime_execution_status,
            signal_sent: o.signal_sent,
            replay_attempted: o.replay_attempted,
            replay_completed: o.replay_completed,
        }
    }
}

/// `a` replays the flow's intent.
pub open spec fn replays<E>(a: ReplayAction<E>, m: ReplayModel) -> bool {
    a == ReplayAction::<E>::Replay {
        intent_id: m.intent_id,
        tenant_id: m.tenant_id,
        from_version: m.from_version,
        to_version: m.to_version,
        checkpoint_id: m.checkpoint_id,
    }
}

/// `a` records the audit event of the flow's replay, whose result is `o`.
pub open spec fn records_replay_audit<E>(a: ReplayAction<E>, m: ReplayModel, o: ReplayOutcome) -> bool {
    a matches ReplayAction::RecordAudit {
        tenant_id,
        actor_id,
        intent_id,
        from_version,
        to_version,
        checkpoint_id,
        checkpoint_selection_outcome,
        initiated_via,
        rationale,
    } && tenant_id == m.tenant_id && actor_id@ == replay_actor_text() && intent_id == m.intent_id
        && from_version == m.from_version && to_version == m.to_version && checkpoint_id
        == o.aligned_checkpoint_id && checkpoint_selection_outcome == o.checkpoint_selection_outcome
        && initiated_via@ == replay_via_text() && rationale@ == replay_rationale_text(m.from_version, m.to_version)
}

/// `a` answers with the response of the flow `m`, whose replay is known.
pub open spec fn responds<E>(a: ReplayAction<E>, m: ReplayModel) -> bool {
    a == ReplayAction::<E>::Respond { response: m.response(m.outcome->0) }
}

/// The flow of one replay request.
pub struct ReplayFlow {
    intent_id: u128,
    requested_from: Option<i32>,
    to_version: i32,
    checkpoint_id: Option<u128>,
    claims_tenant: Option<u128>,
    stage: ReplayStage,
    tenant_id: u128,
    from_version: i32,
    outcome: Option<ReplayOutcome>,
}

impl View for ReplayFlow {
    type V = ReplayModel;

    closed spec fn view(&self) -> ReplayModel {
        ReplayModel {
            intent_id: self.intent_id,
            requested_from: self.requested_from,
            to_version: self.to_version,
            checkpoint_id: self.checkpoint_id,
            claims_tenant: self.claims_tenant,
            stage: self.stage,
            tenant_id: self.tenant_id,
            from_version: self.from_version,
            outcome: self.outcome,
        }
    }
}

impl ReplayFlow {
    /// Starts the flow for a replay of `intent_id`; `claims_tenant` is the
    /// tenant of the JWT claims, if any. The first step fetches the head.
    pub fn start<E>(intent_id: u128, request: ReplayRequest, claims_tenant: Option<u128>) -> (r: (Self, ReplayAction<E>))
        ensures
            r.0@ == (ReplayModel {
                intent_id,
                requested_from: request.from_version,
                to_version: request.to_version,
                checkpoint_id: request.checkpoint_id,
                claims_tenant,
                stage: ReplayStage::AwaitHead,
                tenant_id: 0,
                from_version: 0,
                outcome: None,
            }),
            r.0@.inv(),
            r.1 == (ReplayAction::<E>::FetchIntentHead { intent_id }),
    {
        let flow = ReplayFlow {
            intent_id,
            requested_from: request.from_version,
            to_version: request.to_version,
            checkpoint_id: request.checkpoint_id,
            claims_tenant,
            stage: ReplayStage::AwaitHead,
            tenant_id: 0,
            from_version: 0,
            outcome: None,
        };
        (flow, ReplayAction::FetchIntentHead { intent_id })
    }

    /// The stage the flow waits in.
    pub fn stage(&self) -> (s: ReplayStage)
        ensures
            s == self@.stage,
    {
        self.stage
    }

    fn fail<E>(&mut self, error: HandlerError<E>) -> (a: ReplayAction<E>)
        ensures
            final(self)@ == old(self)@.at(ReplayStage::Done),
            a == (ReplayAction::Fail { error }),
    {
        self.stage = ReplayStage::Done;
        ReplayAction::Fail { error }
    }

    fn replay<E>(&mut self) -> (a: ReplayAction<E>)
        ensures
            replays(a, old(self)@),
            final(self)@ == old(self)@.at(ReplayStage::AwaitReplay),
    {
        self.stage = ReplayStage::AwaitReplay;
        ReplayAction::Replay {
            intent_id: self.intent_id,
            tenant_id: self.tenant_id,
            from_version: self.from_version,
            to_version: self.to_version,
            checkpoint_id: self.checkpoint_id,
        }
    }

    /// The intent head was fetched. A fetch error is answered as is. With
    /// JWT claims, a JWT naming another tenant is refused, else the replay
    /// follows; without them the target version is checked first. The
    /// source version is the requested one, or the head's.
    pub fn on_head<E>(&mut self, head: Result<HeadFacts, E>) -> (a: ReplayAction<E>)
        requires
            old(self)@.inv(),
            old(self)@.stage == ReplayStage::AwaitHead,
        ensures
            final(self)@.inv(),
            match head {
                Err(e) => a == (ReplayAction::Fail { error: HandlerError::Service(e) }) && final(self)@ == old(
                    self)@.at(ReplayStage::Done),
                Ok(h) => {
                    let known = ReplayModel {
                        tenant_id: h.tenant_id,
                        from_version: match old(self)@.requested_from {
                            Some(v) => v,
                            None => h.version_number,
                        },
                        ..old(self)@
                    };
                    let guard: Result<(), HandlerError<E>> = match a {
                        ReplayAction::Fail { error } => Err(error),
                        _ => Ok(()),
                    };
                    &&& guard_outcome("intent"@, old(self)@.claims_tenant, h.tenant_id, guard)
                    &&& guard is Err ==> final(self)@ == old(self)@.at(ReplayStage::Done)
                    &&& guard is Ok && old(self)@.claims_tenant is Some ==> replays(a, known) && final(self)@
                        == known.at(ReplayStage::AwaitReplay)
                    &&& old(self)@.claims_tenant is None ==> a == (ReplayAction::<E>::FetchVersion {
                        intent_id: old(self)@.intent_id,
                        version: old(self)@.to_version,
                    }) && final(self)@ == known.at(ReplayStage::AwaitToVersion)
                },
            },
    {
        match head {
            Err(e) => self.fail(HandlerError::Service(e)),
            Ok(h) => {
                match tenant_guard::<E>("intent", self.claims_tenant, h.tenant_id) {
                    Err(error) => self.fail(error),
                    Ok(()) => {
                        self.tenant_id = h.tenant_id;
                        self.from_version = match self.requested_from {
                            Some(v) => v,
                            None => h.version_number,
                        };
                        if self.claims_tenant.is_some() {
                            self.replay()
                        } else {
                            self.stage = ReplayStage::AwaitToVersion;
                            ReplayAction::FetchVersion { intent_id: self.intent_id, version: self.to_version }
                        }
                    },
                }
            },
        }
    }

    /// The target version was checked: check the source version when it
    /// was requested explicitly, else replay. An error is answered as is.
    pub fn on_to_version<E>(&mut self, checked: Result<(), E>) -> (a: ReplayAction<E>)
        requires
            old(self)@.inv(),
            old(self)@.stage == ReplayStage::AwaitToVersion,
        ensures
            final(self)@.inv(),
            match checked {
                Err(e) => a == (ReplayAction::Fail { error: HandlerError::Service(e) }) && final(self)@ == old(
                    self)@.at(ReplayStage::Done),
                Ok(()) => if old(self)@.requested_from is Some {
                    a == (ReplayAction::<E>::FetchVersion {
                        intent_id: old(self)@.intent_id,
                        version: old(self)@.from_version,
                    }) && final(self)@ == old(self)@.at(ReplayStage::AwaitFromVersion)
                } else {
                    replays(a, old(self)@) && final(self)@ == old(self)@.at(ReplayStage::AwaitReplay)
                },
            },
    {
        match checked {
            Err(e) => self.fail(HandlerError::Service(e)),
            Ok(()) => {
                if self.requested_from.is_some() {
                    self.stage = ReplayStage::AwaitFromVersion;
                    ReplayAction::FetchVersion { intent_id: self.intent_id, version: self.from_version }
                } else {
                    self.replay()
                }
            },
        }
    }

    /// The explicit source version was checked: replay. An error is
    /// answered as is.
    pub fn on_from_version<E>(&mut self, checked: Result<(), E>) -> (a: ReplayAction<E>)
        requires
            old(self)@.inv(),
            old(self)@.stage == ReplayStage::AwaitFromVersion,
        ensures
            final(self)@.inv(),
            match checked {
                Err(e) => a == (ReplayAction::Fail { error: HandlerError::Service(e) }) && final(self)@ == old(
                    self)@.at(ReplayStage::Done),
                Ok(()) => replays(a, old(self)@) && final(self)@ == old(self)@.at(ReplayStage::AwaitReplay),
            },
    {
        match checked {
            Err(e) => self.fail(HandlerError::Service(e)),
            Ok(()) => self.replay(),
        }
    }

    /// The replay was initiated, with the result `replayed`: audit it,
    /// naming the checkpoint it was aligned to. An error is answered as is.
    pub fn on_replayed<E>(&mut self, replayed: Result<ReplayOutcome, E>) -> (a: ReplayAction<E>)
        requires
            old(self)@.inv(),
            old(self)@.stage == ReplayStage::AwaitReplay,
        ensures
            final(self)@.inv(),
            match replayed {
                Err(e) => a == (ReplayAction::Fail { error: HandlerError::Service(e) }) && final(self)@ == old(
                    self)@.at(ReplayStage::Done),
                Ok(o) => records_replay_audit(a, old(self)@, o) && final(self)@ == (ReplayModel {
                    outcome: Some(o),
                    ..old(self)@
                }).at(ReplayStage::AwaitAudit),
            },
    {
        match replayed {
            Err(e) => self.fail(HandlerError::Service(e)),
            Ok(o) => {
                let checkpoint_id = o.aligned_checkpoint_id;
                let selection = o.checkpoint_selection_outcome.clone();
                self.outcome = Some(o);
                self.stage = ReplayStage::AwaitAudit;
                ReplayAction::RecordAudit {
                    tenant_id: self.tenant_id,
                    actor_id: String::from_str("external-api/replay"),
                    intent_id: self.intent_id,
                    from_version: self.from_version,
                    to_version: self.to_version,
                    checkpoint_id,
                    checkpoint_selection_outcome: selection,
                    initiated_via: String::from_str("post-intents-intent-id-replay"),
                    rationale: replay_rationale(self.from_version, self.to_version),
                }
            },
        }
    }

    fn respond<E>(&mut self) -> (a: ReplayAction<E>)
        requires
            old(self)@.outcome is Some,
        ensures
            responds(a, old(self)@),
            final(self)@ == old(self)@.at(ReplayStage::Done),
    {
        self.stage = ReplayStage::Done;
        match &self.outcome {
            Some(o) => ReplayAction::Respond {
                response: ReplayResponse {
                    intent_id: self.intent_id,
                    from_version: self.from_version,
                    to_version: self.to_version,
                    aligned_checkpoint_id: o.aligned_checkpoint_id,
                    checkpoint_selection_outcome: o.checkpoint_selection_outcome.clone(),
                    runtime_execution_status: o.runtime_execution_status.clone(),
                    signal_sent: o.signal_sent,
                    replay_attempted: o.replay_attempted,
                    replay_completed: o.replay_completed,
                },
            },
            None => vstd::pervasive::unreached(),
        }
    }

    /// The audit event was recorded (`recorded`): publish it; an audit
    /// failure skips the publication and answers at once.
    pub fn on_audit_recorded<E>(&mut self, recorded: bool) -> (a: ReplayAction<E>)
        requires
            old(self)@.inv(),
            old(self)@.stage == ReplayStage::AwaitAudit,
        ensures
            final(self)@.inv(),
            recorded ==> (a matches ReplayAction::PublishEvent { tenant_id, event_type } && tenant_id == old(
                self)@.tenant_id && event_type@ == "ReplayInitiated"@) && final(self)@ == old(self)@.at(
                ReplayStage::AwaitPublish,
            ),
            !recorded ==> responds(a, old(self)@) && final(self)@ == old(self)@.at(ReplayStage::Done),
    {
        if recorded {
            self.stage = ReplayStage::AwaitPublish;
            ReplayAction::PublishEvent { tenant_id: self.tenant_id, event_type: String::from_str("ReplayInitiated") }
        } else {
            self.respond()
        }
    }

    /// The audit event was published: answer with the replay's result.
    pub fn on_published<E>(&mut self) -> (a: ReplayAction<E>)
        requires
            old(self)@.inv(),
            old(self)@.stage == ReplayStage::AwaitPublish,
        ensures
            final(self)@.inv(),
            responds(a, old(self)@),
            final(self)@ == old(self)@.at(ReplayStage::Done),
    {
        self.respond()
    }
}

} // verus!

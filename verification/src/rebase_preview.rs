//! Previewing a rebase of an intent: the decisions of the endpoint, as a
//! flow that is told the outcome of each outside step and answers with the
//! next one.
//!
//! The intent head is fetched and the JWT tenant checked when claims are
//! present; the graph-integrated plan is computed and both versions are
//! fetched for the answer, which is labelled by the size of the affected
//! graph.

use vstd::prelude::*;
use crate::handler_common::{HandlerError, tenant_guard, guard_outcome};
use crate::rebase_plan::{AffectedItemsFacts, graph_size_label, graph_size_text};

verus! {

/// What the flow waits for.
#[derive(Clone, Copy, Debug, PartialEq, Eq, Structural)]
pub enum PreviewStage {
    AwaitHead,
    AwaitPlan,
    AwaitFromVersion,
    AwaitToVersion,
    Done,
}

/// The next outside step of the endpoint.
#[derive(Debug)]
pub enum PreviewAction<E> {
    FetchIntentHead { intent_id: u128 },
    ComputePlan { intent_id: u128, from_version: i32, to_version: i32 },
    FetchVersion { intent_id: u128, version: i32 },
    /// Answer with the preview; `graph_size` labels the duration metric.
    Respond { graph_size: &'static str },
    Fail { error: HandlerError<E> },
}

/// The abstract state of the flow.
pub struct PreviewModel {
    pub intent_id: u128,
    pub from_version: i32,
    pub to_version: i32,
    pub claims_tenant: Option<u128>,
    pub stage: PreviewStage,
    /// The affected items of the plan, once computed.
    pub affected: AffectedItemsFacts,
}

impl PreviewModel {
    /// The model with a new stage.
    pub open spec fn at(self, s: PreviewStage) -> PreviewModel {
        PreviewModel { stage: s, ..self }
    }
}

/// `a` fails with the service error `e`.
pub open spec fn fails_with<E>(a: PreviewAction<E>, e: E) -> bool {
    a == PreviewAction::Fail { error: HandlerError::Service(e) }
}

/// The flow of one preview request.
pub struct PreviewFlow {
    intent_id: u128,
    from_version: i32,
    to_version: i32,
    claims_tenant: Option<u128>,
    stage: PreviewStage,
    affected: AffectedItemsFacts,
}

impl View for PreviewFlow {
    type V = PreviewModel;

    closed spec fn view(&self) -> PreviewModel {
        PreviewModel {
            intent_id: self.intent_id,
            from_version: self.from_version,
            to_version: self.to_version,
            claims_tenant: self.claims_tenant,
            stage: self.stage,
            affected: self.affected,
        }
    }
}

impl PreviewFlow {
    /// Starts the flow for a preview of `intent_id` from `from_version` to
    /// `to_version`; `claims_tenant` is the tenant of the JWT claims, if
    /// any. The first step fetches the intent head.
    pub fn start<E>(intent_id: u128, from_version: i32, to_version: i32, claims_tenant: Option<u128>) -> (r: (
        Self,
        PreviewAction<E>,
    ))
        ensures
            r.0@.intent_id == intent_id,
            r.0@.from_version == from_version,
            r.0@.to_version == to_version,
            r.0@.claims_tenant == claims_tenant,
            r.0@.stage == PreviewStage::AwaitHead,
            r.1 == (PreviewAction::<E>::FetchIntentHead { intent_id }),
    {
        let flow = PreviewFlow {
            intent_id,
            from_version,
            to_version,
            claims_tenant,
            stage: PreviewStage::AwaitHead,
            affected: AffectedItemsFacts { available: false, artifacts: 0, approvals: 0, side_effects: 0 },
        };
        (flow, PreviewAction::FetchIntentHead { intent_id })
    }

    /// The stage the flow waits in.
    pub fn stage(&self) -> (s: PreviewStage)
        ensures
            s == self@.stage,
    {
        self.stage
    }

    fn fail<E>(&mut self, error: HandlerError<E>) -> (a: PreviewAction<E>)
        ensures
            final(self)@ == old(self)@.at(PreviewStage::Done),
            a == (PreviewAction::Fail { error }),
    {
        self.stage = PreviewStage::Done;
        PreviewAction::Fail { error }
    }

    /// The intent head was fetched, giving the owning tenant. A fetch error
    /// is answered as is; a JWT naming another tenant is refused; else the
    /// plan is computed.
    pub fn on_head<E>(&mut self, head: Result<u128, E>) -> (a: PreviewAction<E>)
        requires
            old(self)@.stage == PreviewStage::AwaitHead,
        ensures
            match head {
                Err(e) => fails_with(a, e) && final(self)@ == old(self)@.at(PreviewStage::Done),
                Ok(t) => {
                    let guard: Result<(), HandlerError<E>> = match a {
                        PreviewAction::Fail { error } => Err(error),
                        _ => Ok(()),
                    };
                    &&& guard_outcome("intent"@, old(self)@.claims_tenant, t, guard)
                    &&& guard is Err ==> final(self)@ == old(self)@.at(PreviewStage::Done)
                    &&& guard is Ok ==> a == (PreviewAction::<E>::ComputePlan {
                        intent_id: old(self)@.intent_id,
                        from_version: old(self)@.from_version,
                        to_version: old(self)@.to_version,
                    }) && final(self)@ == old(self)@.at(PreviewStage::AwaitPlan)
                },
            },
    {
        match head {
            Err(e) => self.fail(HandlerError::Service(e)),
            Ok(t) => {
                match tenant_guard::<E>("intent", self.claims_tenant, t) {
                    Err(error) => self.fail(error),
                    Ok(()) => {
                        self.stage = PreviewStage::AwaitPlan;
                        PreviewAction::ComputePlan {
                            intent_id: self.intent_id,
                            from_version: self.from_version,
                            to_version: self.to_version,
                        }
                    },
                }
            },
        }
    }

    /// The plan was computed: fetch the source version. An error is
    /// answered as is.
    pub fn on_plan<E>(&mut self, plan: Result<AffectedItemsFacts, E>) -> (a: PreviewAction<E>)
        requires
            old(self)@.stage == PreviewStage::AwaitPlan,
        ensures
            match plan {
                Err(e) => fails_with(a, e) && final(self)@ == old(self)@.at(PreviewStage::Done),
                Ok(f) => a == (PreviewAction::<E>::FetchVersion {
                    intent_id: old(self)@.intent_id,
                    version: old(self)@.from_version,
                }) && final(self)@ == (PreviewModel { affected: f, ..old(self)@.at(PreviewStage::AwaitFromVersion) }),
            },
    {
        match plan {
            Err(e) => self.fail(HandlerError::Service(e)),
            Ok(f) => {
                self.affected = f;
                self.stage = PreviewStage::AwaitFromVersion;
                PreviewAction::FetchVersion { intent_id: self.intent_id, version: self.from_version }
            },
        }
    }

    /// The source version was fetched: fetch the target version. An error
    /// is answered as is.
    pub fn on_from_version<E>(&mut self, fetched: Result<(), E>) -> (a: PreviewAction<E>)
        requires
            old(self)@.stage == PreviewStage::AwaitFromVersion,
        ensures
            match fetched {
                Err(e) => fails_with(a, e) && final(self)@ == old(self)@.at(PreviewStage::Done),
                Ok(()) => a == (PreviewAction::<E>::FetchVersion {
                    intent_id: old(self)@.intent_id,
                    version: old(self)@.to_version,
                }) && final(self)@ == old(self)@.at(PreviewStage::AwaitToVersion),
            },
    {
        match fetched {
            Err(e) => self.fail(HandlerError::Service(e)),
            Ok(()) => {
                self.stage = PreviewStage::AwaitToVersion;
                PreviewAction::FetchVersion { intent_id: self.intent_id, version: self.to_version }
            },
        }
    }

    /// The target version was fetched: answer, labelled by the size of the
    /// affected graph. An error is answered as is.
    pub fn on_to_version<E>(&mut self, fetched: Result<(), E>) -> (a: PreviewAction<E>)
        requires
            old(self)@.stage == PreviewStage::AwaitToVersion,
        ensures
            final(self)@ == old(self)@.at(PreviewStage::Done),
            match fetched {
                Err(e) => fails_with(a, e),
                Ok(()) => a matches PreviewAction::Respond { graph_size } && graph_size@ == graph_size_text(
                    old(self)@.affected,
                ),
            },
    {
        match fetched {
            Err(e) => self.fail(HandlerError::Service(e)),
            Ok(()) => {
                self.stage = PreviewStage::Done;
                PreviewAction::Respond { graph_size: graph_size_label(&self.affected) }
            },
        }
    }
}

} // verus!

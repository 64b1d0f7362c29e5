//! Read-only compensation simulation of a rebase: the decisions of the
//! simulation endpoints, as a flow that is told the outcome of each
//! outside step and answers with the next one.
//!
//! The request tenant is checked against JWT claims (for the run endpoint),
//! the intent head is fetched, the versions are checked (both at least 1,
//! source before target), the side effects of the intent are listed and,
//! when the request names side effects, narrowed to those; then the
//! simulation runs in the requested mode.

use vstd::prelude::*;
use crate::handler_common::{HandlerError, tenant_guard, guard_outcome};
use crate::text::{i64_decimal, push_char, signed_decimal_text};

verus! {

/// Query of the rebase simulation endpoint.
#[derive(Debug)]
pub struct RebaseSimulationQuery {
    /// Tenant to scope the query
    pub tenant_id: u128,
    /// Source intent version before rebase
    pub from_version: i32,
    /// Target intent version after rebase
    pub to_version: i32,
    /// Simulation mode: "deterministic" (default) or "stochastic"
    pub mode: Option<String>,
    /// RNG seed for stochastic mode
    pub seed: Option<u64>,
}

/// Body of the compensation simulation run endpoint.
#[derive(Debug)]
pub struct CompensationSimulationRequest {
    /// Intent to simulate compensation for
    pub intent_id: u128,
    /// Tenant to scope the query
    pub tenant_id: u128,
    /// Source intent version before rebase
    pub from_version: i32,
    /// Target intent version after rebase
    pub to_version: i32,
    /// Simulation mode: "deterministic" (default) or "stochastic"
    pub mode: Option<String>,
    /// RNG seed for stochastic mode
    pub seed: Option<u64>,
    /// Side effects to simulate; all of the intent's when absent
    pub side_effect_ids: Option<Vec<u128>>,
}

/// How the simulator is configured.
#[derive(Clone, Copy, Debug, PartialEq, Eq, Structural)]
pub enum SimulationChoice {
    Deterministic,
    /// Stochastic, from this seed, or from system entropy when none.
    Stochastic { seed: Option<u64> },
}

/// The simulator configuration of a request: stochastic only when the mode
/// is exactly `stochastic`; any other mode, or none, is deterministic.
pub open spec fn simulation_choice_of(mode: Option<Seq<char>>, seed: Option<u64>) -> SimulationChoice {
    if mode == Some("stochastic"@) {
        SimulationChoice::Stochastic { seed }
    } else {
        SimulationChoice::Deterministic
    }
}

/// The simulator configuration of a request's mode and seed.
pub fn simulation_choice(mode: Option<&str>, seed: Option<u64>) -> (c: SimulationChoice)
    ensures
        c == simulation_choice_of(
            match mode {
                Some(m) => Some(m@),
                None => None,
            },
            seed,
        ),
{
    match mode {
        Some(m) => {
            if String::from_str(m) == String::from_str("stochastic") {
                SimulationChoice::Stochastic { seed }
            } else {
                SimulationChoice::Deterministic
            }
        },
        None => SimulationChoice::Deterministic,
    }
}

/// The message refusing a version pair, if it is refused: both versions
/// must be at least 1 and the source must come before the target.
pub open spec fn version_error_text(from: i32, to: i32) -> Option<Seq<char>> {
    if from < 1 {
        Some("from_version ("@ + signed_decimal_text(from as int) + ") must be >= 1"@)
    } else if to < 1 {
        Some("to_version ("@ + signed_decimal_text(to as int) + ") must be >= 1"@)
    } else if from >= to {
        Some(
            "from_version ("@ + signed_decimal_text(from as int) + ") must be less than to_version ("@
                + signed_decimal_text(to as int) + seq![')'],
        )
    } else {
        None
    }
}

/// Checks the version pair of a simulation.
pub fn check_simulation_versions<E>(from: i32, to: i32) -> (r: Result<(), HandlerError<E>>)
    ensures
        match version_error_text(from, to) {
            Some(m) => r matches Err(HandlerError::InvalidIntentVersion(s)) && s@ == m,
            None => r is Ok,
        },
{
    if from < 1 {
        let mut s = String::from_str("from_version (");
        s.append(i64_decimal(from as i64).as_str());
        s.append(") must be >= 1");
        Err(HandlerError::InvalidIntentVersion(s))
    } else if to < 1 {
        let mut s = String::from_str("to_version (");
        s.append(i64_decimal(to as i64).as_str());
        s.append(") must be >= 1");
        Err(HandlerError::InvalidIntentVersion(s))
    } else if from >= to {
        let mut s = String::from_str("from_version (");
        s.append(i64_decimal(from as i64).as_str());
        s.append(") must be less than to_version (");
        s.append(i64_decimal(to as i64).as_str());
        push_char(&mut s, ')');
        Err(HandlerError::InvalidIntentVersion(s))
    } else {
        Ok(())
    }
}

/// Whether a side effect with this id takes part in the simulation.
pub open spec fn keeps(wanted: Option<Seq<u128>>, id: u128) -> bool {
    match wanted {
        Some(w) => w.contains(id),
        None => true,
    }
}

/// `sel` lists, in increasing order, exactly the positions of `all` whose
/// id is kept.
pub open spec fn is_selection(sel: Seq<usize>, all: Seq<u128>, wanted: Option<Seq<u128>>) -> bool {
    &&& forall|i: int, j: int| 0 <= i < j < sel.len() ==> sel[i] < sel[j]
    &&& forall|i: int| 0 <= i < sel.len() ==> sel[i] < all.len()
    &&& forall|i: int| 0 <= i < sel.len() ==> keeps(wanted, #[trigger] all[sel[i] as int])
    &&& forall|k: int| 0 <= k < all.len() && keeps(wanted, #[trigger] all[k]) ==> sel.contains(k as usize)
}

fn contains_id(w: &Vec<u128>, id: u128) -> (r: bool)
    ensures
        r == w@.contains(id),
{
    let mut i: usize = 0;
    while i < w.len()
        invariant
            i <= w@.len(),
            forall|q: int| 0 <= q < i ==> w@[q] != id,
        decreases w@.len() - i,
    {
        if w[i] == id {
            assert(w@[i as int] == id);
            return true;
        }
        i = i + 1;
    }
    false
}

/// The positions of the listed side effects that take part: all of them,
/// or those whose id the request names, in listing order.
pub fn select_side_effects(all: &Vec<u128>, wanted: Option<&Vec<u128>>) -> (sel: Vec<usize>)
    ensures
        is_selection(
            sel@,
            all@,
            match wanted {
                Some(w) => Some(w@),
                None => None,
            },
        ),
{
    let ghost wv: Option<Seq<u128>> = match wanted {
        Some(w) => Some(w@),
        None => None,
    };
    let mut sel: Vec<usize> = Vec::new();
    let mut k: usize = 0;
    while k < all.len()
        invariant
            k <= all@.len(),
            wv == (match wanted {
                Some(w) => Some(w@),
                None => None,
            }),
            forall|i: int, j: int| 0 <= i < j < sel@.len() ==> sel@[i] < sel@[j],
            forall|i: int| 0 <= i < sel@.len() ==> sel@[i] < k,
            forall|i: int| 0 <= i < sel@.len() ==> keeps(wv, #[trigger] all@[sel@[i] as int]),
            forall|q: int| 0 <= q < k && keeps(wv, #[trigger] all@[q]) ==> sel@.contains(q as usize),
        decreases all@.len() - k,
    {
        let keep = match wanted {
            Some(w) => contains_id(w, all[k]),
            None => true,
        };
        let ghost before = sel@;
        if keep {
            sel.push(k);
        }
        proof {
            assert(keep == keeps(wv, all@[k as int]));
            assert forall|i: int, j: int| 0 <= i < j < sel@.len() implies sel@[i] < sel@[j] by {
                if j == before.len() {
                    assert(sel@[i] == before[i]);
                } else {
                    assert(sel@[i] == before[i] && sel@[j] == before[j]);
                }
            }
            assert forall|i: int| 0 <= i < sel@.len() implies keeps(wv, #[trigger] all@[sel@[i] as int]) by {
                if i < before.len() {
                    assert(sel@[i] == before[i]);
                }
            }
            assert forall|q: int| 0 <= q < k + 1 && keeps(wv, #[trigger] all@[q]) implies sel@.contains(q as usize) by {
                if q == k {
                    assert(sel@[sel@.len() - 1] == k);
                } else {
                    assert(before.contains(q as usize));
                    let w = choose|x: int| 0 <= x < before.len() && before[x] == q as usize;
                    assert(sel@[w] == q as usize);
                }
            }
        }
        k = k + 1;
    }
    sel
}

/// What the flow waits for.
#[derive(Clone, Copy, Debug, PartialEq, Eq, Structural)]
pub enum SimulationStage {
    AwaitHead,
    AwaitSideEffects,
    AwaitSimulation,
    Done,
}

/// The next outside step of a simulation endpoint.
#[derive(Debug)]
pub enum SimulationAction<E> {
    FetchIntentHead { intent_id: u128 },
    ListSideEffects { intent_id: u128, tenant_id: u128 },
    /// Simulate the listed side effects at positions `selected`.
    Simulate {
        intent_id: u128,
        tenant_id: u128,
        from_version: i32,
        to_version: i32,
        choice: SimulationChoice,
        selected: Vec<usize>,
    },
    /// Answer with the simulation report.
    Respond,
    Fail { error: HandlerError<E> },
}

/// The abstract state of the flow.
pub struct SimulationModel {
    pub intent_id: u128,
    pub tenant_id: u128,
    pub from_version: i32,
    pub to_version: i32,
    pub choice: SimulationChoice,
    pub wanted: Option<Seq<u128>>,
    pub stage: SimulationStage,
}

impl SimulationModel {
    /// The model with a new stage.
    pub open spec fn at(self, s: SimulationStage) -> SimulationModel {
        SimulationModel { stage: s, ..self }
    }
}

/// The flow of one simulation request.
pub struct SimulationFlow {
    intent_id: u128,
    tenant_id: u128,
    from_version: i32,
    to_version: i32,
    choice: SimulationChoice,
    wanted: Option<Vec<u128>>,
    stage: SimulationStage,
}

impl View for SimulationFlow {
    type V = SimulationModel;

    closed spec fn view(&self) -> SimulationModel {
        SimulationModel {
            intent_id: self.intent_id,
            tenant_id: self.tenant_id,
            from_version: self.from_version,
            to_version: self.to_version,
            choice: self.choice,
            wanted: match self.wanted {
                Some(w) => Some(w@),
                None => None,
            },
            stage: self.stage,
        }
    }
}

/// The mode of a request as text, when given.
pub open spec fn mode_text(mode: Option<String>) -> Option<Seq<char>> {
    match mode {
        Some(m) => Some(m@),
        None => None,
    }
}

impl SimulationFlow {
    /// Starts the rebase simulation of `intent_id`: every side effect of
    /// the intent takes part. The first step fetches the intent head.
    pub fn start_rebase<E>(intent_id: u128, query: RebaseSimulationQuery) -> (r: (Self, SimulationAction<E>))
        ensures
            r.0@ == (SimulationModel {
                intent_id,
                tenant_id: query.tenant_id,
                from_version: query.from_version,
                to_version: query.to_version,
                choice: simulation_choice_of(mode_text(query.mode), query.seed),
                wanted: None,
                stage: SimulationStage::AwaitHead,
            }),
            r.1 == (SimulationAction::<E>::FetchIntentHead { intent_id }),
    {
        let choice = match &query.mode {
            Some(m) => simulation_choice(Some(m.as_str()), query.seed),
            None => simulation_choice(None, query.seed),
        };
        let flow = SimulationFlow {
            intent_id,
            tenant_id: query.tenant_id,
            from_version: query.from_version,
            to_version: query.to_version,
            choice,
            wanted: None,
            stage: SimulationStage::AwaitHead,
        };
        (flow, SimulationAction::FetchIntentHead { intent_id })
    }

    /// Starts a simulation run; `claims_tenant` is the tenant of the JWT
    /// claims, if any. A JWT naming another tenant than the request is
    /// refused at once; otherwise the intent head is fetched.
    pub fn start_run<E>(request: CompensationSimulationRequest, claims_tenant: Option<u128>) -> (r: (
        Self,
        SimulationAction<E>,
    ))
        ensures
            ({
                let guard: Result<(), HandlerError<E>> = match r.1 {
                    SimulationAction::Fail { error } => Err(error),
                    _ => Ok(()),
                };
                let m = SimulationModel {
                    intent_id: request.intent_id,
                    tenant_id: request.tenant_id,
                    from_version: request.from_version,
                    to_version: request.to_version,
                    choice: simulation_choice_of(mode_text(request.mode), request.seed),
                    wanted: match request.side_effect_ids {
                        Some(w) => Some(w@),
                        None => None,
                    },
                    stage: SimulationStage::AwaitHead,
                };
                &&& guard_outcome("request"@, claims_tenant, request.tenant_id, guard)
                &&& guard is Ok ==> r.1 == (SimulationAction::<E>::FetchIntentHead { intent_id: request.intent_id })
                    && r.0@ == m
                &&& guard is Err ==> r.0@ == m.at(SimulationStage::Done)
            }),
    {
        let choice = match &request.mode {
            Some(m) => simulation_choice(Some(m.as_str()), request.seed),
            None => simulation_choice(None, request.seed),
        };
        let intent_id = request.intent_id;
        let mut flow = SimulationFlow {
            intent_id,
            tenant_id: request.tenant_id,
            from_version: request.from_version,
            to_version: request.to_version,
            choice,
            wanted: request.side_effect_ids,
            stage: SimulationStage::AwaitHead,
        };
        match tenant_guard::<E>("request", claims_tenant, request.tenant_id) {
            Err(error) => {
                flow.stage = SimulationStage::Done;
                (flow, SimulationAction::Fail { error })
            },
            Ok(()) => (flow, SimulationAction::FetchIntentHead { intent_id }),
        }
    }

    /// The stage the flow waits in.
    pub fn stage(&self) -> (s: SimulationStage)
        ensures
            s == self@.stage,
    {
        self.stage
    }

    /// The intent head was fetched: check the versions, then list the side
    /// effects of the intent for the tenant. A fetch error is answered as
    /// is; refused versions are answered as an invalid version.
    pub fn on_head<E>(&mut self, head: Result<(), E>) -> (a: SimulationAction<E>)
        requires
            old(self)@.stage == SimulationStage::AwaitHead,
        ensures
            match head {
                Err(e) => a == (SimulationAction::Fail { error: HandlerError::Service(e) }) && final(self)@
                    == old(self)@.at(SimulationStage::Done),
                Ok(()) => match version_error_text(old(self)@.from_version, old(self)@.to_version) {
                    Some(m) => (a matches SimulationAction::Fail { error: HandlerError::InvalidIntentVersion(s) }
                        && s@ == m) && final(self)@ == old(self)@.at(SimulationStage::Done),
                    None => a == (SimulationAction::<E>::ListSideEffects {
                        intent_id: old(self)@.intent_id,
                        tenant_id: old(self)@.tenant_id,
                    }) && final(self)@ == old(self)@.at(SimulationStage::AwaitSideEffects),
                },
            },
    {
        match head {
            Err(e) => {
                self.stage = SimulationStage::Done;
                SimulationAction::Fail { error: HandlerError::Service(e) }
            },
            Ok(()) => {
                match check_simulation_versions::<E>(self.from_version, self.to_version) {
                    Err(error) => {
                        self.stage = SimulationStage::Done;
                        SimulationAction::Fail { error }
                    },
                    Ok(()) => {
                        self.stage = SimulationStage::AwaitSideEffects;
                        SimulationAction::ListSideEffects { intent_id: self.intent_id, tenant_id: self.tenant_id }
                    },
                }
            },
        }
    }

    /// The side effects were listed, given by their ids: simulate those
    /// that take part. A listing error is answered as is.
    pub fn on_side_effects<E>(&mut self, listed: Result<Vec<u128>, E>) -> (a: SimulationAction<E>)
        requires
            old(self)@.stage == SimulationStage::AwaitSideEffects,
        ensures
            match listed {
                Err(e) => a == (SimulationAction::Fail { error: HandlerError::Service(e) }) && final(self)@
                    == old(self)@.at(SimulationStage::Done),
                Ok(ids) => {
                    &&& a matches SimulationAction::Simulate {
                        intent_id,
                        tenant_id,
                        from_version,
                        to_version,
                        choice,
                        selected,
                    } && intent_id == old(self)@.intent_id && tenant_id == old(self)@.tenant_id && from_version
                        == old(self)@.from_version && to_version == old(self)@.to_version && choice == old(
                    self)@.choice && is_selection(selected@, ids@, old(self)@.wanted)
                    &&& final(self)@ == old(self)@.at(SimulationStage::AwaitSimulation)
                },
            },
    {
        match listed {
            Err(e) => {
                self.stage = SimulationStage::Done;
                SimulationAction::Fail { error: HandlerError::Service(e) }
            },
            Ok(ids) => {
                let selected = match &self.wanted {
                    Some(w) => select_side_effects(&ids, Some(w)),
                    None => select_side_effects(&ids, None),
                };
                self.stage = SimulationStage::AwaitSimulation;
                SimulationAction::Simulate {
                    intent_id: self.intent_id,
                    tenant_id: self.tenant_id,
                    from_version: self.from_version,
                    to_version: self.to_version,
                    choice: self.choice,
                    selected,
                }
            },
        }
    }

    /// The simulation ran: answer with its report, or with its error.
    pub fn on_simulated<E>(&mut self, ran: Result<(), E>) -> (a: SimulationAction<E>)
        requires
            old(self)@.stage == SimulationStage::AwaitSimulation,
        ensures
            final(self)@ == old(self)@.at(SimulationStage::Done),
            match ran {
                Err(e) => a == (SimulationAction::Fail { error: HandlerError::Service(e) }),
                Ok(()) => a == SimulationAction::<E>::Respond,
            },
    {
        self.stage = SimulationStage::Done;
        match ran {
            Err(e) => SimulationAction::Fail { error: HandlerError::Service(e) },
            Ok(()) => SimulationAction::Respond,
        }
    }
}

} // verus!

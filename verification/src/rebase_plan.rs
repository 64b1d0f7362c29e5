//! What the rebase endpoints read of a computed rebase plan: its risk tier
//! and the graph-classified items it affects, with the labels derived from
//! them.

use vstd::prelude::*;

verus! {

/// Risk tier of a rebase plan.
#[derive(Clone, Copy, Debug, PartialEq, Eq, Structural)]
pub enum RiskTier {
    Low,
    Medium,
    High,
    Critical,
}

/// The risk class label of a tier, as request metrics carry it.
pub open spec fn risk_class_text(t: RiskTier) -> Seq<char> {
    match t {
        RiskTier::Low => "low"@,
        RiskTier::Medium => "medium"@,
        RiskTier::High => "high"@,
        RiskTier::Critical => "critical"@,
    }
}

/// `low`, `medium`, `high` or `critical`.
pub fn risk_class_label(t: RiskTier) -> (s: &'static str)
    ensures
        s@ == risk_class_text(t),
{
    match t {
        RiskTier::Low => "low",
        RiskTier::Medium => "medium",
        RiskTier::High => "high",
        RiskTier::Critical => "critical",
    }
}

/// What a plan says of the items it affects: whether graph classification
/// succeeded, and how many artifacts, approvals and side effects it names.
#[derive(Clone, Copy, Debug)]
pub struct AffectedItemsFacts {
    pub available: bool,
    pub artifacts: usize,
    pub approvals: usize,
    pub side_effects: usize,
}

/// Number of affected items of all kinds.
pub open spec fn affected_total(f: AffectedItemsFacts) -> int {
    f.artifacts + f.approvals + f.side_effects
}

/// The graph size label of a plan: `unknown` without graph
/// classification, else `small` below 10 affected items, `medium` below
/// 100, `large` from 100 on.
pub open spec fn graph_size_text(f: AffectedItemsFacts) -> Seq<char> {
    if !f.available {
        "unknown"@
    } else if affected_total(f) < 10 {
        "small"@
    } else if affected_total(f) < 100 {
        "medium"@
    } else {
        "large"@
    }
}

/// The graph size label of a plan's affected items.
pub fn graph_size_label(f: &AffectedItemsFacts) -> (s: &'static str)
    ensures
        s@ == graph_size_text(*f),
{
    if !f.available {
        return "unknown";
    }
    let total: u128 = f.artifacts as u128 + f.approvals as u128 + f.side_effects as u128;
    if total < 10 {
        "small"
    } else if total < 100 {
        "medium"
    } else {
        "large"
    }
}

/// What the rebase endpoints read of a computed plan.
#[derive(Clone, Copy, Debug)]
pub struct PlanFacts {
    pub risk_tier: RiskTier,
    pub affected: AffectedItemsFacts,
}

/// Targeted cancellation of stale approvals is attempted only when graph
/// classification succeeded and named at least one affected approval.
pub open spec fn uses_classifier(p: PlanFacts) -> bool {
    p.affected.available && p.affected.approvals > 0
}

/// Whether targeted cancellation is attempted for this plan.
pub fn use_classifier(p: &PlanFacts) -> (r: bool)
    ensures
        r == uses_classifier(*p),
{
    p.affected.available && p.affected.approvals > 0
}

} // verus!

//! The reroute policy: what to do once a gate has reached a status.
use vstd::prelude::*;
use crate::gate::{Gate, GateStatus, Role, gate_named};
use crate::state::WorkState;

verus! {

/// The decision of the reroute policy for one gate.
#[derive(Debug, Clone, Copy, PartialEq, Eq, Structural)]
pub enum Reroute {
    /// Go on with the pipeline.
    Continue,
    /// Dispatch this role again.
    Restart(Role),
    /// Stop and hand the item to a human.
    Escalate,
}

/// The reroute table. It is the only automatic recovery in the pipeline.
pub open spec fn reroute_rule(g: Gate, s: GateStatus) -> Reroute {
    if g == Gate::Tests && s == GateStatus::Fail {
        Reroute::Restart(Role::Implementation)
    } else if g == Gate::ReviewSecurity && s == GateStatus::ChangesRequested {
        Reroute::Restart(Role::Implementation)
    } else if g == Gate::Qa && s == GateStatus::Fail {
        Reroute::Restart(Role::Implementation)
    } else if s == GateStatus::Fail {
        Reroute::Escalate
    } else {
        Reroute::Continue
    }
}

/// The reason given when a gate's failure is escalated.
pub open spec fn failure_text(name: Seq<char>) -> Seq<char> {
    "gate '"@ + name + "' failed"@
}

/// Applies the reroute table to a gate and its status.
pub fn decide(g: Gate, s: GateStatus) -> (r: Reroute)
    ensures
        r == reroute_rule(g, s),
{
    match (g, s) {
        (Gate::Tests, GateStatus::Fail) => Reroute::Restart(Role::Implementation),
        (Gate::ReviewSecurity, GateStatus::ChangesRequested) => Reroute::Restart(
            Role::Implementation,
        ),
        (Gate::Qa, GateStatus::Fail) => Reroute::Restart(Role::Implementation),
        (_, GateStatus::Fail) => Reroute::Escalate,
        _ => Reroute::Continue,
    }
}

/// What the pipeline does after a gate's stage, with the reason when a
/// human is needed.
#[derive(Debug, Clone)]
pub enum RerouteAction {
    Continue,
    RestartRole(Role),
    NeedHuman(String),
}

/// The escalation reason for the named gate.
pub fn failure_reason(name: &str) -> (r: String)
    ensures
        r@ == failure_text(name@),
{
    let mut m = String::from_str("gate '");
    m.append(name);
    m.append("' failed");
    m
}

/// Applies the reroute table to the named gate of a state document. A
/// name outside the table has no recorded status and continues.
pub fn apply_reroute_rules(state: &WorkState, gate: &str) -> (r: RerouteAction)
    ensures
        gate_named(gate@) is None ==> r is Continue,
        gate_named(gate@) is Some ==> ({
            let d = reroute_rule(gate_named(gate@).unwrap(), state.gates.status(gate_named(gate@).unwrap()));
            &&& d is Continue ==> r is Continue
            &&& d is Restart ==> r == RerouteAction::RestartRole(d->Restart_0)
            &&& d is Escalate ==> r is NeedHuman && r->NeedHuman_0@ == failure_text(gate@)
        }),
{
    match Gate::parse(gate) {
        None => RerouteAction::Continue,
        Some(g) => match decide(g, state.gates.status_of(g)) {
            Reroute::Continue => RerouteAction::Continue,
            Reroute::Restart(role) => RerouteAction::RestartRole(role),
            Reroute::Escalate => RerouteAction::NeedHuman(failure_reason(gate)),
        },
    }
}

} // verus!

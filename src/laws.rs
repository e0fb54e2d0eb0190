//! Properties that relate the functions of the library, proved over the
//! spec functions their contracts use.
use vstd::prelude::*;
use crate::completion::{STAGE_POLL_LIMIT, WaitOutcome, stage_outcome};
use crate::driver::{Action, Phase, StopReason, next_step};
use crate::gate::{
    Gate, GateStatus, Role, GATE_COUNT, gate_at, gate_named, gate_of, gate_pos, gate_text, index_of_name,
    lemma_gate_text_named, lemma_role_text_named, role_named, role_of, role_text,
};
use crate::reroute::{Reroute, reroute_rule};
use crate::state::{Gates, all_pass, first_pending_gate, is_first_pending, pending_from};

verus! {

/// Gates and roles are in one-to-one correspondence: going from a role to
/// its gate and back gives the role, and from a gate to its role and back
/// gives that gate; each name reads back as what it names.
pub proof fn law_role_gate_bijection(r: Role, g: Gate)
    ensures
        role_of(gate_of(r)) == r,
        gate_of(role_of(g)) == g,
        gate_named(gate_text(g)) == Some(g),
        role_named(role_text(r)) == Some(r),
{
    lemma_gate_text_named(g);
    lemma_role_text_named(r);
}

/// Gate indices strictly increase along the pipeline order, and a name
/// outside the table sorts after every gate.
pub proof fn law_index_order(i: int, j: int, unknown: Seq<char>, g: Gate)
    requires
        0 <= i < j < GATE_COUNT,
        gate_named(unknown) is None,
    ensures
        index_of_name(gate_text(gate_at(i))) < index_of_name(gate_text(gate_at(j))),
        index_of_name(gate_text(g)) < index_of_name(unknown),
{
    lemma_gate_text_named(gate_at(i));
    lemma_gate_text_named(gate_at(j));
    lemma_gate_text_named(g);
}

/// The first gate that has not passed is what selection picks.
pub proof fn lemma_first_pending_selected(gates: Gates, g: Gate)
    requires
        is_first_pending(gates, g),
    ensures
        first_pending_gate(gates) == Some(g),
{
    lemma_pending_from(gates, g, 0);
}

proof fn lemma_pending_from(gates: Gates, g: Gate, i: nat)
    requires
        is_first_pending(gates, g),
        i <= gate_pos(g),
    ensures
        pending_from(gates, i) == Some(g),
    decreases gate_pos(g) - i,
{
    if i < gate_pos(g) {
        let h = gate_at(i as int);
        assert(gate_pos(h) == i);
        assert(gates.status(h) == GateStatus::Pass);
        lemma_pending_from(gates, g, i + 1);
    } else {
        assert(gate_at(i as int) == g);
    }
}

proof fn lemma_pending_none(gates: Gates, i: nat)
    requires
        all_pass(gates),
    ensures
        pending_from(gates, i) is None,
    decreases GATE_COUNT - i,
{
    if i < GATE_COUNT {
        assert(gates.status(gate_at(i as int)) == GateStatus::Pass);
        lemma_pending_none(gates, i + 1);
    }
}

/// With every gate `todo`, selection picks the first gate of the order.
pub proof fn law_select_all_todo(gates: Gates)
    requires
        forall|g: Gate| #[trigger] gates.status(g) == GateStatus::Todo,
    ensures
        first_pending_gate(gates) == Some(Gate::Prd),
{
    assert(gates.status(Gate::Prd) == GateStatus::Todo);
}

/// A failed gate is not skipped: when every earlier gate passed, selection
/// picks it.
pub proof fn law_select_failed_gate(gates: Gates, g: Gate)
    requires
        gates.status(g) == GateStatus::Fail,
        forall|h: Gate| gate_pos(h) < gate_pos(g) ==> #[trigger] gates.status(h) == GateStatus::Pass,
    ensures
        first_pending_gate(gates) == Some(g),
{
    lemma_first_pending_selected(gates, g);
}

/// With every gate `pass`, there is no next gate.
pub proof fn law_select_all_pass(gates: Gates)
    requires
        all_pass(gates),
    ensures
        first_pending_gate(gates) is None,
{
    lemma_pending_none(gates, 0);
}

/// The reroute table: `tests`=`fail`, `review_security`=`changes_requested`
/// and `qa`=`fail` restart the implementation role; any other `fail`
/// escalates; everything else continues.
pub proof fn law_reroute_table(g: Gate, s: GateStatus)
    ensures
        (reroute_rule(g, s) == Reroute::Restart(Role::Implementation)) <==> ((g == Gate::Tests && s
            == GateStatus::Fail) || (g == Gate::ReviewSecurity && s == GateStatus::ChangesRequested)
            || (g == Gate::Qa && s == GateStatus::Fail)),
        reroute_rule(g, s) is Restart ==> reroute_rule(g, s) == Reroute::Restart(Role::Implementation),
        (reroute_rule(g, s) == Reroute::Escalate) <==> (s == GateStatus::Fail && g != Gate::Tests && g
            != Gate::Qa),
        (reroute_rule(g, s) == Reroute::Continue) <==> (s != GateStatus::Fail && !(g
            == Gate::ReviewSecurity && s == GateStatus::ChangesRequested)),
{
}

/// A `tests` failure found after its stage sends the implementation role
/// back to work and returns to selection; the run does not stop.
pub proof fn law_tests_failure_redispatches(target: Option<Gate>, gates: Gates)
    requires
        gates.status(Gate::Tests) == GateStatus::Fail,
    ensures
        next_step(target, Phase::Rerouting(Gate::Tests), gates) == (
            Phase::Selecting,
            Action::Dispatch(Role::Implementation),
        ),
{
}

/// A stage that completes at the stop-at gate and continues ends the run
/// there.
pub proof fn law_stop_at_target(g: Gate, gates: Gates)
    requires
        reroute_rule(g, gates.status(g)) == Reroute::Continue,
    ensures
        next_step(Some(g), Phase::Rerouting(g), gates) == (
            Phase::Stopped(StopReason::TargetReached),
            Action::Halt,
        ),
{
}

/// Selection never dispatches a gate that lies after the stop-at gate.
pub proof fn law_no_dispatch_past_target(t: Gate, gates: Gates)
    ensures
        next_step(Some(t), Phase::Selecting, gates).1 is Dispatch ==> gate_pos(
            first_pending_gate(gates).unwrap(),
        ) <= gate_pos(t),
{
}

/// A detached single-stage wait that never sees a fresh handoff note does
/// not complete: it asks to poll again until its last poll, which times
/// out.
pub proof fn law_stage_wait_times_out(polls: u32, status: GateStatus)
    requires
        polls < STAGE_POLL_LIMIT,
    ensures
        stage_outcome(polls, true, status, false) == (if polls + 1 >= STAGE_POLL_LIMIT {
            WaitOutcome::TimedOut
        } else {
            WaitOutcome::Pending
        }),
{
}

} // verus!

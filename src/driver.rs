//! The pipeline driver: the run mode, the state machine that picks,
//! dispatches, checks and reroutes gates, and the set of gates of a composite
//! (team) run. The caller performs each action the machine asks for, then
//! reads the state document again and hands it back.
use vstd::prelude::*;
use crate::gate::{
    Gate, GateStatus, Role, GATE_COUNT, gate_at, gate_named, gate_pos, gate_text, role_of,
    status_is_terminal,
};
use crate::reroute::{Reroute, decide, reroute_rule};
use crate::state::{Gates, WorkState, first_pending_gate, lemma_gate_at_pos};
use crate::text::{eq_ignore_case, same_text, text_eq_ignore_case};

verus! {

/// How a pipeline run dispatches its stages.
#[derive(Debug, Clone, Copy, PartialEq, Eq, Structural)]
pub enum RunMode {
    /// Resolved once, at the start of a run, from the environment toggle.
    Auto,
    /// One dispatch per stage.
    Classic,
    /// One lead session that runs every remaining stage.
    Teams,
}

pub open spec fn mode_named(s: Seq<char>) -> Option<RunMode> {
    if s == "auto"@ {
        Some(RunMode::Auto)
    } else if s == "classic"@ {
        Some(RunMode::Classic)
    } else if s == "teams"@ {
        Some(RunMode::Teams)
    } else {
        None
    }
}

/// The value of the environment toggle switches team mode on when it is
/// `1` or `true` in any ASCII case.
pub open spec fn toggle_on(v: Seq<char>) -> bool {
    v == "1"@ || eq_ignore_case(v, "true"@)
}

/// Reads the team-mode toggle: on for `1` or `true` (any ASCII case), off
/// for any other value and when it is unset.
pub fn teams_toggle(value: Option<&str>) -> (r: bool)
    ensures
        r == (value is Some && toggle_on(value.unwrap()@)),
{
    match value {
        Some(v) => same_text(v, "1") || text_eq_ignore_case(v, "true"),
        None => false,
    }
}

impl RunMode {
    /// The mode with the given name, or an error that names the input.
    pub fn parse(s: &str) -> (r: Result<RunMode, String>)
        ensures
            mode_named(s@) is Some ==> r == Ok::<RunMode, String>(mode_named(s@).unwrap()),
            mode_named(s@) is None ==> r is Err && r->Err_0@ == "unknown mode: "@ + s@
                + " (use 'auto', 'classic', or 'teams')"@,
    {
        if same_text(s, "auto") {
            Ok(RunMode::Auto)
        } else if same_text(s, "classic") {
            Ok(RunMode::Classic)
        } else if same_text(s, "teams") {
            Ok(RunMode::Teams)
        } else {
            let mut m = String::from_str("unknown mode: ");
            m.append(s);
            m.append(" (use 'auto', 'classic', or 'teams')");
            Err(m)
        }
    }

    /// The concrete mode of a run: `Auto` becomes `Teams` when the toggle
    /// is on and `Classic` otherwise; an explicit mode stays.
    pub fn resolve(&self, teams_enabled: bool) -> (r: RunMode)
        ensures
            *self == RunMode::Auto ==> r == (if teams_enabled {
                RunMode::Teams
            } else {
                RunMode::Classic
            }),
            *self != RunMode::Auto ==> r == *self,
    {
        match self {
            RunMode::Auto => if teams_enabled {
                RunMode::Teams
            } else {
                RunMode::Classic
            },
            RunMode::Classic => RunMode::Classic,
            RunMode::Teams => RunMode::Teams,
        }
    }
}

impl std::str::FromStr for RunMode {
    type Err = String;

    fn from_str(s: &str) -> Result<RunMode, String> {
        RunMode::parse(s)
    }
}

/// Why a run stopped.
#[derive(Debug, Clone, Copy, PartialEq, Eq, Structural)]
pub enum StopReason {
    /// Every gate passed.
    AllPassed,
    /// The stop-at gate was reached.
    TargetReached,
    /// The agent exited but left its gate open; a human resumes it.
    NeedsManualResume(Gate),
    /// This gate failed and the reroute table has no recovery for it.
    NeedsHuman(Gate),
}

/// Where the driver stands.
#[derive(Debug, Clone, Copy, PartialEq, Eq, Structural)]
pub enum Phase {
    /// About to pick the next gate.
    Selecting,
    /// This gate's role was dispatched; waiting to see its status.
    AwaitingCompletion(Gate),
    /// This gate's stage is complete; about to apply the reroute table.
    Rerouting(Gate),
    Stopped(StopReason),
}

/// What the driver asks its caller to do before handing back the state
/// document.
#[derive(Debug, Clone, Copy, PartialEq, Eq, Structural)]
pub enum Action {
    /// Only read the state document.
    ReadState,
    /// Dispatch the role, then read the state document.
    Dispatch(Role),
    /// Run the verify and security check, then read the state document.
    RunCheck,
    /// The run is over; the reason is in the phase.
    Halt,
}

/// The automatic check follows these stages.
pub open spec fn check_follows(g: Gate) -> bool {
    g == Gate::Tests || g == Gate::Impl
}

/// `target` lies before `g` in pipeline order.
pub open spec fn target_before(target: Option<Gate>, g: Gate) -> bool {
    target is Some && gate_pos(target.unwrap()) < gate_pos(g)
}

/// One transition of the driver: from the phase and the state document
/// just read to the next phase and the action to perform. A restart
/// dispatches its role and goes straight back to selection, without
/// waiting on the restarted stage first.
pub open spec fn next_step(target: Option<Gate>, phase: Phase, gates: Gates) -> (Phase, Action) {
    match phase {
        Phase::Selecting => match first_pending_gate(gates) {
            None => (Phase::Stopped(StopReason::AllPassed), Action::Halt),
            Some(a) => if target_before(target, a) {
                (Phase::Stopped(StopReason::TargetReached), Action::Halt)
            } else {
                (Phase::AwaitingCompletion(a), Action::Dispatch(role_of(a)))
            },
        },
        Phase::AwaitingCompletion(a) => if !status_is_terminal(gates.status(a)) {
            (Phase::Stopped(StopReason::NeedsManualResume(a)), Action::Halt)
        } else if check_follows(a) {
            (Phase::Rerouting(a), Action::RunCheck)
        } else {
            (Phase::Rerouting(a), Action::ReadState)
        },
        Phase::Rerouting(a) => match reroute_rule(a, gates.status(a)) {
            Reroute::Continue => if target == Some(a) {
                (Phase::Stopped(StopReason::TargetReached), Action::Halt)
            } else {
                (Phase::Selecting, Action::ReadState)
            },
            Reroute::Restart(r) => (Phase::Selecting, Action::Dispatch(r)),
            Reroute::Escalate => (Phase::Stopped(StopReason::NeedsHuman(a)), Action::Halt),
        },
        Phase::Stopped(s) => (phase, Action::Halt),
    }
}

/// The classic-mode driver of one run.
#[derive(Debug, Clone, Copy, PartialEq, Eq, Structural)]
pub struct Driver {
    /// The stop-at gate, if any; fixed for the run.
    pub target: Option<Gate>,
    pub phase: Phase,
}

/// The error for a stop-at name outside the table of gates.
pub open spec fn unknown_gate_text(name: Seq<char>) -> Seq<char> {
    "unknown gate: "@ + name
        + " (valid: [\"prd\", \"plan\", \"env\", \"tests\", \"impl\", \"review_security\", \"qa\", \"git\"])"@
}

impl Driver {
    /// A driver about to select its first gate.
    pub fn new(target: Option<Gate>) -> (r: Driver)
        ensures
            r.target == target,
            r.phase == Phase::Selecting,
    {
        Driver { target, phase: Phase::Selecting }
    }

    /// A driver for a run that stops at the named gate, if one is given.
    /// A name outside the table of gates is rejected before anything runs.
    pub fn for_target(to_gate: Option<&str>) -> (r: Result<Driver, String>)
        ensures
            to_gate is None ==> r == Ok::<Driver, String>(Driver { target: None, phase: Phase::Selecting }),
            to_gate is Some && gate_named(to_gate.unwrap()@) is Some ==> r == Ok::<Driver, String>(
                Driver { target: gate_named(to_gate.unwrap()@), phase: Phase::Selecting },
            ),
            to_gate is Some && gate_named(to_gate.unwrap()@) is None ==> r is Err && r->Err_0@
                == unknown_gate_text(to_gate.unwrap()@),
    {
        match to_gate {
            None => Ok(Driver::new(None)),
            Some(name) => match Gate::parse(name) {
                Some(g) => Ok(Driver::new(Some(g))),
                None => {
                    let mut m = String::from_str("unknown gate: ");
                    m.append(name);
                    m.append(
                        " (valid: [\"prd\", \"plan\", \"env\", \"tests\", \"impl\", \"review_security\", \"qa\", \"git\"])",
                    );
                    Err(m)
                },
            },
        }
    }

    /// Takes the state document just read and moves to the next phase;
    /// returns what the caller does next.
    pub fn on_state(&mut self, gates: &Gates) -> (r: Action)
        ensures
            final(self).target == old(self).target,
            (final(self).phase, r) == next_step(old(self).target, old(self).phase, *gates),
    {
        match self.phase {
            Phase::Selecting => match gates.first_pending() {
                None => {
                    self.phase = Phase::Stopped(StopReason::AllPassed);
                    Action::Halt
                },
                Some(a) => {
                    let before = match self.target {
                        Some(t) => t.position() < a.position(),
                        None => false,
                    };
                    if before {
                        self.phase = Phase::Stopped(StopReason::TargetReached);
                        Action::Halt
                    } else {
                        self.phase = Phase::AwaitingCompletion(a);
                        Action::Dispatch(a.role())
                    }
                },
            },
            Phase::AwaitingCompletion(a) => {
                if !gates.status_of(a).is_terminal() {
                    self.phase = Phase::Stopped(StopReason::NeedsManualResume(a));
                    Action::Halt
                } else if a == Gate::Tests || a == Gate::Impl {
                    self.phase = Phase::Rerouting(a);
                    Action::RunCheck
                } else {
                    self.phase = Phase::Rerouting(a);
                    Action::ReadState
                }
            },
            Phase::Rerouting(a) => match decide(a, gates.status_of(a)) {
                Reroute::Continue => {
                    if self.target == Some(a) {
                        self.phase = Phase::Stopped(StopReason::TargetReached);
                        Action::Halt
                    } else {
                        self.phase = Phase::Selecting;
                        Action::ReadState
                    }
                },
                Reroute::Restart(r) => {
                    self.phase = Phase::Selecting;
                    Action::Dispatch(r)
                },
                Reroute::Escalate => {
                    self.phase = Phase::Stopped(StopReason::NeedsHuman(a));
                    Action::Halt
                },
            },
            Phase::Stopped(_) => Action::Halt,
        }
    }

    /// The run is over.
    pub fn is_stopped(&self) -> (r: bool)
        ensures
            r == self.phase is Stopped,
    {
        match self.phase {
            Phase::Stopped(_) => true,
            _ => false,
        }
    }
}

/// Name of the next gate to run: the first in pipeline order that has not
/// passed. A failed gate is not skipped.
pub fn determine_next_gate(state: &WorkState) -> (r: Option<&'static str>)
    ensures
        r is Some <==> first_pending_gate(state.gates) is Some,
        r is Some ==> r.unwrap()@ == gate_text(first_pending_gate(state.gates).unwrap()),
{
    match state.gates.first_pending() {
        Some(g) => Some(g.name()),
        None => None,
    }
}

/// Position of the last gate a composite run covers.
pub open spec fn limit_pos(target: Option<Gate>) -> nat {
    match target {
        Some(t) => gate_pos(t),
        None => (GATE_COUNT - 1) as nat,
    }
}

/// The gates among the first `n` of the pipeline that have not passed and
/// lie at or before position `limit`, in pipeline order.
pub open spec fn remaining_before(gates: Gates, limit: nat, n: nat) -> Seq<Gate>
    decreases n,
{
    if n == 0 {
        Seq::empty()
    } else {
        let g = gate_at(n - 1);
        let rest = remaining_before(gates, limit, (n - 1) as nat);
        if gates.status(g) != GateStatus::Pass && n - 1 <= limit {
            rest.push(g)
        } else {
            rest
        }
    }
}

/// Every gate that has not passed, up to and including the stop-at gate,
/// in pipeline order.
pub open spec fn remaining_spec(gates: Gates, target: Option<Gate>) -> Seq<Gate> {
    remaining_before(gates, limit_pos(target), GATE_COUNT as nat)
}

/// The gates that a composite run hands to its lead session.
pub fn remaining_gates(gates: &Gates, target: Option<Gate>) -> (r: Vec<Gate>)
    ensures
        r@ == remaining_spec(*gates, target),
{
    let limit: usize = match target {
        Some(t) => t.position(),
        None => GATE_COUNT - 1,
    };
    let mut v: Vec<Gate> = Vec::new();
    let mut i: usize = 0;
    while i < GATE_COUNT
        invariant
            i <= GATE_COUNT,
            limit == limit_pos(target),
            v@ == remaining_before(*gates, limit as nat, i as nat),
        decreases GATE_COUNT - i,
    {
        let g = Gate::at(i);
        if gates.status_of(g) != GateStatus::Pass && i <= limit {
            v.push(g);
        }
        i = i + 1;
    }
    v
}

/// Every gate at or before `target` passed; gates after it do not count.
pub open spec fn passed_through(gates: Gates, target: Gate) -> bool {
    forall|g: Gate| gate_pos(g) <= gate_pos(target) ==> #[trigger] gates.status(g) == GateStatus::Pass
}

/// True when every gate at or before `target` is `pass`.
pub fn all_passed_through(gates: &Gates, target: Gate) -> (r: bool)
    ensures
        r == passed_through(*gates, target),
{
    let limit = target.position();
    let mut i: usize = 0;
    while i <= limit
        invariant
            limit == gate_pos(target),
            limit < GATE_COUNT,
            i <= limit + 1,
            forall|j: int| 0 <= j < i ==> #[trigger] gates.status(gate_at(j)) == GateStatus::Pass,
        decreases limit + 1 - i,
    {
        if gates.status_of(Gate::at(i)) != GateStatus::Pass {
            return false;
        }
        i = i + 1;
    }
    assert forall|g: Gate| gate_pos(g) <= gate_pos(target) implies #[trigger] gates.status(g)
        == GateStatus::Pass by {
        lemma_gate_at_pos(g);
        assert(gates.status(gate_at(gate_pos(g) as int)) == GateStatus::Pass);
    }
    true
}

} // verus!

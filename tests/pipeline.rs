use pfm::completion::{
    has_recent_handoff, BulkWait, HandoffFile, StageWait, Timestamp, WaitOutcome, BULK_POLL_LIMIT,
    STAGE_POLL_LIMIT,
};
use pfm::driver::{
    all_passed_through, remaining_gates, teams_toggle, Action, Driver, Phase, RunMode, StopReason,
};
use pfm::gate::{Gate, GateStatus, Role};
use pfm::reroute::{apply_reroute_rules, decide, Reroute, RerouteAction};
use pfm::state::{Commands, Gates, WorkState};

fn fresh() -> WorkState {
    WorkState::new("FEAT-001", "Test", "repo", Commands::default())
}

/// Runs the driver against a simulated agent that sets its gate to the
/// status `outcome` gives; returns the roles dispatched.
fn drive(state: &mut WorkState, driver: &mut Driver, outcome: fn(Role) -> GateStatus, max: usize) -> Vec<Role> {
    let mut dispatched = Vec::new();
    for _ in 0..max {
        match driver.on_state(&state.gates) {
            Action::Dispatch(role) => {
                dispatched.push(role);
                state.begin_stage(role);
                state.gates.set_status(role.gate(), outcome(role));
            }
            Action::RunCheck | Action::ReadState => {}
            Action::Halt => break,
        }
    }
    dispatched
}

#[test]
fn scenario_stop_at_env_dispatches_three_roles() {
    let mut state = fresh();
    let mut driver = Driver::for_target(Some("env")).unwrap();
    let dispatched = drive(&mut state, &mut driver, |_| GateStatus::Pass, 100);
    assert_eq!(dispatched, vec![Role::Prd, Role::Orchestrator, Role::Env]);
    assert_eq!(driver.phase, Phase::Stopped(StopReason::TargetReached));
    assert!(!dispatched.contains(&Role::Test));
    assert_eq!(state.gates.tests, GateStatus::Todo);
}

#[test]
fn scenario_tests_failure_redispatches_implementation() {
    let mut state = fresh();
    state.gates.prd = GateStatus::Pass;
    state.gates.plan = GateStatus::Pass;
    state.gates.env = GateStatus::Pass;
    let mut driver = Driver::new(None);
    assert_eq!(driver.on_state(&state.gates), Action::Dispatch(Role::Test));
    state.gates.tests = GateStatus::Fail;
    assert_eq!(driver.on_state(&state.gates), Action::RunCheck);
    assert_eq!(driver.phase, Phase::Rerouting(Gate::Tests));
    assert_eq!(driver.on_state(&state.gates), Action::Dispatch(Role::Implementation));
    assert_eq!(driver.phase, Phase::Selecting);
    assert!(!driver.is_stopped());
}

#[test]
fn scenario_unknown_stop_at_gate_rejected() {
    let r = Driver::for_target(Some("deploy"));
    assert_eq!(
        r.unwrap_err(),
        "unknown gate: deploy (valid: [\"prd\", \"plan\", \"env\", \"tests\", \"impl\", \"review_security\", \"qa\", \"git\"])"
    );
}

#[test]
fn scenario_detached_wait_without_handoff_times_out() {
    let start = Timestamp { secs: 1_700_000_000, nanos: 0 };
    let files: Vec<HandoffFile> = Vec::new();
    let mut wait = StageWait::new(true);
    let mut outcomes = Vec::new();
    loop {
        let fresh = has_recent_handoff(&files, "prd", start);
        let o = wait.observe(GateStatus::Pass, fresh);
        outcomes.push(o);
        if o != WaitOutcome::Pending {
            break;
        }
    }
    assert_eq!(outcomes.len(), STAGE_POLL_LIMIT as usize);
    assert_eq!(*outcomes.last().unwrap(), WaitOutcome::TimedOut);
    assert!(outcomes[..outcomes.len() - 1].iter().all(|o| *o == WaitOutcome::Pending));
    assert_eq!(wait.observe(GateStatus::Pass, true), WaitOutcome::TimedOut);
}

#[test]
fn stage_wait_completes_with_fresh_handoff() {
    let start = Timestamp { secs: 100, nanos: 5 };
    let files = vec![
        HandoffFile { name: "20240101-prd.md".to_string(), modified: Timestamp { secs: 100, nanos: 5 } },
        HandoffFile { name: "20240102-prd.md".to_string(), modified: Timestamp { secs: 100, nanos: 6 } },
    ];
    let mut wait = StageWait::new(true);
    assert_eq!(wait.observe(GateStatus::InProgress, has_recent_handoff(&files, "prd", start)), WaitOutcome::Pending);
    assert_eq!(wait.observe(GateStatus::Pass, has_recent_handoff(&files, "prd", start)), WaitOutcome::Complete);
    assert_eq!(wait.polls, 2);
}

#[test]
fn synchronous_wait_decides_on_first_poll() {
    let mut done = StageWait::new(false);
    assert_eq!(done.observe(GateStatus::Fail, false), WaitOutcome::Complete);
    let mut open = StageWait::new(false);
    assert_eq!(open.observe(GateStatus::InProgress, false), WaitOutcome::Incomplete);
}

#[test]
fn handoff_must_match_role_extension_and_time() {
    let after = Timestamp { secs: 50, nanos: 0 };
    let stale = vec![HandoffFile { name: "x-qa.md".to_string(), modified: Timestamp { secs: 50, nanos: 0 } }];
    let wrong_ext = vec![HandoffFile { name: "x-qa.txt".to_string(), modified: Timestamp { secs: 60, nanos: 0 } }];
    let other_role = vec![HandoffFile { name: "x-git.md".to_string(), modified: Timestamp { secs: 60, nanos: 0 } }];
    let good = vec![HandoffFile { name: "x-qa.md".to_string(), modified: Timestamp { secs: 51, nanos: 0 } }];
    assert!(!has_recent_handoff(&stale, "qa", after));
    assert!(!has_recent_handoff(&wrong_ext, "qa", after));
    assert!(!has_recent_handoff(&other_role, "qa", after));
    assert!(has_recent_handoff(&good, "qa", after));
}

#[test]
fn bulk_wait_ignores_gates_past_target() {
    let mut gates = Gates::default();
    gates.prd = GateStatus::Pass;
    gates.plan = GateStatus::Pass;
    gates.env = GateStatus::Pass;
    gates.tests = GateStatus::Fail;
    assert!(all_passed_through(&gates, Gate::Env));
    assert!(!all_passed_through(&gates, Gate::Tests));
    let mut wait = BulkWait::new(Gate::Env);
    assert_eq!(wait.observe(&gates), WaitOutcome::Complete);
}

#[test]
fn bulk_wait_times_out_after_budget() {
    let gates = Gates::default();
    let mut wait = BulkWait::new(Gate::Git);
    let mut n: u32 = 0;
    loop {
        n += 1;
        match wait.observe(&gates) {
            WaitOutcome::Pending => continue,
            o => {
                assert_eq!(o, WaitOutcome::TimedOut);
                break;
            }
        }
    }
    assert_eq!(n, BULK_POLL_LIMIT);
}

#[test]
fn remaining_gates_up_to_target_in_order() {
    let mut gates = Gates::default();
    gates.plan = GateStatus::Pass;
    gates.env = GateStatus::Fail;
    assert_eq!(remaining_gates(&gates, Some(Gate::Tests)), vec![Gate::Prd, Gate::Env, Gate::Tests]);
    assert_eq!(remaining_gates(&gates, None).len(), 7);
    gates.prd = GateStatus::Pass;
    gates.env = GateStatus::Pass;
    assert_eq!(remaining_gates(&gates, Some(Gate::Env)), Vec::<Gate>::new());
}

#[test]
fn selection_with_all_pass_halts() {
    let mut state = fresh();
    for g in [Gate::Prd, Gate::Plan, Gate::Env, Gate::Tests, Gate::Impl, Gate::ReviewSecurity, Gate::Qa, Gate::Git] {
        state.gates.set_status(g, GateStatus::Pass);
    }
    let mut driver = Driver::new(None);
    assert_eq!(driver.on_state(&state.gates), Action::Halt);
    assert_eq!(driver.phase, Phase::Stopped(StopReason::AllPassed));
}

#[test]
fn open_gate_after_agent_exit_needs_manual_resume() {
    let state = fresh();
    let mut driver = Driver::new(None);
    assert_eq!(driver.on_state(&state.gates), Action::Dispatch(Role::Prd));
    assert_eq!(driver.on_state(&state.gates), Action::Halt);
    assert_eq!(driver.phase, Phase::Stopped(StopReason::NeedsManualResume(Gate::Prd)));
}

#[test]
fn unrecoverable_failure_escalates() {
    let mut state = fresh();
    let mut driver = Driver::new(None);
    driver.on_state(&state.gates);
    state.gates.prd = GateStatus::Fail;
    assert_eq!(driver.on_state(&state.gates), Action::ReadState);
    assert_eq!(driver.on_state(&state.gates), Action::Halt);
    assert_eq!(driver.phase, Phase::Stopped(StopReason::NeedsHuman(Gate::Prd)));
    match apply_reroute_rules(&state, "prd") {
        RerouteAction::NeedHuman(m) => assert_eq!(m, "gate 'prd' failed"),
        _ => panic!("expected NeedHuman"),
    }
}

#[test]
fn target_already_passed_stops_before_dispatch() {
    let mut state = fresh();
    state.gates.prd = GateStatus::Pass;
    state.gates.plan = GateStatus::Pass;
    let mut driver = Driver::for_target(Some("plan")).unwrap();
    assert_eq!(driver.on_state(&state.gates), Action::Halt);
    assert_eq!(driver.phase, Phase::Stopped(StopReason::TargetReached));
}

#[test]
fn impl_stage_is_followed_by_check() {
    let mut state = fresh();
    for g in [Gate::Prd, Gate::Plan, Gate::Env, Gate::Tests] {
        state.gates.set_status(g, GateStatus::Pass);
    }
    let mut driver = Driver::new(None);
    assert_eq!(driver.on_state(&state.gates), Action::Dispatch(Role::Implementation));
    state.gates.impl_ = GateStatus::Pass;
    assert_eq!(driver.on_state(&state.gates), Action::RunCheck);
    assert_eq!(driver.on_state(&state.gates), Action::ReadState);
    assert_eq!(driver.phase, Phase::Selecting);
}

#[test]
fn reroute_table_rows() {
    assert_eq!(decide(Gate::Tests, GateStatus::Fail), Reroute::Restart(Role::Implementation));
    assert_eq!(decide(Gate::ReviewSecurity, GateStatus::ChangesRequested), Reroute::Restart(Role::Implementation));
    assert_eq!(decide(Gate::Qa, GateStatus::Fail), Reroute::Restart(Role::Implementation));
    assert_eq!(decide(Gate::Git, GateStatus::Fail), Reroute::Escalate);
    assert_eq!(decide(Gate::ReviewSecurity, GateStatus::Fail), Reroute::Escalate);
    assert_eq!(decide(Gate::Tests, GateStatus::ChangesRequested), Reroute::Continue);
    assert_eq!(decide(Gate::Qa, GateStatus::Pass), Reroute::Continue);
    match apply_reroute_rules(&fresh(), "nonexistent") {
        RerouteAction::Continue => {}
        _ => panic!("expected Continue"),
    }
}

#[test]
fn run_mode_errors_and_toggle_values() {
    assert_eq!(
        RunMode::parse("fast").unwrap_err(),
        "unknown mode: fast (use 'auto', 'classic', or 'teams')"
    );
    assert!(teams_toggle(Some("TRUE")));
    assert!(teams_toggle(Some("True")));
    assert!(!teams_toggle(Some("yes")));
    assert!(!teams_toggle(Some("0")));
    assert_eq!(RunMode::Teams.resolve(false), RunMode::Teams);
}

use pfm::driver::{determine_next_gate, teams_toggle, RunMode};
use pfm::gate::{gate_index, GateStatus, Role};
use pfm::reroute::{apply_reroute_rules, RerouteAction};
use pfm::state::{Commands, WorkState};

fn make_state() -> WorkState {
    WorkState::new("FEAT-001", "Test", "repo", Commands::default())
}

#[test]
fn test_determine_next_gate_all_todo() {
    let state = make_state();
    assert_eq!(determine_next_gate(&state), Some("prd"));
}

#[test]
fn test_determine_next_gate_partial_progress() {
    let mut state = make_state();
    state.gates.prd = GateStatus::Pass;
    state.gates.plan = GateStatus::Pass;
    state.gates.env = GateStatus::Pass;
    assert_eq!(determine_next_gate(&state), Some("tests"));
}

#[test]
fn test_determine_next_gate_all_pass() {
    let mut state = make_state();
    state.gates.prd = GateStatus::Pass;
    state.gates.plan = GateStatus::Pass;
    state.gates.env = GateStatus::Pass;
    state.gates.tests = GateStatus::Pass;
    state.gates.impl_ = GateStatus::Pass;
    state.gates.review_security = GateStatus::Pass;
    state.gates.qa = GateStatus::Pass;
    state.gates.git = GateStatus::Pass;
    assert_eq!(determine_next_gate(&state), None);
}

#[test]
fn test_determine_next_gate_failed_gate() {
    let mut state = make_state();
    state.gates.prd = GateStatus::Pass;
    state.gates.plan = GateStatus::Fail;
    assert_eq!(determine_next_gate(&state), Some("plan"));
}

#[test]
fn test_reroute_tests_fail() {
    let mut state = make_state();
    state.gates.tests = GateStatus::Fail;
    match apply_reroute_rules(&state, "tests") {
        RerouteAction::RestartRole(Role::Implementation) => {}
        _ => panic!("expected RestartRole(Implementation)"),
    }
}

#[test]
fn test_reroute_review_changes_requested() {
    let mut state = make_state();
    state.gates.review_security = GateStatus::ChangesRequested;
    match apply_reroute_rules(&state, "review_security") {
        RerouteAction::RestartRole(Role::Implementation) => {}
        _ => panic!("expected RestartRole(Implementation)"),
    }
}

#[test]
fn test_reroute_qa_fail() {
    let mut state = make_state();
    state.gates.qa = GateStatus::Fail;
    match apply_reroute_rules(&state, "qa") {
        RerouteAction::RestartRole(Role::Implementation) => {}
        _ => panic!("expected RestartRole(Implementation)"),
    }
}

#[test]
fn test_reroute_pass_continues() {
    let mut state = make_state();
    state.gates.prd = GateStatus::Pass;
    match apply_reroute_rules(&state, "prd") {
        RerouteAction::Continue => {}
        _ => panic!("expected Continue"),
    }
}

#[test]
fn test_gate_index() {
    assert_eq!(gate_index("prd"), 0);
    assert_eq!(gate_index("git"), 7);
    assert_eq!(gate_index("nonexistent"), usize::MAX);
}

#[test]
fn test_run_mode_parse() {
    assert_eq!("auto".parse::<RunMode>().unwrap(), RunMode::Auto);
    assert_eq!("classic".parse::<RunMode>().unwrap(), RunMode::Classic);
    assert_eq!("teams".parse::<RunMode>().unwrap(), RunMode::Teams);
    assert!("invalid".parse::<RunMode>().is_err());
}

#[test]
fn test_auto_resolves_to_classic_without_env() {
    assert_eq!(RunMode::Auto.resolve(teams_toggle(None)), RunMode::Classic);
}

#[test]
fn test_auto_resolves_to_teams_with_env() {
    assert_eq!(RunMode::Auto.resolve(teams_toggle(Some("1"))), RunMode::Teams);
}

#[test]
fn test_explicit_mode_not_overridden() {
    assert_eq!(RunMode::Classic.resolve(teams_toggle(Some("1"))), RunMode::Classic);
}

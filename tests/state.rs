use pfm::gate::{gate_order, gate_to_role, role_to_gate, GateStatus, Role};
use pfm::state::{Commands, Gates, WorkState, WorkStatus};

#[test]
fn test_default_gates_all_todo() {
    let gates = Gates::default();
    for gate_name in gate_order() {
        assert_eq!(*gates.get(gate_name).unwrap(), GateStatus::Todo);
    }
}

#[test]
fn test_gate_set_and_get() {
    let mut gates = Gates::default();
    assert!(gates.set("prd", GateStatus::Pass));
    assert_eq!(*gates.get("prd").unwrap(), GateStatus::Pass);
    assert_eq!(*gates.get("plan").unwrap(), GateStatus::Todo);
}

#[test]
fn test_gate_set_invalid() {
    let mut gates = Gates::default();
    assert!(!gates.set("nonexistent", GateStatus::Pass));
}

#[test]
fn test_gate_get_invalid() {
    let gates = Gates::default();
    assert!(gates.get("nonexistent").is_none());
}

#[test]
fn test_gate_status_terminal() {
    assert!(!GateStatus::Todo.is_terminal());
    assert!(!GateStatus::InProgress.is_terminal());
    assert!(GateStatus::Pass.is_terminal());
    assert!(GateStatus::Fail.is_terminal());
    assert!(GateStatus::ChangesRequested.is_terminal());
}

#[test]
fn test_gate_order_length() {
    assert_eq!(gate_order().len(), 8);
}

#[test]
fn test_gate_to_role_mapping() {
    assert_eq!(gate_to_role("prd"), Some(Role::Prd));
    assert_eq!(gate_to_role("plan"), Some(Role::Orchestrator));
    assert_eq!(gate_to_role("env"), Some(Role::Env));
    assert_eq!(gate_to_role("tests"), Some(Role::Test));
    assert_eq!(gate_to_role("impl"), Some(Role::Implementation));
    assert_eq!(gate_to_role("review_security"), Some(Role::ReviewSecurity));
    assert_eq!(gate_to_role("qa"), Some(Role::Qa));
    assert_eq!(gate_to_role("git"), Some(Role::Git));
    assert_eq!(gate_to_role("nonexistent"), None);
}

#[test]
fn test_role_to_gate_roundtrip() {
    for gate_name in gate_order() {
        let role = gate_to_role(gate_name).unwrap();
        assert_eq!(role_to_gate(&role), gate_name);
    }
}

#[test]
fn test_work_state_new() {
    let state = WorkState::new("FEAT-001", "Test feature", "myrepo", Commands::default());
    assert_eq!(state.id, "FEAT-001");
    assert_eq!(state.branch, "pfm/FEAT-001");
    assert_eq!(state.status, WorkStatus::InProgress);
    assert_eq!(state.owner, Role::Prd);
}

#[test]
fn test_next_pending_gate_all_todo() {
    let state = WorkState::new("FEAT-001", "Test", "repo", Commands::default());
    assert_eq!(state.next_pending_gate(), Some("prd"));
}

#[test]
fn test_next_pending_gate_some_passed() {
    let mut state = WorkState::new("FEAT-001", "Test", "repo", Commands::default());
    state.gates.prd = GateStatus::Pass;
    state.gates.plan = GateStatus::Pass;
    assert_eq!(state.next_pending_gate(), Some("env"));
}

#[test]
fn test_next_pending_gate_all_passed() {
    let mut state = WorkState::new("FEAT-001", "Test", "repo", Commands::default());
    state.gates.prd = GateStatus::Pass;
    state.gates.plan = GateStatus::Pass;
    state.gates.env = GateStatus::Pass;
    state.gates.tests = GateStatus::Pass;
    state.gates.impl_ = GateStatus::Pass;
    state.gates.review_security = GateStatus::Pass;
    state.gates.qa = GateStatus::Pass;
    state.gates.git = GateStatus::Pass;
    assert_eq!(state.next_pending_gate(), None);
}

#[test]
fn test_role_display_and_parse() {
    let roles = vec![
        Role::Prd, Role::Orchestrator, Role::Env, Role::Test,
        Role::Implementation, Role::ReviewSecurity, Role::Qa, Role::Git,
    ];
    for role in roles {
        let s = role.to_string();
        let parsed: Role = s.parse().unwrap();
        assert_eq!(parsed, role);
    }
}

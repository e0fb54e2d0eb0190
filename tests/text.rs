use pfm::checks::{check_log_entry, check_verdict, record_verdict};
use pfm::config::{commands_for, detect_stack, PfmConfig, StackConfig, StackMarkers, StackTable};
use pfm::gate::{Gate, GateStatus, Role};
use pfm::prompt::{
    escape_quotes, execution_dir, join_path, lead_command, lead_session_name, nudge_session,
    render_nudge, render_teams_prompt, role_list, role_names,
};
use pfm::runlog::agent_start_entry;
use pfm::state::{Commands, WorkState};
use pfm::text::{contains_text, ends_with_text, same_text};

#[test]
fn text_primitives() {
    assert!(same_text("abc", "abc"));
    assert!(!same_text("abc", "abd"));
    assert!(contains_text("x-review_security.md", "security"));
    assert!(contains_text("abc", ""));
    assert!(!contains_text("ab", "abc"));
    assert!(ends_with_text("note.md", ".md"));
    assert!(!ends_with_text("note.mdx", ".md"));
}

#[test]
fn path_joining() {
    assert_eq!(join_path("/base", ".pfm/roles"), "/base/.pfm/roles");
    assert_eq!(join_path("/base/", "x.md"), "/base/x.md");
    assert_eq!(join_path("", "x.md"), "x.md");
}

#[test]
fn role_list_and_names() {
    let gates = vec![Gate::Tests, Gate::Impl];
    assert_eq!(
        role_list("/p", &gates),
        "- **test** (gate: `tests`): role spec at `/p/.pfm/roles/test.md`\n- **implementation** (gate: `impl`): role spec at `/p/.pfm/roles/implementation.md`"
    );
    assert_eq!(role_names(&gates, ", "), "test, implementation");
    assert_eq!(role_names(&Vec::new(), ", "), "");
}

#[test]
fn teams_prompt_names_roles_and_commands() {
    let mut state = WorkState::new("FEAT-9", "T", "repo", Commands::default());
    state.commands.verify = "cargo test".to_string();
    state.commands.security = "cargo audit".to_string();
    let p = render_teams_prompt(&state, "/p/.pfm/work/FEAT-9", "/p", &vec![Gate::Qa]);
    assert!(p.starts_with("You are the PFM orchestrator lead agent running in teams mode.\n\n## Work Item\n- ID: FEAT-9\n"));
    assert!(p.contains("- **qa** (gate: `qa`): role spec at `/p/.pfm/roles/qa.md`"));
    assert!(p.contains("run the verify command: `cargo test`"));
    assert!(p.contains("run the security command: `cargo audit`"));
    assert!(p.contains("/p/.pfm/work/FEAT-9/handoffs/{TIMESTAMP}-{ROLE}.md"));
}

#[test]
fn quoting_and_lead_session() {
    assert_eq!(escape_quotes("say \"hi\""), "say \\\"hi\\\"");
    assert_eq!(lead_command("agent-cli", "a\"b"), "agent-cli --print \"a\\\"b\"");
    assert_eq!(lead_session_name("FEAT-1"), "pfm-FEAT-1-lead");
}

#[test]
fn nudge_and_execution_dir() {
    let mut state = WorkState::new("FEAT-1", "T", "repo", Commands::default());
    assert_eq!(nudge_session(&state, "FEAT-1", &Role::Qa), "pfm-FEAT-1-qa");
    assert_eq!(execution_dir(&state, "/base"), "/base");
    state.workspace.tmux_session = "s1".to_string();
    state.workspace.worktree = "/wt".to_string();
    assert_eq!(nudge_session(&state, "FEAT-1", &Role::Qa), "s1");
    assert_eq!(execution_dir(&state, "/base"), "/wt");
    assert_eq!(
        render_nudge("/w", &Role::Implementation),
        "Resume your work. Check /w/state.json for current state. Your gate is 'impl'. Complete your role spec requirements and write a handoff note."
    );
}

#[test]
fn log_entries() {
    let e = agent_start_entry(&Role::Env);
    assert!(e.starts_with("\n## Agent Start: "));
    assert!(e.ends_with(" — env\n\nRole: env\nGate: env\n"));
    let long = "x".repeat(2500);
    let c = check_log_entry("verify", "make test", false, &long);
    assert!(c.starts_with("\n## Check: verify — "));
    assert!(c.contains("Command: `make test`\nResult: FAIL\n\n```\n"));
    assert!(c.ends_with(&format!("\n{}\n```\n", "x".repeat(2000))));
    assert!(!c.contains(&"x".repeat(2001)));
}

#[test]
fn check_verdicts() {
    assert_eq!(check_verdict(Some(true), Some(true)), GateStatus::Pass);
    assert_eq!(check_verdict(None, None), GateStatus::Pass);
    assert_eq!(check_verdict(Some(false), None), GateStatus::Fail);
    assert_eq!(check_verdict(Some(true), Some(false)), GateStatus::Fail);
    let mut state = WorkState::new("FEAT-1", "T", "repo", Commands::default());
    record_verdict(&mut state, GateStatus::Fail);
    assert_eq!(state.gates.tests, GateStatus::Fail);
    assert_eq!(state.gates.impl_, GateStatus::Todo);
}

#[test]
fn begin_stage_marks_gate_and_owner() {
    let mut state = WorkState::new("FEAT-1", "T", "repo", Commands::default());
    state.begin_stage(Role::ReviewSecurity);
    assert_eq!(state.gates.review_security, GateStatus::InProgress);
    assert_eq!(state.owner, Role::ReviewSecurity);
    assert_eq!(state.gates.qa, GateStatus::Todo);
}

#[test]
fn role_parse_error_names_input() {
    assert_eq!("boss".parse::<Role>().unwrap_err(), "unknown role: boss");
}

#[test]
fn stack_table_and_commands() {
    let config = PfmConfig::default();
    assert_eq!(config.default_stack, "rails");
    assert_eq!(config.stacks.len(), 5);
    assert_eq!(config.stacks.get("rust").unwrap().verify, "cargo test");
    let c = commands_for(&config, None, Some("cli_node")).unwrap();
    assert_eq!(c.verify, "npm test");
    assert_eq!(c.security, "npm audit");
    let d = commands_for(&config, None, None).unwrap();
    assert_eq!(d.verify, "bundle exec rspec");
    assert_eq!(commands_for(&config, Some("cobol"), Some("rust")).unwrap_err(), "unknown stack: cobol");
    let mut t = StackTable::new();
    t.insert("a".to_string(), StackConfig { verify: "1".to_string(), security: "2".to_string() });
    t.insert("a".to_string(), StackConfig { verify: "3".to_string(), security: "4".to_string() });
    assert_eq!(t.len(), 1);
    assert_eq!(t.get("a").unwrap().verify, "3");
}

#[test]
fn stack_detection_priority() {
    let rails = StackMarkers { gemfile: true, rails_files: true, package_json: Some("{}".to_string()) };
    assert_eq!(detect_stack(&rails), Some("rails"));
    let rn = StackMarkers { gemfile: false, rails_files: false, package_json: Some("{\"dependencies\":{\"react-native\":\"0.72\"}}".to_string()) };
    assert_eq!(detect_stack(&rn), Some("react_native"));
    let node = StackMarkers { gemfile: true, rails_files: false, package_json: Some("{\"dependencies\":{\"express\":\"4\"}}".to_string()) };
    assert_eq!(detect_stack(&node), Some("cli_node"));
    let ruby = StackMarkers { gemfile: true, rails_files: false, package_json: None };
    assert_eq!(detect_stack(&ruby), Some("cli_ruby"));
    let none = StackMarkers { gemfile: false, rails_files: true, package_json: None };
    assert_eq!(detect_stack(&none), None);
}

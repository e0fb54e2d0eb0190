use pfm::gate::Role;
use pfm::prompt::render_bootstrap_prompt;
use tempfile::tempdir;

#[test]
fn test_render_bootstrap_prompt_contains_role() {
    let dir = tempdir().unwrap();
    let work_dir = dir.path().join("work/FEAT-001");
    let prompt = render_bootstrap_prompt(&Role::Prd, work_dir.to_str().unwrap(), dir.path().to_str().unwrap());
    assert!(prompt.contains("prd agent"));
    assert!(prompt.contains("state.json"));
    assert!(prompt.contains("handoffs"));
    assert!(prompt.contains("role spec"));
}

#[test]
fn test_render_bootstrap_prompt_asks_questions() {
    let dir = tempdir().unwrap();
    let work_dir = dir.path().join("work/FEAT-001");
    let prompt = render_bootstrap_prompt(&Role::Prd, work_dir.to_str().unwrap(), dir.path().to_str().unwrap());
    assert!(prompt.contains("Ask the user clarifying questions"));
}

#[test]
fn test_render_bootstrap_prompt_exit_instruction() {
    let dir = tempdir().unwrap();
    let work_dir = dir.path().join("work/FEAT-001");
    let prompt = render_bootstrap_prompt(&Role::Prd, work_dir.to_str().unwrap(), dir.path().to_str().unwrap());
    assert!(prompt.contains("/exit"));
}

#[test]
fn test_render_bootstrap_prompt_all_roles() {
    let dir = tempdir().unwrap();
    let work_dir = dir.path().join("work/FEAT-001");
    let roles = vec![
        Role::Prd, Role::Orchestrator, Role::Env, Role::Test,
        Role::Implementation, Role::ReviewSecurity, Role::Qa, Role::Git,
    ];
    for role in roles {
        let prompt = render_bootstrap_prompt(&role, work_dir.to_str().unwrap(), dir.path().to_str().unwrap());
        assert!(prompt.contains(&role.to_string()));
    }
}

//! The text the pipeline hands to agents: the bootstrap instruction of a
//! role agent, the instruction to the lead session of a composite run, the
//! nudge, and session names.
use vstd::prelude::*;
use crate::gate::{Gate, Role, gate_of, gate_text, role_of, role_text};
use crate::state::WorkState;

verus! {

/// `b` joined to the directory `a` as a relative path.
pub open spec fn path_join(a: Seq<char>, b: Seq<char>) -> Seq<char> {
    if a.len() == 0 {
        b
    } else if a.last() == '/' {
        a + b
    } else {
        a + "/"@ + b
    }
}

/// Joins the relative path `b` to the directory `a`.
pub fn join_path(a: &str, b: &str) -> (r: String)
    ensures
        r@ == path_join(a@, b@),
{
    let n = a.unicode_len();
    if n == 0 {
        return String::from_str(b);
    }
    let mut r = String::from_str(a);
    if a.get_char(n - 1) != '/' {
        r.append("/");
    }
    r.append(b);
    r
}

/// The items with `sep` between each two of them.
pub open spec fn join_with(items: Seq<Seq<char>>, sep: Seq<char>) -> Seq<char>
    decreases items.len(),
{
    if items.len() == 0 {
        Seq::empty()
    } else if items.len() == 1 {
        items[0]
    } else {
        join_with(items.drop_last(), sep) + sep + items.last()
    }
}

/// The characters of each string.
pub open spec fn views_of(items: Seq<String>) -> Seq<Seq<char>> {
    Seq::new(items.len(), |i: int| items[i]@)
}

/// Joins the strings with `sep` between each two of them.
pub fn join_strings(items: &Vec<String>, sep: &str) -> (r: String)
    ensures
        r@ == join_with(views_of(items@), sep@),
{
    let ghost views = views_of(items@);
    let mut r = String::new();
    let mut i: usize = 0;
    while i < items.len()
        invariant
            views == views_of(items@),
            i <= items@.len(),
            r@ == join_with(views.subrange(0, i as int), sep@),
        decreases items.len() - i,
    {
        if i > 0 {
            r.append(sep);
        }
        r.append(items[i].as_str());
        proof {
            let next = views.subrange(0, i + 1);
            assert(next.drop_last() =~= views.subrange(0, i as int));
            if i == 0 {
                assert(r@ =~= next[0]);
            }
        }
        i = i + 1;
    }
    assert(views.subrange(0, items@.len() as int) =~= views);
    r
}

/// Where the role spec of a role lies under the project directory.
pub open spec fn role_spec_path(base: Seq<char>, role_name: Seq<char>) -> Seq<char> {
    path_join(path_join(base, ".pfm/roles"@), role_name + ".md"@)
}

/// The path of the role spec of a role under the project directory.
pub fn role_spec_path_for(base: &str, role_name: &str) -> (r: String)
    ensures
        r@ == role_spec_path(base@, role_name@),
{
    let roles_dir = join_path(base, ".pfm/roles");
    let mut file = String::from_str(role_name);
    file.append(".md");
    join_path(roles_dir.as_str(), file.as_str())
}

/// Writes the instruction that starts `role` on the work item in
/// `work_dir`, for the project rooted at `pfm_base`.
pub fn render_bootstrap_prompt(role: &Role, work_dir: &str, pfm_base: &str) -> (r: String)
    ensures
        r@ == bootstrap_text(role_text(*role), role_spec_path(pfm_base@, role_text(*role)), work_dir@),
{
    let spec_path = role_spec_path_for(pfm_base, role.as_str());
    bootstrap_prompt(role.as_str(), spec_path.as_str(), work_dir)
}

/// The role list entry of a gate in a composite run.
pub open spec fn role_entry(base: Seq<char>, g: Gate) -> Seq<char> {
    role_line_text(role_text(role_of(g)), gate_text(g), role_spec_path(base, role_text(role_of(g))))
}

/// The role list of a composite run: one entry per gate, in the given
/// order.
pub open spec fn role_list_text(base: Seq<char>, gates: Seq<Gate>) -> Seq<char> {
    join_with(Seq::new(gates.len(), |i: int| role_entry(base, gates[i])), "\n"@)
}

/// The names of the roles that own the gates, with `sep` between them.
pub open spec fn role_names_text(gates: Seq<Gate>, sep: Seq<char>) -> Seq<char> {
    join_with(Seq::new(gates.len(), |i: int| role_text(role_of(gates[i]))), sep)
}

/// Writes the role list of a composite run.
pub fn role_list(base: &str, gates: &Vec<Gate>) -> (r: String)
    ensures
        r@ == role_list_text(base@, gates@),
{
    let ghost want = Seq::new(gates@.len(), |i: int| role_entry(base@, gates@[i]));
    let mut lines: Vec<String> = Vec::new();
    let mut i: usize = 0;
    while i < gates.len()
        invariant
            i <= gates@.len(),
            want == Seq::new(gates@.len(), |i: int| role_entry(base@, gates@[i])),
            lines@.len() == i,
            forall|k: int| 0 <= k < i ==> #[trigger] lines@[k]@ == want[k],
        decreases gates.len() - i,
    {
        let g = gates[i];
        let role = g.role();
        let spec_path = role_spec_path_for(base, role.as_str());
        let line = role_line_for(role.as_str(), g.name(), spec_path.as_str());
        assert(line@ == want[i as int]);
        let ghost before = lines@;
        lines.push(line);
        assert(lines@ == before.push(line));
        i = i + 1;
    }
    assert(views_of(lines@) =~= want);
    join_strings(&lines, "\n")
}

/// Writes the names of the roles that own the gates, with `sep` between
/// them.
pub fn role_names(gates: &Vec<Gate>, sep: &str) -> (r: String)
    ensures
        r@ == role_names_text(gates@, sep@),
{
    let ghost want = Seq::new(gates@.len(), |i: int| role_text(role_of(gates@[i])));
    let mut names: Vec<String> = Vec::new();
    let mut i: usize = 0;
    while i < gates.len()
        invariant
            i <= gates@.len(),
            want == Seq::new(gates@.len(), |i: int| role_text(role_of(gates@[i]))),
            names@.len() == i,
            forall|k: int| 0 <= k < i ==> #[trigger] names@[k]@ == want[k],
        decreases gates.len() - i,
    {
        let name = gates[i].role().to_string();
        assert(name@ == want[i as int]);
        let ghost before = names@;
        names.push(name);
        assert(names@ == before.push(name));
        i = i + 1;
    }
    assert(views_of(names@) =~= want);
    join_strings(&names, sep)
}

/// Writes the instruction to the lead session of a composite run over
/// `gates`, for the work item `work_id` in `work_dir`.
pub fn render_teams_prompt(state: &WorkState, work_dir: &str, base: &str, gates: &Vec<Gate>) -> (r: String)
    ensures
        r@ == teams_text(
            state.id@,
            work_dir@,
            role_list_text(base@, gates@),
            state.commands.verify@,
            state.commands.security@,
        ),
{
    let roles = role_list(base, gates);
    teams_prompt(
        state.id.as_str(),
        work_dir,
        roles.as_str(),
        state.commands.verify.as_str(),
        state.commands.security.as_str(),
    )
}

/// The directory an agent runs in: the isolated working copy when one is
/// set, else the project directory.
pub fn execution_dir(state: &WorkState, base: &str) -> (r: String)
    ensures
        r@ == (if state.workspace.worktree@.len() > 0 {
            state.workspace.worktree@
        } else {
            base@
        }),
{
    if state.workspace.worktree.as_str().unicode_len() > 0 {
        state.workspace.worktree.clone()
    } else {
        String::from_str(base)
    }
}

/// The session a nudge goes to: the recorded detached session when one is
/// set, else the conventional session name of the role.
pub fn nudge_session(state: &WorkState, work_id: &str, role: &Role) -> (r: String)
    ensures
        r@ == (if state.workspace.tmux_session@.len() > 0 {
            state.workspace.tmux_session@
        } else {
            session_text(work_id@, role_text(*role))
        }),
{
    if state.workspace.tmux_session.as_str().unicode_len() > 0 {
        state.workspace.tmux_session.clone()
    } else {
        session_name_for(work_id, role.as_str())
    }
}

/// Writes the nudge for `role` on the work item in `work_dir`.
pub fn render_nudge(work_dir: &str, role: &Role) -> (r: String)
    ensures
        r@ == nudge_text(work_dir@, gate_text(gate_of(*role))),
{
    nudge_message(work_dir, role.gate().name())
}

/// The instruction that starts a role agent on its stage.
pub open spec fn bootstrap_text(role_name: Seq<char>, spec_path: Seq<char>, work_dir: Seq<char>) -> Seq<char> {
    "You are acting as the "@
        + role_name
        + " agent.\nRead and follow your role spec exactly: "@
        + spec_path
        + "\nYour assigned work item directory is: "@
        + work_dir
        + "\nStart by reading:\n1) "@
        + work_dir
        + "/state.json\n2) "@
        + work_dir
        + "/tasks.md\n3) The most recent file in "@
        + work_dir
        + "/handoffs/ (if any)\n\nHard requirements:\n- Ask the user clarifying questions when requirements are ambiguous or incomplete. Do not assume — confirm with the user.\n- Update only the "@
        + "gate you own in state.json (do not modify other gates).\n- Log commands, outputs, and failures in "@
        + work_dir
        + "/runlog.md.\n- When finished, write a handoff note to "@
        + work_dir
        + "/handoffs/{TIMESTAMP}-"@
        + role_name
        + ".md using the standard format.\n- When you are done, tell the user you are finished and they can exit the session with /exit to return to PFM.\n- Stop when your role spec stop condition is met."@
}

/// Writes the instruction that starts a role agent on its stage.
pub fn bootstrap_prompt(role_name: &str, spec_path: &str, work_dir: &str) -> (r: String)
    ensures
        r@ == bootstrap_text(role_name@, spec_path@, work_dir@),
{
    let mut r = String::from_str("You are acting as the ");
    r.append(role_name);
    r.append(" agent.\nRead and follow your role spec exactly: ");
    r.append(spec_path);
    r.append("\nYour assigned work item directory is: ");
    r.append(work_dir);
    r.append("\nStart by reading:\n1) ");
    r.append(work_dir);
    r.append("/state.json\n2) ");
    r.append(work_dir);
    r.append("/tasks.md\n3) The most recent file in ");
    r.append(work_dir);
    r.append("/handoffs/ (if any)\n\nHard requirements:\n- Ask the user clarifying questions when requirements are ambiguous or incomplete. Do not assume — confirm with the user.\n- Update only the ");
    r.append("gate you own in state.json (do not modify other gates).\n- Log commands, outputs, and failures in ");
    r.append(work_dir);
    r.append("/runlog.md.\n- When finished, write a handoff note to ");
    r.append(work_dir);
    r.append("/handoffs/{TIMESTAMP}-");
    r.append(role_name);
    r.append(".md using the standard format.\n- When you are done, tell the user you are finished and they can exit the session with /exit to return to PFM.\n- Stop when your role spec stop condition is met.");
    r
}

/// The instruction to the lead session of a composite run.
pub open spec fn teams_text(work_id: Seq<char>, work_dir: Seq<char>, roles: Seq<char>, verify: Seq<char>, security: Seq<char>) -> Seq<char> {
    "You are the PFM orchestrator lead agent running in teams mode.\n\n## Work Item\n- ID: "@
        + work_id
        + "\n- Directory: "@
        + work_dir
        + "\n- State: "@
        + work_dir
        + "/state.json\n\n## Your Job\nSpawn a teammate for each role below. Each teammate must:\n1. Read their role spec and follow it exactly\n2. Read "@
        + work_dir
        + "/state.json and "@
        + work_dir
        + "/tasks.md before starting\n3. Read the most recent file in "@
        + work_dir
        + "/handoffs/ for context from prior roles\n4. Update ONLY their own gate in "@
        + work_dir
        + "/state.json\n5. Log commands and outputs in "@
        + work_dir
        + "/runlog.md\n6. Write a handoff note to "@
        + work_dir
        + "/handoffs/{TIMESTAMP}-{ROLE}.md when done\n\n## Roles to Spawn (in order)\n"@
        + roles
        + "\n\n## Sequencing Rules\n- Roles must execute in the order listed above\n- Each role should wait for the prior role's gate to be `pass` before starting\n- After `tests` or `impl` gates complete, run the verify command: `"@
        + verify
        + "`\n- After `impl` gate, run the security command: `"@
        + security
        + "`\n\n## Reroute Rules\n- If `tests` gate = `fail` → have the implementation teammate fix and retry\n- If `review_security` gate = `changes_requested` → have the implementation teammate fix and retry\n- If `qa` gate = `fail` → have the implementation teammate fix, then re-run tests and qa\n\n## Completion\nWhen all gates are `pass` (or you reach the target gate), set work status to `done` in state.json.\n\nStart now by creating the team and spawning the first role."@
}

/// Writes the instruction to the lead session of a composite run.
pub fn teams_prompt(work_id: &str, work_dir: &str, roles: &str, verify: &str, security: &str) -> (r: String)
    ensures
        r@ == teams_text(work_id@, work_dir@, roles@, verify@, security@),
{
    let mut r = String::from_str("You are the PFM orchestrator lead agent running in teams mode.\n\n## Work Item\n- ID: ");
    r.append(work_id);
    r.append("\n- Directory: ");
    r.append(work_dir);
    r.append("\n- State: ");
    r.append(work_dir);
    r.append("/state.json\n\n## Your Job\nSpawn a teammate for each role below. Each teammate must:\n1. Read their role spec and follow it exactly\n2. Read ");
    r.append(work_dir);
    r.append("/state.json and ");
    r.append(work_dir);
    r.append("/tasks.md before starting\n3. Read the most recent file in ");
    r.append(work_dir);
    r.append("/handoffs/ for context from prior roles\n4. Update ONLY their own gate in ");
    r.append(work_dir);
    r.append("/state.json\n5. Log commands and outputs in ");
    r.append(work_dir);
    r.append("/runlog.md\n6. Write a handoff note to ");
    r.append(work_dir);
    r.append("/handoffs/{TIMESTAMP}-{ROLE}.md when done\n\n## Roles to Spawn (in order)\n");
    r.append(roles);
    r.append("\n\n## Sequencing Rules\n- Roles must execute in the order listed above\n- Each role should wait for the prior role's gate to be `pass` before starting\n- After `tests` or `impl` gates complete, run the verify command: `");
    r.append(verify);
    r.append("`\n- After `impl` gate, run the security command: `");
    r.append(security);
    r.append("`\n\n## Reroute Rules\n- If `tests` gate = `fail` → have the implementation teammate fix and retry\n- If `review_security` gate = `changes_requested` → have the implementation teammate fix and retry\n- If `qa` gate = `fail` → have the implementation teammate fix, then re-run tests and qa\n\n## Completion\nWhen all gates are `pass` (or you reach the target gate), set work status to `done` in state.json.\n\nStart now by creating the team and spawning the first role.");
    r
}

/// One entry of the role list of a composite run.
pub open spec fn role_line_text(role_name: Seq<char>, gate_name: Seq<char>, spec_path: Seq<char>) -> Seq<char> {
    "- **"@
        + role_name
        + "** (gate: `"@
        + gate_name
        + "`): role spec at `"@
        + spec_path
        + "`"@
}

/// Writes one entry of the role list of a composite run.
pub fn role_line_for(role_name: &str, gate_name: &str, spec_path: &str) -> (r: String)
    ensures
        r@ == role_line_text(role_name@, gate_name@, spec_path@),
{
    let mut r = String::from_str("- **");
    r.append(role_name);
    r.append("** (gate: `");
    r.append(gate_name);
    r.append("`): role spec at `");
    r.append(spec_path);
    r.append("`");
    r
}

/// The message that asks a running agent to resume its stage.
pub open spec fn nudge_text(work_dir: Seq<char>, gate_name: Seq<char>) -> Seq<char> {
    "Resume your work. Check "@
        + work_dir
        + "/state.json for current state. Your gate is '"@
        + gate_name
        + "'. Complete your role spec requirements and write a handoff note."@
}

/// Writes the message that asks a running agent to resume its stage.
pub fn nudge_message(work_dir: &str, gate_name: &str) -> (r: String)
    ensures
        r@ == nudge_text(work_dir@, gate_name@),
{
    let mut r = String::from_str("Resume your work. Check ");
    r.append(work_dir);
    r.append("/state.json for current state. Your gate is '");
    r.append(gate_name);
    r.append("'. Complete your role spec requirements and write a handoff note.");
    r
}

/// The name of the detached session of a role on a work item.
pub open spec fn session_text(work_id: Seq<char>, role_name: Seq<char>) -> Seq<char> {
    "pfm-"@
        + work_id
        + "-"@
        + role_name
}

/// Writes the name of the detached session of a role on a work item.
pub fn session_name_for(work_id: &str, role_name: &str) -> (r: String)
    ensures
        r@ == session_text(work_id@, role_name@),
{
    let mut r = String::from_str("pfm-");
    r.append(work_id);
    r.append("-");
    r.append(role_name);
    r
}

/// The name of the lead session of a composite run.
pub open spec fn lead_session_text(work_id: Seq<char>) -> Seq<char> {
    "pfm-"@
        + work_id
        + "-lead"@
}

/// Writes the name of the lead session of a composite run.
pub fn lead_session_name(work_id: &str) -> (r: String)
    ensures
        r@ == lead_session_text(work_id@),
{
    let mut r = String::from_str("pfm-");
    r.append(work_id);
    r.append("-lead");
    r
}

/// `s` with a backslash put before each double quote.
pub open spec fn escaped_quotes(s: Seq<char>) -> Seq<char>
    decreases s.len(),
{
    if s.len() == 0 {
        Seq::empty()
    } else if s.last() == '"' {
        escaped_quotes(s.drop_last()) + "\\\""@
    } else {
        escaped_quotes(s.drop_last()).push(s.last())
    }
}

/// Puts a backslash before each double quote of `s`.
pub fn escape_quotes(s: &str) -> (r: String)
    ensures
        r@ == escaped_quotes(s@),
{
    let n = s.unicode_len();
    let mut r = String::new();
    let mut i: usize = 0;
    while i < n
        invariant
            n == s@.len(),
            i <= n,
            r@ == escaped_quotes(s@.subrange(0, i as int)),
        decreases n - i,
    {
        let c = s.get_char(i);
        let ghost prefix = s@.subrange(0, i + 1);
        assert(prefix.drop_last() =~= s@.subrange(0, i as int));
        assert(prefix.last() == c);
        if c == '"' {
            r.append("\\\"");
        } else {
            let one = s.substring_char(i, i + 1);
            assert(one@ =~= seq![c]);
            r.append(one);
            assert(r@ =~= escaped_quotes(s@.subrange(0, i as int)).push(c));
        }
        i = i + 1;
    }
    assert(s@.subrange(0, n as int) =~= s@);
    r
}

/// The command line that runs `program`, the agent CLI, as the lead
/// session of a composite run.
pub open spec fn lead_command_text(program: Seq<char>, prompt: Seq<char>) -> Seq<char> {
    program + " --print \""@ + escaped_quotes(prompt) + "\""@
}

/// Writes the command line that runs `program`, the agent CLI, as the lead
/// session of a composite run, with the instruction quoted.
pub fn lead_command(program: &str, prompt: &str) -> (r: String)
    ensures
        r@ == lead_command_text(program@, prompt@),
{
    let mut r = String::from_str(program);
    r.append(" --print \"");
    let body = escape_quotes(prompt);
    r.append(body.as_str());
    r.append("\"");
    r
}

} // verus!

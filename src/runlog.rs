//! Entries of the run log, the append-only journal of a work item: agent
//! starts and exits, composite runs, and check commands.
use vstd::prelude::*;
use crate::clock::now_log_stamp;
use crate::gate::{Gate, Role, gate_of, gate_text, role_text};
use crate::prompt::{role_names, role_names_text};

verus! {

/// The run log entry written when an agent starts.
pub open spec fn start_entry_text(stamp: Seq<char>, role_name: Seq<char>, gate_name: Seq<char>) -> Seq<char> {
    "\n## Agent Start: "@
        + stamp
        + " — "@
        + role_name
        + "\n\nRole: "@
        + role_name
        + "\nGate: "@
        + gate_name
        + "\n"@
}

/// Writes the run log entry for an agent start.
pub fn start_entry(stamp: &str, role_name: &str, gate_name: &str) -> (r: String)
    ensures
        r@ == start_entry_text(stamp@, role_name@, gate_name@),
{
    let mut r = String::from_str("\n## Agent Start: ");
    r.append(stamp);
    r.append(" — ");
    r.append(role_name);
    r.append("\n\nRole: ");
    r.append(role_name);
    r.append("\nGate: ");
    r.append(gate_name);
    r.append("\n");
    r
}

/// The run log entry written when an agent exits with a failure status.
pub open spec fn failed_exit_entry_text(stamp: Seq<char>, role_name: Seq<char>) -> Seq<char> {
    "\n## Agent Exit (non-zero): "@
        + stamp
        + " — "@
        + role_name
        + "\n"@
}

/// Writes the run log entry for an agent that exited with a failure status.
pub fn failed_exit_entry(stamp: &str, role_name: &str) -> (r: String)
    ensures
        r@ == failed_exit_entry_text(stamp@, role_name@),
{
    let mut r = String::from_str("\n## Agent Exit (non-zero): ");
    r.append(stamp);
    r.append(" — ");
    r.append(role_name);
    r.append("\n");
    r
}

/// The run log entry written when an agent exits cleanly.
pub open spec fn complete_entry_text(stamp: Seq<char>, role_name: Seq<char>) -> Seq<char> {
    "\n## Agent Complete: "@
        + stamp
        + " — "@
        + role_name
        + "\n"@
}

/// Writes the run log entry for an agent that exited cleanly.
pub fn complete_entry(stamp: &str, role_name: &str) -> (r: String)
    ensures
        r@ == complete_entry_text(stamp@, role_name@),
{
    let mut r = String::from_str("\n## Agent Complete: ");
    r.append(stamp);
    r.append(" — ");
    r.append(role_name);
    r.append("\n");
    r
}

/// The run log entry written when a composite run starts.
pub open spec fn teams_entry_text(stamp: Seq<char>, work_id: Seq<char>, role_names: Seq<char>) -> Seq<char> {
    "\n## Teams Run Start: "@
        + stamp
        + " — "@
        + work_id
        + "\n\nRoles: "@
        + role_names
        + "\n"@
}

/// Writes the run log entry for the start of a composite run.
pub fn teams_entry(stamp: &str, work_id: &str, role_names: &str) -> (r: String)
    ensures
        r@ == teams_entry_text(stamp@, work_id@, role_names@),
{
    let mut r = String::from_str("\n## Teams Run Start: ");
    r.append(stamp);
    r.append(" — ");
    r.append(work_id);
    r.append("\n\nRoles: ");
    r.append(role_names);
    r.append("\n");
    r
}

/// The run log entry of one check command.
pub open spec fn check_entry_text(kind: Seq<char>, stamp: Seq<char>, command: Seq<char>, verdict: Seq<char>, output: Seq<char>) -> Seq<char> {
    "\n## Check: "@
        + kind
        + " — "@
        + stamp
        + "\n\nCommand: `"@
        + command
        + "`\nResult: "@
        + verdict
        + "\n\n```\n"@
        + output
        + "\n```\n"@
}

/// Writes the run log entry of one check command.
pub fn check_entry(kind: &str, stamp: &str, command: &str, verdict: &str, output: &str) -> (r: String)
    ensures
        r@ == check_entry_text(kind@, stamp@, command@, verdict@, output@),
{
    let mut r = String::from_str("\n## Check: ");
    r.append(kind);
    r.append(" — ");
    r.append(stamp);
    r.append("\n\nCommand: `");
    r.append(command);
    r.append("`\nResult: ");
    r.append(verdict);
    r.append("\n\n```\n");
    r.append(output);
    r.append("\n```\n");
    r
}

/// The run log entry for the start of `role`, stamped with the current
/// time.
pub fn agent_start_entry(role: &Role) -> (r: String)
    ensures
        exists|stamp: Seq<char>| r@ == start_entry_text(stamp, role_text(*role), gate_text(gate_of(*role))),
{
    let stamp = now_log_stamp();
    start_entry(stamp.as_str(), role.as_str(), role.gate().name())
}

/// The run log entry for an agent of `role` that exited with a failure
/// status, stamped with the current time.
pub fn agent_failed_entry(role: &Role) -> (r: String)
    ensures
        exists|stamp: Seq<char>| r@ == failed_exit_entry_text(stamp, role_text(*role)),
{
    let stamp = now_log_stamp();
    failed_exit_entry(stamp.as_str(), role.as_str())
}

/// The run log entry for an agent of `role` that exited cleanly, stamped
/// with the current time.
pub fn agent_complete_entry(role: &Role) -> (r: String)
    ensures
        exists|stamp: Seq<char>| r@ == complete_entry_text(stamp, role_text(*role)),
{
    let stamp = now_log_stamp();
    complete_entry(stamp.as_str(), role.as_str())
}

/// The run log entry for the start of a composite run over `gates`,
/// stamped with the current time.
pub fn teams_start_entry(work_id: &str, gates: &Vec<Gate>) -> (r: String)
    ensures
        exists|stamp: Seq<char>| r@ == teams_entry_text(stamp, work_id@, role_names_text(gates@, ", "@)),
{
    let stamp = now_log_stamp();
    let names = role_names(gates, ", ");
    teams_entry(stamp.as_str(), work_id, names.as_str())
}

} // verus!

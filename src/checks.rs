//! The verify and security check that follows the `tests` and `impl`
//! stages: its verdict on the `tests` gate and its run log entries.
use vstd::prelude::*;
use crate::clock::now_log_stamp;
use crate::gate::{Gate, GateStatus};
use crate::runlog::{check_entry, check_entry_text};
use crate::state::{WorkState, WorkStatus};

verus! {

/// Characters of command output kept in a run log entry.
pub const OUTPUT_CLIP: usize = 2000;

/// A check command passes unless it ran and failed; an unset command
/// (`None`) passes.
pub open spec fn command_ok(result: Option<bool>) -> bool {
    result != Some(false)
}

/// The `tests` gate after a check: `pass` when both commands passed,
/// `fail` otherwise.
pub open spec fn verdict_of(verify: Option<bool>, security: Option<bool>) -> GateStatus {
    if command_ok(verify) && command_ok(security) {
        GateStatus::Pass
    } else {
        GateStatus::Fail
    }
}

/// The `tests` gate after a check, from the results of the verify and
/// security commands (`None` for a command that is not configured).
pub fn check_verdict(verify: Option<bool>, security: Option<bool>) -> (r: GateStatus)
    ensures
        r == verdict_of(verify, security),
{
    let verify_ok = match verify {
        Some(ok) => ok,
        None => true,
    };
    let security_ok = match security {
        Some(ok) => ok,
        None => true,
    };
    if verify_ok && security_ok {
        GateStatus::Pass
    } else {
        GateStatus::Fail
    }
}

/// Records the outcome of the verify and security commands: `tests` takes
/// it as its status, no other gate changes, and the document is stamped.
pub fn record_verdict(state: &mut WorkState, verdict: GateStatus)
    ensures
        final(state).gates.status(Gate::Tests) == verdict,
        forall|h: Gate| h != Gate::Tests ==> #[trigger] final(state).gates.status(h)
            == old(state).gates.status(h),
        final(state).id == old(state).id,
        final(state).title == old(state).title,
        final(state).repo == old(state).repo,
        final(state).branch == old(state).branch,
        final(state).notes == old(state).notes,
        final(state).status == old(state).status,
        final(state).owner == old(state).owner,
        final(state).commands == old(state).commands,
        final(state).workspace == old(state).workspace,
        old(state).status != WorkStatus::Done ==> final(state).wf(),
{
    state.gates.set_status(Gate::Tests, verdict);
    state.touch();
}

/// The first `n` characters of `s`, or all of it when it is shorter.
pub open spec fn clip(s: Seq<char>, n: nat) -> Seq<char> {
    if s.len() <= n {
        s
    } else {
        s.subrange(0, n as int)
    }
}

pub open spec fn verdict_text(success: bool) -> Seq<char> {
    if success {
        "PASS"@
    } else {
        "FAIL"@
    }
}

/// The run log entry of one check command, stamped with the current time;
/// the output is clipped to its first characters.
pub fn check_log_entry(kind: &str, command: &str, success: bool, output: &str) -> (r: String)
    ensures
        exists|stamp: Seq<char>|
            r@ == check_entry_text(
                kind@,
                stamp,
                command@,
                verdict_text(success),
                clip(output@, OUTPUT_CLIP as nat),
            ),
{
    let n = output.unicode_len();
    let keep = if n <= OUTPUT_CLIP {
        n
    } else {
        OUTPUT_CLIP
    };
    let clipped = output.substring_char(0, keep);
    assert(n <= OUTPUT_CLIP ==> clipped@ =~= output@);
    let verdict = if success {
        "PASS"
    } else {
        "FAIL"
    };
    assert(clipped@ == clip(output@, OUTPUT_CLIP as nat));
    assert(verdict@ == verdict_text(success));
    let stamp = now_log_stamp();
    let r = check_entry(kind, stamp.as_str(), command, verdict, clipped);
    assert(r@ == check_entry_text(kind@, stamp@, command@, verdict_text(success), clip(output@, OUTPUT_CLIP as nat)));
    r
}

} // verus!

//! The completion detector: whether a dispatched agent finished its stage.
//! A single-stage wait needs a terminal gate and a handoff note written
//! after the dispatch; a bulk wait trusts `pass` alone. Both are bounded
//! by a number of polls, and running out of polls is a timeout, not an
//! error.
use vstd::prelude::*;
use crate::gate::{Gate, GateStatus, status_is_terminal};
use crate::state::Gates;
use crate::driver::{all_passed_through, passed_through};
use crate::text::{contains_text, ends_with_text, seq_contains, seq_ends_with};

verus! {

/// Seconds between two polls of the state document.
pub const POLL_INTERVAL_SECS: u64 = 5;

/// Polls of a single-stage wait (ten minutes).
pub const STAGE_POLL_LIMIT: u32 = 120;

/// Polls of a bulk wait (thirty minutes).
pub const BULK_POLL_LIMIT: u32 = 360;

/// A point in time: seconds since the Unix epoch and nanoseconds within
/// that second.
#[derive(Debug, Clone, Copy, PartialEq, Eq, Structural)]
pub struct Timestamp {
    pub secs: i64,
    pub nanos: u32,
}

/// `a` is strictly later than `b`.
pub open spec fn later_than(a: Timestamp, b: Timestamp) -> bool {
    a.secs > b.secs || (a.secs == b.secs && a.nanos > b.nanos)
}

impl Timestamp {
    /// True when this time is strictly later than `other`.
    pub fn is_after(&self, other: &Timestamp) -> (r: bool)
        ensures
            r == later_than(*self, *other),
    {
        self.secs > other.secs || (self.secs == other.secs && self.nanos > other.nanos)
    }
}

/// A file of the handoff directory: its name and when it was last
/// modified.
#[derive(Debug, Clone)]
pub struct HandoffFile {
    pub name: String,
    pub modified: Timestamp,
}

/// The file is a handoff note of the role, written after `after`.
pub open spec fn is_fresh_handoff(f: HandoffFile, role_name: Seq<char>, after: Timestamp) -> bool {
    &&& seq_contains(f.name@, role_name)
    &&& seq_ends_with(f.name@, ".md"@)
    &&& later_than(f.modified, after)
}

/// True when some file is a Markdown note whose name contains the role
/// name and that was modified strictly after `after`.
pub fn has_recent_handoff(files: &Vec<HandoffFile>, role_name: &str, after: Timestamp) -> (r: bool)
    ensures
        r == exists|i: int| 0 <= i < files@.len() && is_fresh_handoff(#[trigger] files@[i], role_name@, after),
{
    let mut i: usize = 0;
    while i < files.len()
        invariant
            i <= files@.len(),
            forall|k: int| 0 <= k < i ==> !is_fresh_handoff(#[trigger] files@[k], role_name@, after),
        decreases files.len() - i,
    {
        let f = &files[i];
        if contains_text(f.name.as_str(), role_name) && ends_with_text(f.name.as_str(), ".md")
            && f.modified.is_after(&after) {
            assert(is_fresh_handoff(files@[i as int], role_name@, after));
            return true;
        }
        i = i + 1;
    }
    false
}

/// What one poll concluded.
#[derive(Debug, Clone, Copy, PartialEq, Eq, Structural)]
pub enum WaitOutcome {
    /// The stage (or every stage) is complete.
    Complete,
    /// The agent ran to its end but left its gate open.
    Incomplete,
    /// Not yet: sleep one interval and poll again.
    Pending,
    /// The poll budget is spent; the state is left as observed.
    TimedOut,
}

/// The wait for one dispatched stage.
#[derive(Debug, Clone, Copy, PartialEq, Eq, Structural)]
pub struct StageWait {
    /// Polls made so far.
    pub polls: u32,
    /// The agent runs in a detached session; otherwise it already ran to
    /// its end before the first poll.
    pub detached: bool,
}

/// The outcome of the poll numbered `polls` (counting from zero) of a
/// single-stage wait.
pub open spec fn stage_outcome(polls: u32, detached: bool, status: GateStatus, fresh: bool) -> WaitOutcome {
    if polls >= STAGE_POLL_LIMIT {
        WaitOutcome::TimedOut
    } else if status_is_terminal(status) && fresh {
        WaitOutcome::Complete
    } else if polls == 0 && !detached {
        if status_is_terminal(status) {
            WaitOutcome::Complete
        } else {
            WaitOutcome::Incomplete
        }
    } else if polls + 1 >= STAGE_POLL_LIMIT {
        WaitOutcome::TimedOut
    } else {
        WaitOutcome::Pending
    }
}

impl StageWait {
    pub fn new(detached: bool) -> (r: StageWait)
        ensures
            r.polls == 0,
            r.detached == detached,
    {
        StageWait { polls: 0, detached }
    }

    /// Takes one poll: the owned gate's status and whether a fresh handoff
    /// note of its role exists. Once the budget is spent every poll times
    /// out.
    pub fn observe(&mut self, status: GateStatus, fresh_handoff: bool) -> (r: WaitOutcome)
        ensures
            r == stage_outcome(old(self).polls, old(self).detached, status, fresh_handoff),
            final(self).detached == old(self).detached,
            final(self).polls == (if old(self).polls >= STAGE_POLL_LIMIT {
                old(self).polls
            } else {
                (old(self).polls + 1) as u32
            }),
    {
        if self.polls >= STAGE_POLL_LIMIT {
            return WaitOutcome::TimedOut;
        }
        let n = self.polls;
        self.polls = n + 1;
        let terminal = status.is_terminal();
        if terminal && fresh_handoff {
            WaitOutcome::Complete
        } else if n == 0 && !self.detached {
            if terminal {
                WaitOutcome::Complete
            } else {
                WaitOutcome::Incomplete
            }
        } else if n + 1 >= STAGE_POLL_LIMIT {
            WaitOutcome::TimedOut
        } else {
            WaitOutcome::Pending
        }
    }
}

/// The wait for a composite run, up to a target gate.
#[derive(Debug, Clone, Copy, PartialEq, Eq, Structural)]
pub struct BulkWait {
    /// Polls made so far.
    pub polls: u32,
    pub target: Gate,
}

/// The outcome of the poll numbered `polls` (counting from zero) of a bulk
/// wait.
pub open spec fn bulk_outcome(polls: u32, target: Gate, gates: Gates) -> WaitOutcome {
    if polls >= BULK_POLL_LIMIT {
        WaitOutcome::TimedOut
    } else if passed_through(gates, target) {
        WaitOutcome::Complete
    } else if polls + 1 >= BULK_POLL_LIMIT {
        WaitOutcome::TimedOut
    } else {
        WaitOutcome::Pending
    }
}

impl BulkWait {
    pub fn new(target: Gate) -> (r: BulkWait)
        ensures
            r.polls == 0,
            r.target == target,
    {
        BulkWait { polls: 0, target }
    }

    /// Takes one poll of the state document.
    pub fn observe(&mut self, gates: &Gates) -> (r: WaitOutcome)
        ensures
            r == bulk_outcome(old(self).polls, old(self).target, *gates),
            final(self).target == old(self).target,
            final(self).polls == (if old(self).polls >= BULK_POLL_LIMIT {
                old(self).polls
            } else {
                (old(self).polls + 1) as u32
            }),
    {
        if self.polls >= BULK_POLL_LIMIT {
            return WaitOutcome::TimedOut;
        }
        let n = self.polls;
        self.polls = n + 1;
        if all_passed_through(gates, self.target) {
            WaitOutcome::Complete
        } else if n + 1 >= BULK_POLL_LIMIT {
            WaitOutcome::TimedOut
        } else {
            WaitOutcome::Pending
        }
    }
}

} // verus!

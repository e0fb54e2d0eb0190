//! The per-work-item state document: gate statuses, commands, workspace
//! pointers and ownership.
use vstd::prelude::*;
use crate::clock::now_rfc3339;
use crate::gate::{Gate, GateStatus, Role, GATE_COUNT, gate_at, gate_of, gate_pos, gate_text, gate_named};

verus! {

/// Overall status of a work item.
#[derive(Debug, Clone, Copy, PartialEq, Eq, Structural)]
pub enum WorkStatus {
    InProgress,
    Blocked,
    Done,
}

pub open spec fn work_status_text(s: WorkStatus) -> Seq<char> {
    match s {
        WorkStatus::InProgress => "in_progress"@,
        WorkStatus::Blocked => "blocked"@,
        WorkStatus::Done => "done"@,
    }
}

impl WorkStatus {
    /// The status as it is written in the state document.
    pub fn as_str(&self) -> (r: &'static str)
        ensures
            r@ == work_status_text(*self),
    {
        match self {
            WorkStatus::InProgress => "in_progress",
            WorkStatus::Blocked => "blocked",
            WorkStatus::Done => "done",
        }
    }

    pub fn to_string(&self) -> (r: String)
        ensures
            r@ == work_status_text(*self),
    {
        String::from_str(self.as_str())
    }
}

/// The status of every gate. The field `impl_` holds the status of `impl`.
#[derive(Debug, Clone, Copy, PartialEq, Eq, Structural)]
pub struct Gates {
    pub prd: GateStatus,
    pub plan: GateStatus,
    pub env: GateStatus,
    pub tests: GateStatus,
    pub impl_: GateStatus,
    pub review_security: GateStatus,
    pub qa: GateStatus,
    pub git: GateStatus,
}

/// Every gate passed.
pub open spec fn all_pass(gates: Gates) -> bool {
    forall|g: Gate| #[trigger] gates.status(g) == GateStatus::Pass
}

/// `g` is the first gate in pipeline order that has not passed.
pub open spec fn is_first_pending(gates: Gates, g: Gate) -> bool {
    &&& gates.status(g) != GateStatus::Pass
    &&& forall|h: Gate| gate_pos(h) < gate_pos(g) ==> #[trigger] gates.status(h) == GateStatus::Pass
}

/// The first gate in pipeline order that has not passed, or `None` when
/// every gate passed.
pub open spec fn selects(gates: Gates, r: Option<Gate>) -> bool {
    match r {
        Some(g) => is_first_pending(gates, g),
        None => all_pass(gates),
    }
}

/// The first gate at or after position `i` that has not passed.
pub open spec fn pending_from(gates: Gates, i: nat) -> Option<Gate>
    decreases GATE_COUNT - i,
{
    if i >= GATE_COUNT {
        None
    } else if gates.status(gate_at(i as int)) != GateStatus::Pass {
        Some(gate_at(i as int))
    } else {
        pending_from(gates, i + 1)
    }
}

/// The first gate in pipeline order that has not passed.
pub open spec fn first_pending_gate(gates: Gates) -> Option<Gate> {
    pending_from(gates, 0)
}

pub proof fn lemma_gate_at_pos(g: Gate)
    ensures
        gate_at(gate_pos(g) as int) == g,
{
}

impl Gates {
    pub open spec fn status(self, g: Gate) -> GateStatus {
        match g {
            Gate::Prd => self.prd,
            Gate::Plan => self.plan,
            Gate::Env => self.env,
            Gate::Tests => self.tests,
            Gate::Impl => self.impl_,
            Gate::ReviewSecurity => self.review_security,
            Gate::Qa => self.qa,
            Gate::Git => self.git,
        }
    }

    /// The status of one gate.
    pub fn status_of(&self, g: Gate) -> (r: GateStatus)
        ensures
            r == self.status(g),
    {
        match g {
            Gate::Prd => self.prd,
            Gate::Plan => self.plan,
            Gate::Env => self.env,
            Gate::Tests => self.tests,
            Gate::Impl => self.impl_,
            Gate::ReviewSecurity => self.review_security,
            Gate::Qa => self.qa,
            Gate::Git => self.git,
        }
    }

    /// Sets the status of one gate and leaves the others as they were.
    pub fn set_status(&mut self, g: Gate, status: GateStatus)
        ensures
            final(self).status(g) == status,
            forall|h: Gate| h != g ==> #[trigger] final(self).status(h) == old(self).status(h),
    {
        match g {
            Gate::Prd => self.prd = status,
            Gate::Plan => self.plan = status,
            Gate::Env => self.env = status,
            Gate::Tests => self.tests = status,
            Gate::Impl => self.impl_ = status,
            Gate::ReviewSecurity => self.review_security = status,
            Gate::Qa => self.qa = status,
            Gate::Git => self.git = status,
        }
    }

    /// The status of the named gate; `None` for a name outside the table.
    pub fn get(&self, gate: &str) -> (r: Option<&GateStatus>)
        ensures
            r is Some <==> gate_named(gate@) is Some,
            r is Some ==> *r.unwrap() == self.status(gate_named(gate@).unwrap()),
    {
        match Gate::parse(gate) {
            Some(Gate::Prd) => Some(&self.prd),
            Some(Gate::Plan) => Some(&self.plan),
            Some(Gate::Env) => Some(&self.env),
            Some(Gate::Tests) => Some(&self.tests),
            Some(Gate::Impl) => Some(&self.impl_),
            Some(Gate::ReviewSecurity) => Some(&self.review_security),
            Some(Gate::Qa) => Some(&self.qa),
            Some(Gate::Git) => Some(&self.git),
            None => None,
        }
    }

    /// Sets the status of the named gate. Returns false, and changes
    /// nothing, for a name outside the table.
    pub fn set(&mut self, gate: &str, status: GateStatus) -> (r: bool)
        ensures
            r == gate_named(gate@) is Some,
            forall|h: Gate| #[trigger] final(self).status(h) == (if gate_named(gate@) == Some(h) {
                status
            } else {
                old(self).status(h)
            }),
    {
        match Gate::parse(gate) {
            Some(g) => {
                self.set_status(g, status);
                true
            },
            None => false,
        }
    }

    /// The first gate in pipeline order that has not passed; `None` when
    /// every gate passed.
    pub fn first_pending(&self) -> (r: Option<Gate>)
        ensures
            selects(*self, r),
            r == first_pending_gate(*self),
    {
        let mut i: usize = 0;
        while i < GATE_COUNT
            invariant
                i <= GATE_COUNT,
                pending_from(*self, i as nat) == first_pending_gate(*self),
                forall|j: int| 0 <= j < i ==> #[trigger] self.status(gate_at(j)) == GateStatus::Pass,
            decreases GATE_COUNT - i,
        {
            let g = Gate::at(i);
            if self.status_of(g) != GateStatus::Pass {
                assert forall|h: Gate| gate_pos(h) < gate_pos(g) implies #[trigger] self.status(h)
                    == GateStatus::Pass by {
                    lemma_gate_at_pos(h);
                    assert(self.status(gate_at(gate_pos(h) as int)) == GateStatus::Pass);
                }
                return Some(g);
            }
            i = i + 1;
        }
        assert forall|h: Gate| #[trigger] self.status(h) == GateStatus::Pass by {
            lemma_gate_at_pos(h);
            assert(self.status(gate_at(gate_pos(h) as int)) == GateStatus::Pass);
        }
        None
    }
}

impl Default for Gates {
    /// Every gate `todo`.
    fn default() -> (r: Gates)
        ensures
            forall|g: Gate| #[trigger] r.status(g) == GateStatus::Todo,
    {
        Gates {
            prd: GateStatus::Todo,
            plan: GateStatus::Todo,
            env: GateStatus::Todo,
            tests: GateStatus::Todo,
            impl_: GateStatus::Todo,
            review_security: GateStatus::Todo,
            qa: GateStatus::Todo,
            git: GateStatus::Todo,
        }
    }
}

/// Verification and security shell commands, bound when the work item is
/// created.
#[derive(Debug, Clone)]
pub struct Commands {
    pub verify: String,
    pub security: String,
    pub qa_smoke: String,
}

impl Default for Commands {
    /// All three commands empty.
    fn default() -> (r: Commands)
        ensures
            r.verify@.len() == 0,
            r.security@.len() == 0,
            r.qa_smoke@.len() == 0,
    {
        Commands { verify: String::new(), security: String::new(), qa_smoke: String::new() }
    }
}

/// Optional pointers to an isolated working copy, a detached session and a
/// container; an empty string means unset.
#[derive(Debug, Clone)]
pub struct Workspace {
    pub worktree: String,
    pub tmux_session: String,
    pub container: String,
}

impl Default for Workspace {
    /// All three pointers unset.
    fn default() -> (r: Workspace)
        ensures
            r.worktree@.len() == 0,
            r.tmux_session@.len() == 0,
            r.container@.len() == 0,
    {
        Workspace { worktree: String::new(), tmux_session: String::new(), container: String::new() }
    }
}

/// The state document of one work item.
#[derive(Debug, Clone)]
pub struct WorkState {
    pub id: String,
    pub title: String,
    pub repo: String,
    pub branch: String,
    pub status: WorkStatus,
    pub owner: Role,
    pub updated_at: String,
    pub gates: Gates,
    pub commands: Commands,
    pub workspace: Workspace,
    pub notes: Vec<String>,
}

/// The branch of a work item.
pub open spec fn branch_for(id: Seq<char>) -> Seq<char> {
    "pfm/"@ + id
}

impl WorkState {
    /// The item is `done` only when every gate passed.
    pub open spec fn wf(&self) -> bool {
        self.status == WorkStatus::Done ==> all_pass(self.gates)
    }

    /// A fresh work item: in progress, owned by the prd role, every gate
    /// `todo`, branch `pfm/<id>`, stamped with the current time.
    pub fn new(id: &str, title: &str, repo: &str, commands: Commands) -> (r: WorkState)
        ensures
            r.id@ == id@,
            r.title@ == title@,
            r.repo@ == repo@,
            r.branch@ == branch_for(id@),
            r.status == WorkStatus::InProgress,
            r.owner == Role::Prd,
            forall|g: Gate| #[trigger] r.gates.status(g) == GateStatus::Todo,
            r.commands == commands,
            r.workspace.worktree@.len() == 0,
            r.workspace.tmux_session@.len() == 0,
            r.workspace.container@.len() == 0,
            r.notes@.len() == 0,
            r.wf(),
    {
        let mut branch = String::from_str("pfm/");
        branch.append(id);
        WorkState {
            id: String::from_str(id),
            title: String::from_str(title),
            repo: String::from_str(repo),
            branch,
            status: WorkStatus::InProgress,
            owner: Role::Prd,
            updated_at: now_rfc3339(),
            gates: Gates::default(),
            commands,
            workspace: Workspace::default(),
            notes: Vec::new(),
        }
    }

    /// Stamps the document with the current time; nothing else changes.
    pub fn touch(&mut self)
        ensures
            final(self).id == old(self).id,
            final(self).title == old(self).title,
            final(self).repo == old(self).repo,
            final(self).branch == old(self).branch,
            final(self).status == old(self).status,
            final(self).owner == old(self).owner,
            final(self).gates == old(self).gates,
            final(self).commands == old(self).commands,
            final(self).workspace == old(self).workspace,
            final(self).notes == old(self).notes,
            old(self).wf() ==> final(self).wf(),
    {
        self.updated_at = now_rfc3339();
    }

    /// Records that `role` starts its stage: its gate becomes
    /// `in_progress`, it becomes the owner, and the document is stamped.
    pub fn begin_stage(&mut self, role: Role)
        ensures
            final(self).gates.status(gate_of(role)) == GateStatus::InProgress,
            forall|h: Gate| h != gate_of(role) ==> #[trigger] final(self).gates.status(h)
                == old(self).gates.status(h),
            final(self).owner == role,
            final(self).id == old(self).id,
            final(self).title == old(self).title,
            final(self).repo == old(self).repo,
            final(self).branch == old(self).branch,
            final(self).status == old(self).status,
            final(self).commands == old(self).commands,
            final(self).workspace == old(self).workspace,
            final(self).notes == old(self).notes,
            old(self).status != WorkStatus::Done ==> final(self).wf(),
    {
        self.gates.set_status(role.gate(), GateStatus::InProgress);
        self.owner = role;
        self.touch();
    }

    /// Name of the first gate in pipeline order that has not passed.
    pub fn next_pending_gate(&self) -> (r: Option<&'static str>)
        ensures
            r is Some <==> !all_pass(self.gates),
            r is Some ==> exists|g: Gate| is_first_pending(self.gates, g) && r.unwrap()@ == gate_text(g),
    {
        match self.gates.first_pending() {
            Some(g) => Some(g.name()),
            None => None,
        }
    }
}

} // verus!

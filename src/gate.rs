//! Table of gates: the eight pipeline stages in their fixed order, their
//! statuses, and the one-to-one mapping between stages and owning roles.
use vstd::prelude::*;
use crate::text::same_text;

verus! {

/// Status of one gate.
#[derive(Debug, Clone, Copy, PartialEq, Eq, Structural)]
pub enum GateStatus {
    Todo,
    InProgress,
    Pass,
    Fail,
    ChangesRequested,
}

/// The eight stages of the pipeline, in pipeline order.
#[derive(Debug, Clone, Copy, PartialEq, Eq, Structural)]
pub enum Gate {
    Prd,
    Plan,
    Env,
    Tests,
    Impl,
    ReviewSecurity,
    Qa,
    Git,
}

/// The agent identities; each owns exactly one gate.
#[derive(Debug, Clone, Copy, PartialEq, Eq, Structural)]
pub enum Role {
    Prd,
    Orchestrator,
    Env,
    Test,
    Implementation,
    ReviewSecurity,
    Qa,
    Git,
}

/// Number of gates in the pipeline.
pub const GATE_COUNT: usize = 8;

pub open spec fn status_is_terminal(s: GateStatus) -> bool {
    s == GateStatus::Pass || s == GateStatus::Fail || s == GateStatus::ChangesRequested
}

pub open spec fn status_text(s: GateStatus) -> Seq<char> {
    match s {
        GateStatus::Todo => "todo"@,
        GateStatus::InProgress => "in_progress"@,
        GateStatus::Pass => "pass"@,
        GateStatus::Fail => "fail"@,
        GateStatus::ChangesRequested => "changes_requested"@,
    }
}

impl GateStatus {
    /// `pass`, `fail` and `changes_requested` end a stage; `todo` and
    /// `in_progress` do not.
    pub fn is_terminal(&self) -> (r: bool)
        ensures
            r == status_is_terminal(*self),
    {
        match self {
            GateStatus::Pass | GateStatus::Fail | GateStatus::ChangesRequested => true,
            _ => false,
        }
    }

    /// The status as it is written in the state document.
    pub fn as_str(&self) -> (r: &'static str)
        ensures
            r@ == status_text(*self),
    {
        match self {
            GateStatus::Todo => "todo",
            GateStatus::InProgress => "in_progress",
            GateStatus::Pass => "pass",
            GateStatus::Fail => "fail",
            GateStatus::ChangesRequested => "changes_requested",
        }
    }

    pub fn to_string(&self) -> (r: String)
        ensures
            r@ == status_text(*self),
    {
        String::from_str(self.as_str())
    }
}

/// Position of a gate in the pipeline order.
pub open spec fn gate_pos(g: Gate) -> nat {
    match g {
        Gate::Prd => 0,
        Gate::Plan => 1,
        Gate::Env => 2,
        Gate::Tests => 3,
        Gate::Impl => 4,
        Gate::ReviewSecurity => 5,
        Gate::Qa => 6,
        Gate::Git => 7,
    }
}

/// Which gate stands at a position of the pipeline order (positions `0..8`).
pub open spec fn gate_at(i: int) -> Gate {
    if i <= 0 {
        Gate::Prd
    } else if i == 1 {
        Gate::Plan
    } else if i == 2 {
        Gate::Env
    } else if i == 3 {
        Gate::Tests
    } else if i == 4 {
        Gate::Impl
    } else if i == 5 {
        Gate::ReviewSecurity
    } else if i == 6 {
        Gate::Qa
    } else {
        Gate::Git
    }
}

/// The name of a gate, as it appears in the state document.
pub open spec fn gate_text(g: Gate) -> Seq<char> {
    match g {
        Gate::Prd => "prd"@,
        Gate::Plan => "plan"@,
        Gate::Env => "env"@,
        Gate::Tests => "tests"@,
        Gate::Impl => "impl"@,
        Gate::ReviewSecurity => "review_security"@,
        Gate::Qa => "qa"@,
        Gate::Git => "git"@,
    }
}

/// Which gate has the given name, if any.
pub open spec fn gate_named(s: Seq<char>) -> Option<Gate> {
    if s == "prd"@ {
        Some(Gate::Prd)
    } else if s == "plan"@ {
        Some(Gate::Plan)
    } else if s == "env"@ {
        Some(Gate::Env)
    } else if s == "tests"@ {
        Some(Gate::Tests)
    } else if s == "impl"@ {
        Some(Gate::Impl)
    } else if s == "review_security"@ {
        Some(Gate::ReviewSecurity)
    } else if s == "qa"@ {
        Some(Gate::Qa)
    } else if s == "git"@ {
        Some(Gate::Git)
    } else {
        None
    }
}

/// The role that owns a gate.
pub open spec fn role_of(g: Gate) -> Role {
    match g {
        Gate::Prd => Role::Prd,
        Gate::Plan => Role::Orchestrator,
        Gate::Env => Role::Env,
        Gate::Tests => Role::Test,
        Gate::Impl => Role::Implementation,
        Gate::ReviewSecurity => Role::ReviewSecurity,
        Gate::Qa => Role::Qa,
        Gate::Git => Role::Git,
    }
}

/// Which gate a role owns.
pub open spec fn gate_of(r: Role) -> Gate {
    match r {
        Role::Prd => Gate::Prd,
        Role::Orchestrator => Gate::Plan,
        Role::Env => Gate::Env,
        Role::Test => Gate::Tests,
        Role::Implementation => Gate::Impl,
        Role::ReviewSecurity => Gate::ReviewSecurity,
        Role::Qa => Gate::Qa,
        Role::Git => Gate::Git,
    }
}

/// The name of a role.
pub open spec fn role_text(r: Role) -> Seq<char> {
    match r {
        Role::Prd => "prd"@,
        Role::Orchestrator => "orchestrator"@,
        Role::Env => "env"@,
        Role::Test => "test"@,
        Role::Implementation => "implementation"@,
        Role::ReviewSecurity => "review_security"@,
        Role::Qa => "qa"@,
        Role::Git => "git"@,
    }
}

/// The role with the given name, if any.
pub open spec fn role_named(s: Seq<char>) -> Option<Role> {
    if s == "prd"@ {
        Some(Role::Prd)
    } else if s == "orchestrator"@ {
        Some(Role::Orchestrator)
    } else if s == "env"@ {
        Some(Role::Env)
    } else if s == "test"@ {
        Some(Role::Test)
    } else if s == "implementation"@ {
        Some(Role::Implementation)
    } else if s == "review_security"@ {
        Some(Role::ReviewSecurity)
    } else if s == "qa"@ {
        Some(Role::Qa)
    } else if s == "git"@ {
        Some(Role::Git)
    } else {
        None
    }
}

/// The names of the gates are pairwise distinct, so each names one gate.
pub proof fn lemma_gate_text_named(g: Gate)
    ensures
        gate_named(gate_text(g)) == Some(g),
{
    reveal_strlit("prd");
    assert("prd"@.len() == 3 && "prd"@[0] == 'p');
    reveal_strlit("plan");
    assert("plan"@.len() == 4 && "plan"@[0] == 'p');
    reveal_strlit("env");
    assert("env"@.len() == 3 && "env"@[0] == 'e');
    reveal_strlit("tests");
    assert("tests"@.len() == 5 && "tests"@[0] == 't');
    reveal_strlit("impl");
    assert("impl"@.len() == 4 && "impl"@[0] == 'i');
    reveal_strlit("review_security");
    assert("review_security"@.len() == 15 && "review_security"@[0] == 'r');
    reveal_strlit("qa");
    assert("qa"@.len() == 2 && "qa"@[0] == 'q');
    reveal_strlit("git");
    assert("git"@.len() == 3 && "git"@[0] == 'g');
}

/// The names of the roles are pairwise distinct, so each names one role.
pub proof fn lemma_role_text_named(r: Role)
    ensures
        role_named(role_text(r)) == Some(r),
{
    reveal_strlit("prd");
    assert("prd"@.len() == 3 && "prd"@[0] == 'p');
    reveal_strlit("orchestrator");
    assert("orchestrator"@.len() == 12 && "orchestrator"@[0] == 'o');
    reveal_strlit("env");
    assert("env"@.len() == 3 && "env"@[0] == 'e');
    reveal_strlit("test");
    assert("test"@.len() == 4 && "test"@[0] == 't');
    reveal_strlit("implementation");
    assert("implementation"@.len() == 14 && "implementation"@[0] == 'i');
    reveal_strlit("review_security");
    assert("review_security"@.len() == 15 && "review_security"@[0] == 'r');
    reveal_strlit("qa");
    assert("qa"@.len() == 2 && "qa"@[0] == 'q');
    reveal_strlit("git");
    assert("git"@.len() == 3 && "git"@[0] == 'g');
}

impl Gate {
    /// The name of this gate in the state document.
    pub fn name(self) -> (r: &'static str)
        ensures
            r@ == gate_text(self),
    {
        match self {
            Gate::Prd => "prd",
            Gate::Plan => "plan",
            Gate::Env => "env",
            Gate::Tests => "tests",
            Gate::Impl => "impl",
            Gate::ReviewSecurity => "review_security",
            Gate::Qa => "qa",
            Gate::Git => "git",
        }
    }

    /// Which gate has the given name; `None` for a name outside the table.
    pub fn parse(s: &str) -> (r: Option<Gate>)
        ensures
            r == gate_named(s@),
    {
        if same_text(s, "prd") {
            Some(Gate::Prd)
        } else if same_text(s, "plan") {
            Some(Gate::Plan)
        } else if same_text(s, "env") {
            Some(Gate::Env)
        } else if same_text(s, "tests") {
            Some(Gate::Tests)
        } else if same_text(s, "impl") {
            Some(Gate::Impl)
        } else if same_text(s, "review_security") {
            Some(Gate::ReviewSecurity)
        } else if same_text(s, "qa") {
            Some(Gate::Qa)
        } else if same_text(s, "git") {
            Some(Gate::Git)
        } else {
            None
        }
    }

    /// Position of this gate in the pipeline order.
    pub fn position(self) -> (r: usize)
        ensures
            r == gate_pos(self),
            r < GATE_COUNT,
    {
        match self {
            Gate::Prd => 0,
            Gate::Plan => 1,
            Gate::Env => 2,
            Gate::Tests => 3,
            Gate::Impl => 4,
            Gate::ReviewSecurity => 5,
            Gate::Qa => 6,
            Gate::Git => 7,
        }
    }

    /// Which gate stands at a position of the pipeline order.
    pub fn at(i: usize) -> (r: Gate)
        requires
            i < GATE_COUNT,
        ensures
            r == gate_at(i as int),
            gate_pos(r) == i,
    {
        if i == 0 {
            Gate::Prd
        } else if i == 1 {
            Gate::Plan
        } else if i == 2 {
            Gate::Env
        } else if i == 3 {
            Gate::Tests
        } else if i == 4 {
            Gate::Impl
        } else if i == 5 {
            Gate::ReviewSecurity
        } else if i == 6 {
            Gate::Qa
        } else {
            Gate::Git
        }
    }

    /// The role that owns this gate.
    pub fn role(self) -> (r: Role)
        ensures
            r == role_of(self),
    {
        match self {
            Gate::Prd => Role::Prd,
            Gate::Plan => Role::Orchestrator,
            Gate::Env => Role::Env,
            Gate::Tests => Role::Test,
            Gate::Impl => Role::Implementation,
            Gate::ReviewSecurity => Role::ReviewSecurity,
            Gate::Qa => Role::Qa,
            Gate::Git => Role::Git,
        }
    }
}

impl Role {
    /// The name of this role.
    pub fn as_str(&self) -> (r: &'static str)
        ensures
            r@ == role_text(*self),
    {
        match self {
            Role::Prd => "prd",
            Role::Orchestrator => "orchestrator",
            Role::Env => "env",
            Role::Test => "test",
            Role::Implementation => "implementation",
            Role::ReviewSecurity => "review_security",
            Role::Qa => "qa",
            Role::Git => "git",
        }
    }

    pub fn to_string(&self) -> (r: String)
        ensures
            r@ == role_text(*self),
    {
        String::from_str(self.as_str())
    }

    /// Which gate this role owns.
    pub fn gate(&self) -> (r: Gate)
        ensures
            r == gate_of(*self),
    {
        match self {
            Role::Prd => Gate::Prd,
            Role::Orchestrator => Gate::Plan,
            Role::Env => Gate::Env,
            Role::Test => Gate::Tests,
            Role::Implementation => Gate::Impl,
            Role::ReviewSecurity => Gate::ReviewSecurity,
            Role::Qa => Gate::Qa,
            Role::Git => Gate::Git,
        }
    }

    /// The role with the given name, or an error that names the input.
    pub fn parse(s: &str) -> (r: Result<Role, String>)
        ensures
            role_named(s@) is Some ==> r == Ok::<Role, String>(role_named(s@).unwrap()),
            role_named(s@) is None ==> r is Err && r->Err_0@ == "unknown role: "@ + s@,
    {
        if same_text(s, "prd") {
            Ok(Role::Prd)
        } else if same_text(s, "orchestrator") {
            Ok(Role::Orchestrator)
        } else if same_text(s, "env") {
            Ok(Role::Env)
        } else if same_text(s, "test") {
            Ok(Role::Test)
        } else if same_text(s, "implementation") {
            Ok(Role::Implementation)
        } else if same_text(s, "review_security") {
            Ok(Role::ReviewSecurity)
        } else if same_text(s, "qa") {
            Ok(Role::Qa)
        } else if same_text(s, "git") {
            Ok(Role::Git)
        } else {
            let mut m = String::from_str("unknown role: ");
            m.append(s);
            Err(m)
        }
    }
}

impl std::str::FromStr for Role {
    type Err = String;

    fn from_str(s: &str) -> Result<Role, String> {
        Role::parse(s)
    }
}

/// The role that owns the named gate; `None` for a name outside the table.
pub fn gate_to_role(gate: &str) -> (r: Option<Role>)
    ensures
        r == (match gate_named(gate@) {
            Some(g) => Some(role_of(g)),
            None => None,
        }),
{
    match Gate::parse(gate) {
        Some(g) => Some(g.role()),
        None => None,
    }
}

/// Name of what a role owns.
pub fn role_to_gate(role: &Role) -> (r: &'static str)
    ensures
        r@ == gate_text(gate_of(*role)),
{
    role.gate().name()
}

/// Index of a name in the pipeline order: its gate's position, or
/// `usize::MAX` for a name outside the table.
pub open spec fn index_of_name(s: Seq<char>) -> int {
    match gate_named(s) {
        Some(g) => gate_pos(g) as int,
        None => usize::MAX as int,
    }
}

/// Position of the named gate in the pipeline order; a name outside the
/// table gets `usize::MAX`, which sorts after every gate.
pub fn gate_index(gate: &str) -> (r: usize)
    ensures
        r as int == index_of_name(gate@),
{
    match Gate::parse(gate) {
        Some(g) => g.position(),
        None => usize::MAX,
    }
}

/// The names of the gates in pipeline order.
pub fn gate_order() -> (r: Vec<&'static str>)
    ensures
        r@.len() == GATE_COUNT,
        forall|i: int| 0 <= i < GATE_COUNT ==> #[trigger] r@[i]@ == gate_text(gate_at(i)),
{
    let mut v: Vec<&'static str> = Vec::new();
    let mut i: usize = 0;
    while i < GATE_COUNT
        invariant
            i <= GATE_COUNT,
            v@.len() == i,
            forall|j: int| 0 <= j < i ==> #[trigger] v@[j]@ == gate_text(gate_at(j)),
        decreases GATE_COUNT - i,
    {
        v.push(Gate::at(i).name());
        i = i + 1;
    }
    v
}

} // verus!

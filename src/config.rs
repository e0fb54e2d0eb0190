//! Project configuration: the verify and security commands of each
//! technology stack, and how a work item's stack is chosen.
use vstd::prelude::*;
use crate::state::Commands;
use crate::text::{contains_text, same_text, seq_contains};

verus! {

/// The commands of one stack.
#[derive(Debug, Clone)]
pub struct StackConfig {
    pub verify: String,
    pub security: String,
}

/// The configuration entry of `name` among `entries`: the last one with
/// that name.
pub open spec fn find_entry(entries: Seq<(String, StackConfig)>, name: Seq<char>) -> Option<StackConfig>
    decreases entries.len(),
{
    if entries.len() == 0 {
        None
    } else if entries.last().0@ == name {
        Some(entries.last().1)
    } else {
        find_entry(entries.drop_last(), name)
    }
}

/// Replacing an entry by one of the same name changes what that name finds
/// and nothing else.
proof fn lemma_find_update(entries: Seq<(String, StackConfig)>, j: int, e: (String, StackConfig), k: Seq<char>)
    requires
        0 <= j < entries.len(),
        entries[j].0@ == e.0@,
        forall|a: int, b: int|
            0 <= a < entries.len() && 0 <= b < entries.len() && a != b ==> #[trigger] entries[a].0@
                != #[trigger] entries[b].0@,
    ensures
        find_entry(entries.update(j, e), k) == (if k == e.0@ {
            Some(e.1)
        } else {
            find_entry(entries, k)
        }),
    decreases entries.len(),
{
    let u = entries.update(j, e);
    if j == entries.len() - 1 {
        assert(u.drop_last() =~= entries.drop_last());
    } else {
        assert(u.drop_last() =~= entries.drop_last().update(j, e));
        let d = entries.drop_last();
        assert forall|a: int, b: int|
            0 <= a < d.len() && 0 <= b < d.len() && a != b implies #[trigger] d[a].0@ != #[trigger] d[b].0@ by {
            assert(d[a] == entries[a] && d[b] == entries[b]);
        }
        lemma_find_update(d, j, e, k);
        assert(entries.last() == entries[entries.len() - 1]);
        assert(entries[j].0@ != entries[entries.len() - 1].0@);
    }
}

/// The stacks of a configuration, by name. Each name occurs once.
#[derive(Debug, Clone)]
pub struct StackTable {
    pub entries: Vec<(String, StackConfig)>,
}

impl StackTable {
    /// Names are unique.
    pub open spec fn wf(&self) -> bool {
        forall|a: int, b: int|
            0 <= a < self.entries@.len() && 0 <= b < self.entries@.len() && a != b
                ==> #[trigger] self.entries@[a].0@ != #[trigger] self.entries@[b].0@
    }

    /// The entry of a name.
    pub open spec fn lookup(&self, name: Seq<char>) -> Option<StackConfig> {
        find_entry(self.entries@, name)
    }

    pub fn new() -> (r: StackTable)
        ensures
            r.wf(),
            forall|k: Seq<char>| #[trigger] r.lookup(k) is None,
    {
        StackTable { entries: Vec::new() }
    }

    /// Position of the entry of `name`, if any.
    fn position_of(&self, name: &str) -> (r: Option<usize>)
        requires
            self.wf(),
        ensures
            r is None ==> forall|a: int| 0 <= a < self.entries@.len() ==> #[trigger] self.entries@[a].0@ != name@,
            r is Some ==> r.unwrap() < self.entries@.len() && self.entries@[r.unwrap() as int].0@ == name@,
    {
        let mut i: usize = 0;
        while i < self.entries.len()
            invariant
                i <= self.entries@.len(),
                forall|a: int| 0 <= a < i ==> #[trigger] self.entries@[a].0@ != name@,
            decreases self.entries.len() - i,
        {
            if same_text(self.entries[i].0.as_str(), name) {
                return Some(i);
            }
            i = i + 1;
        }
        None
    }

    /// Sets the entry of `name`, replacing any earlier one.
    pub fn insert(&mut self, name: String, config: StackConfig)
        requires
            old(self).wf(),
        ensures
            final(self).wf(),
            forall|k: Seq<char>| #[trigger] final(self).lookup(k) == (if k == name@ {
                Some(config)
            } else {
                old(self).lookup(k)
            }),
    {
        match self.position_of(name.as_str()) {
            Some(j) => {
                let ghost before = self.entries@;
                let ghost e = (name, config);
                self.entries.set(j, (name, config));
                assert(self.entries@ == before.update(j as int, e));
                assert forall|k: Seq<char>| #[trigger] find_entry(self.entries@, k) == (if k == e.0@ {
                    Some(e.1)
                } else {
                    find_entry(before, k)
                }) by {
                    lemma_find_update(before, j as int, e, k);
                }
            },
            None => {
                let ghost before = self.entries@;
                self.entries.push((name, config));
                assert(self.entries@.drop_last() =~= before);
            },
        }
    }

    /// The entry of `name`, if any.
    pub fn get(&self, name: &str) -> (r: Option<&StackConfig>)
        requires
            self.wf(),
        ensures
            r is Some <==> self.lookup(name@) is Some,
            r is Some ==> *r.unwrap() == self.lookup(name@).unwrap(),
    {
        match self.position_of(name) {
            Some(j) => {
                proof {
                    lemma_find_unique(self.entries@, j as int);
                }
                Some(&self.entries[j].1)
            },
            None => {
                proof {
                    lemma_find_absent(self.entries@, name@);
                }
                None
            },
        }
    }

    /// True when `name` has an entry.
    pub fn contains_key(&self, name: &str) -> (r: bool)
        requires
            self.wf(),
        ensures
            r == self.lookup(name@) is Some,
    {
        self.get(name).is_some()
    }

    /// Number of stacks.
    pub fn len(&self) -> (r: usize)
        ensures
            r == self.entries@.len(),
    {
        self.entries.len()
    }
}

proof fn lemma_find_unique(entries: Seq<(String, StackConfig)>, j: int)
    requires
        0 <= j < entries.len(),
        forall|a: int, b: int|
            0 <= a < entries.len() && 0 <= b < entries.len() && a != b ==> #[trigger] entries[a].0@
                != #[trigger] entries[b].0@,
    ensures
        find_entry(entries, entries[j].0@) == Some(entries[j].1),
    decreases entries.len(),
{
    if j != entries.len() - 1 {
        let d = entries.drop_last();
        assert(entries.last() == entries[entries.len() - 1]);
        assert(entries[j].0@ != entries[entries.len() - 1].0@);
        assert forall|a: int, b: int|
            0 <= a < d.len() && 0 <= b < d.len() && a != b implies #[trigger] d[a].0@ != #[trigger] d[b].0@ by {
            assert(d[a] == entries[a] && d[b] == entries[b]);
        }
        lemma_find_unique(d, j);
        assert(d[j] == entries[j]);
    }
}

proof fn lemma_find_absent(entries: Seq<(String, StackConfig)>, k: Seq<char>)
    requires
        forall|a: int| 0 <= a < entries.len() ==> #[trigger] entries[a].0@ != k,
    ensures
        find_entry(entries, k) is None,
    decreases entries.len(),
{
    if entries.len() > 0 {
        let d = entries.drop_last();
        assert(entries.last() == entries[entries.len() - 1]);
        assert forall|a: int| 0 <= a < d.len() implies #[trigger] d[a].0@ != k by {
            assert(d[a] == entries[a]);
        }
        lemma_find_absent(d, k);
    }
}

/// The project configuration.
#[derive(Debug, Clone)]
pub struct PfmConfig {
    /// The stack used when none is given or detected.
    pub default_stack: String,
    pub stacks: StackTable,
}

fn stack(verify: &str, security: &str) -> (r: StackConfig)
    ensures
        r.verify@ == verify@,
        r.security@ == security@,
{
    StackConfig { verify: String::from_str(verify), security: String::from_str(security) }
}

/// The verify command of a stack in the default configuration.
pub open spec fn default_verify(name: Seq<char>) -> Option<Seq<char>> {
    if name == "rails"@ || name == "cli_ruby"@ {
        Some("bundle exec rspec"@)
    } else if name == "react_native"@ || name == "cli_node"@ {
        Some("npm test"@)
    } else if name == "rust"@ {
        Some("cargo test"@)
    } else {
        None
    }
}

/// The security command of a stack in the default configuration.
pub open spec fn default_security(name: Seq<char>) -> Option<Seq<char>> {
    if name == "rails"@ || name == "cli_ruby"@ {
        Some("bundle exec brakeman -q"@)
    } else if name == "react_native"@ || name == "cli_node"@ {
        Some("npm audit"@)
    } else if name == "rust"@ {
        Some("cargo audit"@)
    } else {
        None
    }
}

impl Default for PfmConfig {
    /// Five stacks (`rails`, `react_native`, `cli_node`, `cli_ruby`,
    /// `rust`) with their commands, and `rails` as the default stack.
    fn default() -> (r: PfmConfig)
        ensures
            r.stacks.wf(),
            r.default_stack@ == "rails"@,
            forall|k: Seq<char>| #[trigger] r.stacks.lookup(k) is Some <==> default_verify(k) is Some,
            forall|k: Seq<char>|
                #[trigger] r.stacks.lookup(k) is Some ==> r.stacks.lookup(k).unwrap().verify@
                    == default_verify(k).unwrap() && r.stacks.lookup(k).unwrap().security@
                    == default_security(k).unwrap(),
    {
        let mut stacks = StackTable::new();
        stacks.insert(String::from_str("rails"), stack("bundle exec rspec", "bundle exec brakeman -q"));
        stacks.insert(String::from_str("react_native"), stack("npm test", "npm audit"));
        stacks.insert(String::from_str("cli_node"), stack("npm test", "npm audit"));
        stacks.insert(String::from_str("cli_ruby"), stack("bundle exec rspec", "bundle exec brakeman -q"));
        stacks.insert(String::from_str("rust"), stack("cargo test", "cargo audit"));
        proof {
            reveal_strlit("rails");
            reveal_strlit("react_native");
            reveal_strlit("cli_node");
            reveal_strlit("cli_ruby");
            reveal_strlit("rust");
            assert("rails"@.len() == 5 && "rails"@[1] == 'a');
            assert("react_native"@.len() == 12);
            assert("cli_node"@.len() == 8 && "cli_node"@[4] == 'n');
            assert("cli_ruby"@.len() == 8 && "cli_ruby"@[4] == 'r');
            assert("rust"@.len() == 4);
        }
        PfmConfig { default_stack: String::from_str("rails"), stacks }
    }
}

/// The stack of a new work item: the one given, else the one detected,
/// else the configured default.
pub open spec fn chosen_stack(given: Option<Seq<char>>, detected: Option<Seq<char>>, default: Seq<char>) -> Seq<char> {
    match given {
        Some(s) => s,
        None => match detected {
            Some(d) => d,
            None => default,
        },
    }
}

/// The commands bound to a new work item of the chosen stack, or an error
/// naming a stack that the configuration lacks.
pub fn commands_for(config: &PfmConfig, given: Option<&str>, detected: Option<&str>) -> (r: Result<
    Commands,
    String,
>)
    requires
        config.stacks.wf(),
    ensures
        ({
            let name = chosen_stack(
                match given {
                    Some(s) => Some(s@),
                    None => None,
                },
                match detected {
                    Some(s) => Some(s@),
                    None => None,
                },
                config.default_stack@,
            );
            &&& config.stacks.lookup(name) is None ==> r is Err && r->Err_0@ == "unknown stack: "@ + name
            &&& config.stacks.lookup(name) is Some ==> r is Ok && r->Ok_0.verify@ == config.stacks.lookup(
                name,
            ).unwrap().verify@ && r->Ok_0.security@ == config.stacks.lookup(name).unwrap().security@
                && r->Ok_0.qa_smoke@.len() == 0
        }),
{
    let name: &str = match given {
        Some(s) => s,
        None => match detected {
            Some(d) => d,
            None => config.default_stack.as_str(),
        },
    };
    match config.stacks.get(name) {
        Some(sc) => Ok(Commands { verify: sc.verify.clone(), security: sc.security.clone(), qa_smoke: String::new() }),
        None => {
            let mut m = String::from_str("unknown stack: ");
            m.append(name);
            Err(m)
        },
    }
}

/// What the project directory shows about its stack.
#[derive(Debug, Clone)]
pub struct StackMarkers {
    /// A `Gemfile` exists.
    pub gemfile: bool,
    /// `config/routes.rb`, `bin/rails` or `config/application.rb` exists.
    pub rails_files: bool,
    /// The text of `package.json`: `None` when there is none, empty when it
    /// could not be read.
    pub package_json: Option<String>,
}

/// The stack that the markers show, if any.
pub open spec fn detected_stack(m: StackMarkers) -> Option<Seq<char>> {
    if m.gemfile && m.rails_files {
        Some("rails"@)
    } else if m.package_json is Some {
        if seq_contains(m.package_json.unwrap()@, "react-native"@) {
            Some("react_native"@)
        } else {
            Some("cli_node"@)
        }
    } else if m.gemfile {
        Some("cli_ruby"@)
    } else {
        None
    }
}

/// Detects the stack from the project's marker files, in priority order:
/// a Rails app, a React Native app, a Node project, a Ruby project.
pub fn detect_stack(m: &StackMarkers) -> (r: Option<&'static str>)
    ensures
        r is Some <==> detected_stack(*m) is Some,
        r is Some ==> r.unwrap()@ == detected_stack(*m).unwrap(),
{
    if m.gemfile && m.rails_files {
        return Some("rails");
    }
    match &m.package_json {
        Some(content) => {
            if contains_text(content.as_str(), "react-native") {
                Some("react_native")
            } else {
                Some("cli_node")
            }
        },
        None => if m.gemfile {
            Some("cli_ruby")
        } else {
            None
        },
    }
}

} // verus!

//! Tools as the registry knows them: by name and description. The registry
//! keeps at most one tool per name, in registration order.

use vstd::prelude::*;
use vstd::string::*;
use crate::text::str_is;
use crate::types::HarnessError;

verus! {

/// What identifies a tool to the model.
pub trait Tool {
    /// Whether the tool is known to follow `tool_name` and
    /// `tool_description`. The tools of this crate do; a tool written outside
    /// verified code keeps this default, and nothing is claimed of what its
    /// methods return.
    closed spec fn obeys_tool_spec(&self) -> bool {
        false
    }

    /// The name that `name` returns, for a tool that obeys its spec.
    closed spec fn tool_name(&self) -> Seq<char> {
        arbitrary()
    }

    /// The description that `description` returns, for a tool that obeys
    /// its spec.
    closed spec fn tool_description(&self) -> Seq<char> {
        arbitrary()
    }

    fn name(&self) -> (r: &str)
        ensures
            self.obeys_tool_spec() ==> r@ == self.tool_name(),
    ;

    fn description(&self) -> (r: &str)
        ensures
            self.obeys_tool_spec() ==> r@ == self.tool_description(),
    ;
}

/// The first position at or after `k` of an entry named `name`.
pub open spec fn index_from<T: ?Sized>(entries: Seq<(Seq<char>, Box<T>)>, name: Seq<char>, k: int) -> Option<
    int,
>
    decreases entries.len() - k,
{
    if k < 0 || k >= entries.len() {
        None
    } else if entries[k].0 == name {
        Some(k)
    } else {
        index_from(entries, name, k + 1)
    }
}

/// The position of the entry named `name`.
pub open spec fn name_index<T: ?Sized>(entries: Seq<(Seq<char>, Box<T>)>, name: Seq<char>) -> Option<int> {
    index_from(entries, name, 0)
}

/// No two entries share a name.
pub open spec fn distinct_names<T: ?Sized>(entries: Seq<(Seq<char>, Box<T>)>) -> bool {
    forall|i: int, j: int|
        0 <= i < entries.len() && 0 <= j < entries.len() && i != j ==> #[trigger] entries[i].0
            != #[trigger] entries[j].0
}

/// The entries after registering `tool` under `name`: it takes the place of
/// the entry with that name, or is appended.
pub open spec fn registered<T: ?Sized>(entries: Seq<(Seq<char>, Box<T>)>, name: Seq<char>, tool: Box<T>) -> Seq<
    (Seq<char>, Box<T>),
> {
    match name_index(entries, name) {
        Some(i) => entries.update(i, (name, tool)),
        None => entries.push((name, tool)),
    }
}

/// The entries after removing the one named `name`, if any.
pub open spec fn unregistered<T: ?Sized>(entries: Seq<(Seq<char>, Box<T>)>, name: Seq<char>) -> Seq<
    (Seq<char>, Box<T>),
> {
    match name_index(entries, name) {
        Some(i) => entries.remove(i),
        None => entries,
    }
}

/// The error for a name that no registered tool carries.
pub open spec fn not_found_message(name: Seq<char>) -> Seq<char> {
    "Tool not found: "@ + name
}

/// The tools available to the agent, each kept with the name it gave when
/// it was registered.
pub struct ToolRegistry<T: ?Sized + Tool> {
    entries: Vec<(String, Box<T>)>,
}

impl<T: ?Sized + Tool> ToolRegistry<T> {
    /// The registered tools with their names, in registration order.
    pub closed spec fn entries(&self) -> Seq<(Seq<char>, Box<T>)> {
        self.entries@.map_values(|e: (String, Box<T>)| (e.0@, e.1))
    }

    pub fn new() -> (r: Self)
        ensures
            r.entries() == Seq::<(Seq<char>, Box<T>)>::empty(),
    {
        let r = ToolRegistry { entries: Vec::new() };
        assert(r.entries() =~= Seq::<(Seq<char>, Box<T>)>::empty());
        r
    }

    /// The position of the tool called `name`.
    pub fn position(&self, name: &str) -> (r: Option<usize>)
        ensures
            match r {
                Some(i) => name_index(self.entries(), name@) == Some(i as int),
                None => name_index(self.entries(), name@) is None,
            },
    {
        let mut i: usize = 0;
        while i < self.entries.len()
            invariant
                i <= self.entries@.len(),
                self.entries().len() == self.entries@.len(),
                name_index(self.entries(), name@) == index_from(self.entries(), name@, i as int),
            decreases self.entries@.len() - i,
        {
            assert(self.entries()[i as int].0 == self.entries@[i as int].0@);
            if str_is(self.entries[i].0.as_str(), name) {
                return Some(i);
            }
            i += 1;
        }
        None
    }

    /// Adds `tool` under the name it gives, replacing a tool of the same
    /// name. For a tool that obeys its spec, that name is its `tool_name`.
    pub fn register(&mut self, tool: Box<T>)
        ensures
            exists|n: Seq<char>|
                #![trigger registered(old(self).entries(), n, tool)]
                final(self).entries() == registered(old(self).entries(), n, tool) && (
                tool.obeys_tool_spec() ==> n == tool.tool_name()),
    {
        let name = String::from_str(tool.name());
        let ghost n = name@;
        let ghost before = self.entries@;
        match self.position(name.as_str()) {
            Some(i) => {
                proof {
                    lemma_index_some(self.entries(), n, 0);
                }
                self.entries.remove(i);
                self.entries.insert(i, (name, tool));
                assert(self.entries@ =~= before.update(i as int, (name, tool)));
                assert(self.entries() =~= registered(old(self).entries(), n, tool));
            },
            None => {
                self.entries.push((name, tool));
                assert(self.entries() =~= registered(old(self).entries(), n, tool));
            },
        }
    }

    /// Removes the tool called `name`; tells whether there was one.
    pub fn unregister(&mut self, name: &str) -> (removed: bool)
        ensures
            final(self).entries() == unregistered(old(self).entries(), name@),
            removed == (name_index(old(self).entries(), name@) is Some),
    {
        let ghost before = self.entries@;
        match self.position(name) {
            Some(i) => {
                proof {
                    lemma_index_some(self.entries(), name@, 0);
                }
                self.entries.remove(i);
                assert(self.entries() =~= unregistered(old(self).entries(), name@));
                true
            },
            None => false,
        }
    }

    /// The tool called `name`, or the error that no tool carries it.
    pub fn get(&self, name: &str) -> (r: Result<&Box<T>, HarnessError>)
        ensures
            match r {
                Ok(t) => name_index(self.entries(), name@) matches Some(i) && *t == self.entries()[i].1,
                Err(e) => name_index(self.entries(), name@) is None && (e matches HarnessError::Tool(
                    m,
                ) && m@ == not_found_message(name@)),
            },
    {
        match self.position(name) {
            Some(i) => {
                proof {
                    lemma_index_some(self.entries(), name@, 0);
                }
                Ok(&self.entries[i].1)
            },
            None => {
                let mut m = String::from_str("Tool not found: ");
                m.append(name);
                Err(HarnessError::Tool(m))
            },
        }
    }

    /// The names of the tools, in order.
    pub fn names(&self) -> (r: Vec<String>)
        ensures
            r@.map_values(|s: String| s@) == self.entries().map_values(
                |e: (Seq<char>, Box<T>)| e.0,
            ),
    {
        let mut r: Vec<String> = Vec::new();
        let mut i: usize = 0;
        while i < self.entries.len()
            invariant
                i <= self.entries@.len(),
                r@.len() == i,
                forall|j: int| 0 <= j < i ==> #[trigger] r@[j]@ == self.entries@[j].0@,
            decreases self.entries@.len() - i,
        {
            r.push(self.entries[i].0.clone());
            i += 1;
        }
        assert(r@.map_values(|s: String| s@) =~= self.entries().map_values(
            |e: (Seq<char>, Box<T>)| e.0,
        ));
        r
    }

    pub fn len(&self) -> (r: usize)
        ensures
            r == self.entries().len(),
    {
        self.entries.len()
    }

    /// The registered tools, in order.
    pub fn tools(&self) -> (r: Vec<&Box<T>>)
        ensures
            r@.len() == self.entries().len(),
            forall|i: int| 0 <= i < r@.len() ==> *#[trigger] r@[i] == self.entries()[i].1,
    {
        let mut r: Vec<&Box<T>> = Vec::new();
        let mut i: usize = 0;
        while i < self.entries.len()
            invariant
                i <= self.entries@.len(),
                r@.len() == i,
                forall|j: int| 0 <= j < i ==> *#[trigger] r@[j] == self.entries@[j].1,
            decreases self.entries@.len() - i,
        {
            r.push(&self.entries[i].1);
            i += 1;
        }
        r
    }
}

proof fn lemma_index_none<T: ?Sized>(entries: Seq<(Seq<char>, Box<T>)>, name: Seq<char>, k: int)
    requires
        0 <= k,
        index_from(entries, name, k) is None,
    ensures
        forall|j: int| k <= j < entries.len() ==> #[trigger] entries[j].0 != name,
    decreases entries.len() - k,
{
    if k < entries.len() {
        lemma_index_none(entries, name, k + 1);
    }
}

proof fn lemma_index_some<T: ?Sized>(entries: Seq<(Seq<char>, Box<T>)>, name: Seq<char>, k: int)
    requires
        0 <= k,
        index_from(entries, name, k) is Some,
    ensures
        k <= index_from(entries, name, k)->0 < entries.len(),
        entries[index_from(entries, name, k)->0].0 == name,
        forall|j: int| k <= j < index_from(entries, name, k)->0 ==> #[trigger] entries[j].0 != name,
    decreases entries.len() - k,
{
    if k < entries.len() && entries[k].0 != name {
        lemma_index_some(entries, name, k + 1);
    }
}

proof fn lemma_index_of_absent<T: ?Sized>(entries: Seq<(Seq<char>, Box<T>)>, name: Seq<char>, k: int)
    requires
        0 <= k,
        forall|j: int| k <= j < entries.len() ==> #[trigger] entries[j].0 != name,
    ensures
        index_from(entries, name, k) is None,
    decreases entries.len() - k,
{
    if k < entries.len() {
        lemma_index_of_absent(entries, name, k + 1);
    }
}

proof fn lemma_index_of_first<T: ?Sized>(entries: Seq<(Seq<char>, Box<T>)>, name: Seq<char>, k: int, i: int)
    requires
        0 <= k <= i < entries.len(),
        entries[i].0 == name,
        forall|j: int| k <= j < i ==> #[trigger] entries[j].0 != name,
    ensures
        index_from(entries, name, k) == Some(i),
    decreases i - k,
{
    if k < i {
        lemma_index_of_first(entries, name, k + 1, i);
    }
}

/// After registering a tool under a name, looking up that name finds that
/// very tool.
pub proof fn law_register_then_find<T: ?Sized>(entries: Seq<(Seq<char>, Box<T>)>, name: Seq<char>, tool: Box<T>)
    ensures
        name_index(registered(entries, name, tool), name) matches Some(i)
            && registered(entries, name, tool)[i] == (name, tool),
{
    let after = registered(entries, name, tool);
    match name_index(entries, name) {
        Some(i) => {
            lemma_index_some(entries, name, 0);
            assert forall|j: int| 0 <= j < i implies #[trigger] after[j].0 != name by {
                assert(after[j] == entries[j]);
            }
            lemma_index_of_first(after, name, 0, i);
        },
        None => {
            lemma_index_none(entries, name, 0);
            assert forall|j: int| 0 <= j < entries.len() implies #[trigger] after[j].0 != name by {
                assert(after[j] == entries[j]);
            }
            lemma_index_of_first(after, name, 0, entries.len() as int);
        },
    }
}

/// Registering keeps the names distinct.
pub proof fn law_register_keeps_names_distinct<T: ?Sized>(entries: Seq<(Seq<char>, Box<T>)>, name: Seq<char>, tool: Box<T>)
    requires
        distinct_names(entries),
    ensures
        distinct_names(registered(entries, name, tool)),
{
    let after = registered(entries, name, tool);
    match name_index(entries, name) {
        Some(i) => {
            lemma_index_some(entries, name, 0);
            assert forall|a: int, b: int|
                0 <= a < after.len() && 0 <= b < after.len() && a != b implies #[trigger] after[a].0
                != #[trigger] after[b].0 by {
                if a == i {
                    assert(entries[i].0 != entries[b].0);
                } else if b == i {
                    assert(entries[a].0 != entries[i].0);
                } else {
                    assert(entries[a].0 != entries[b].0);
                }
            }
        },
        None => {
            lemma_index_none(entries, name, 0);
            assert forall|a: int, b: int|
                0 <= a < after.len() && 0 <= b < after.len() && a != b implies #[trigger] after[a].0
                != #[trigger] after[b].0 by {
                if a == entries.len() {
                    assert(entries[b].0 != name);
                } else if b == entries.len() {
                    assert(entries[a].0 != name);
                } else {
                    assert(entries[a].0 != entries[b].0);
                }
            }
        },
    }
}

/// After unregistering a name from entries with distinct names, no entry
/// carries that name.
pub proof fn law_unregister_then_absent<T: ?Sized>(entries: Seq<(Seq<char>, Box<T>)>, name: Seq<char>)
    requires
        distinct_names(entries),
    ensures
        name_index(unregistered(entries, name), name) is None,
{
    let after = unregistered(entries, name);
    match name_index(entries, name) {
        Some(i) => {
            lemma_index_some(entries, name, 0);
            assert forall|j: int| 0 <= j < after.len() implies #[trigger] after[j].0 != name by {
                if j < i {
                    assert(after[j] == entries[j]);
                } else {
                    assert(after[j] == entries[j + 1]);
                    assert(entries[j + 1].0 != entries[i].0);
                }
            }
            lemma_index_of_absent(after, name, 0);
        },
        None => {},
    }
}

} // verus!

//! Plugins: tools that carry a version and dependencies, registered with a
//! loader before they join the tool registry.

use vstd::prelude::*;
use vstd::string::*;
use std::sync::Arc;
use crate::tools::Tool;
use crate::types::HarnessError;

verus! {

/// What a plugin is given when it starts.
pub struct PluginContext {
    pub workspace_dir: String,
}

/// A tool that comes as a plugin.
pub trait Plugin: Tool {
    fn version(&self) -> &str;

    fn dependencies(&self) -> Vec<&str>;

    fn init(&mut self, ctx: &PluginContext) -> Result<(), HarnessError>;
}

/// The plugins registered so far, in registration order, each kept with
/// the name it gave when it was registered.
pub struct PluginLoader<P: ?Sized + Plugin> {
    entries: Vec<(String, Arc<P>)>,
}

impl<P: ?Sized + Plugin> PluginLoader<P> {
    /// The names of the registered plugins, in registration order.
    pub closed spec fn names(&self) -> Seq<Seq<char>> {
        self.entries@.map_values(|e: (String, Arc<P>)| e.0@)
    }

    /// The registered plugins, in registration order.
    pub closed spec fn registered(&self) -> Seq<Arc<P>> {
        self.entries@.map_values(|e: (String, Arc<P>)| e.1)
    }

    pub fn new() -> (r: Self)
        ensures
            r.names() == Seq::<Seq<char>>::empty(),
            r.registered() == Seq::<Arc<P>>::empty(),
    {
        let r = PluginLoader { entries: Vec::new() };
        assert(r.names() =~= Seq::<Seq<char>>::empty());
        assert(r.registered() =~= Seq::<Arc<P>>::empty());
        r
    }

    /// Adds a plugin after those registered before, under the name it
    /// gives; for a plugin that obeys its spec, that name is its
    /// `tool_name`.
    pub fn register(&mut self, plugin: Arc<P>)
        ensures
            final(self).registered() == old(self).registered().push(plugin),
            exists|n: Seq<char>|
                #![trigger old(self).names().push(n)]
                final(self).names() == old(self).names().push(n) && (plugin.obeys_tool_spec() ==> n
                    == plugin.tool_name()),
    {
        let name = String::from_str(plugin.name());
        let ghost n = name@;
        self.entries.push((name, plugin));
        assert(self.names() =~= old(self).names().push(n));
        assert(self.registered() =~= old(self).registered().push(plugin));
    }

    /// The names of the plugins, in registration order.
    pub fn list(&self) -> (r: Vec<String>)
        ensures
            r@.map_values(|s: String| s@) == self.names(),
    {
        let mut r: Vec<String> = Vec::new();
        let mut i: usize = 0;
        while i < self.entries.len()
            invariant
                i <= self.entries@.len(),
                r@.len() == i,
                forall|j: int| 0 <= j < i ==> #[trigger] r@[j]@ == self.entries@[j].0@,
            decreases self.entries@.len() - i,
        {
            r.push(self.entries[i].0.clone());
            i += 1;
        }
        assert(r@.map_values(|s: String| s@) =~= self.names());
        r
    }

    /// The plugins, in registration order.
    pub fn plugins(&self) -> (r: Vec<&Arc<P>>)
        ensures
            r@.len() == self.registered().len(),
            forall|i: int| 0 <= i < r@.len() ==> *#[trigger] r@[i] == self.registered()[i],
    {
        let mut r: Vec<&Arc<P>> = Vec::new();
        let mut i: usize = 0;
        while i < self.entries.len()
            invariant
                i <= self.entries@.len(),
                r@.len() == i,
                forall|j: int| 0 <= j < i ==> *#[trigger] r@[j] == self.entries@[j].1,
            decreases self.entries@.len() - i,
        {
            r.push(&self.entries[i].1);
            i += 1;
        }
        r
    }
}

/// Registering a plugin lists its name last, after the names listed before,
/// which keep their order; the list grows by one whether or not the name was
/// listed already.
pub proof fn law_register_lists_name_last(names: Seq<Seq<char>>, name: Seq<char>)
    ensures
        names.push(name).len() == names.len() + 1,
        names.push(name).last() == name,
        names.push(name).take(names.len() as int) == names,
{
    assert(names.push(name).take(names.len() as int) =~= names);
}

} // verus!

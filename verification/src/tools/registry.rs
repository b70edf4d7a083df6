//! Registry of tools: definitions paired with the executors that run them.

use vstd::prelude::*;
use crate::tools::definition::ToolDefinition;
use crate::tensorzero::request::ToolDefinition as TzToolDefinition;

verus! {

/// Registry of tool executors, each registered with its definition. The executor
/// type is chosen by the caller.
pub struct ToolRegistry<E> {
    tools: Vec<(ToolDefinition, E)>,
}

impl<E> ToolRegistry<E> {
    /// The names of the registered tools, in registration order.
    pub closed spec fn spec_names(&self) -> Seq<Seq<char>> {
        self.tools@.map_values(|t: (ToolDefinition, E)| t.0.name@)
    }

    /// The registered entries, in registration order.
    pub closed spec fn spec_entries(&self) -> Seq<(ToolDefinition, E)> {
        self.tools@
    }

    /// Create a new empty registry.
    pub fn new() -> (r: Self)
        ensures
            r.spec_entries().len() == 0,
    {
        ToolRegistry { tools: Vec::new() }
    }

    /// Register an executor with its definition.
    pub fn register(&mut self, definition: ToolDefinition, executor: E)
        ensures
            final(self).spec_entries() == old(self).spec_entries().push((definition, executor)),
    {
        self.tools.push((definition, executor));
    }

    /// The position of the first tool with the given name.
    fn position(&self, name: &str) -> (r: Option<usize>)
        ensures
            match r {
                Some(i) => i < self.spec_entries().len() && self.spec_entries()[i as int].0.name@ == name@
                    && forall|j: int| 0 <= j < i ==> (#[trigger] self.spec_entries()[j]).0.name@ != name@,
                None => forall|j: int| 0 <= j < self.spec_entries().len()
                    ==> (#[trigger] self.spec_entries()[j]).0.name@ != name@,
            },
    {
        let mut i: usize = 0;
        while i < self.tools.len()
            invariant
                i <= self.tools@.len(),
                forall|j: int| 0 <= j < i ==> (#[trigger] self.tools@[j]).0.name@ != name@,
            decreases self.tools@.len() - i,
        {
            if crate::tensorzero::client::str_equals(self.tools[i].0.name.as_str(), name) {
                return Some(i);
            }
            i = i + 1;
        }
        None
    }

    /// The executor of the first tool with the given name.
    pub fn get(&self, name: &str) -> (r: Option<&E>)
        ensures
            match r {
                Some(e) => exists|i: int| 0 <= i < self.spec_entries().len()
                    && self.spec_entries()[i].0.name@ == name@ && *e == self.spec_entries()[i].1
                    && forall|j: int| 0 <= j < i ==> (#[trigger] self.spec_entries()[j]).0.name@ != name@,
                None => forall|j: int| 0 <= j < self.spec_entries().len()
                    ==> (#[trigger] self.spec_entries()[j]).0.name@ != name@,
            },
    {
        match self.position(name) {
            Some(i) => Some(&self.tools[i].1),
            None => None,
        }
    }

    /// Whether a tool with the given name is registered.
    pub fn has_tool(&self, name: &str) -> (r: bool)
        ensures
            r <==> exists|j: int| 0 <= j < self.spec_entries().len()
                && (#[trigger] self.spec_entries()[j]).0.name@ == name@,
    {
        self.position(name).is_some()
    }

    /// The number of registered tools.
    pub fn len(&self) -> (r: usize)
        ensures
            r == self.spec_entries().len(),
    {
        self.tools.len()
    }

    /// Whether the registry is empty.
    pub fn is_empty(&self) -> (r: bool)
        ensures
            r <==> self.spec_entries().len() == 0,
    {
        self.tools.len() == 0
    }

    /// All tool definitions, in registration order.
    pub fn definitions(&self) -> (r: Vec<&ToolDefinition>)
        ensures
            r@.len() == self.spec_entries().len(),
            forall|i: int| 0 <= i < r@.len() ==> *r@[i] == (#[trigger] self.spec_entries()[i]).0,
    {
        let mut r: Vec<&ToolDefinition> = Vec::new();
        let mut i: usize = 0;
        while i < self.tools.len()
            invariant
                i <= self.tools@.len(),
                r@.len() == i,
                forall|j: int| 0 <= j < i ==> *r@[j] == (#[trigger] self.tools@[j]).0,
            decreases self.tools@.len() - i,
        {
            r.push(&self.tools[i].0);
            i = i + 1;
        }
        r
    }

    /// All tool definitions in the gateway's format, in registration order.
    pub fn tensorzero_definitions(&self) -> (r: Vec<TzToolDefinition>)
        ensures
            r@.len() == self.spec_entries().len(),
            forall|i: int| 0 <= i < r@.len() ==> {
                &&& (#[trigger] r@[i]).name@ == self.spec_entries()[i].0.name@
                &&& r@[i].description@ == self.spec_entries()[i].0.description@
                &&& r@[i].parameters@ == self.spec_entries()[i].0.parameters@
            },
    {
        let mut r: Vec<TzToolDefinition> = Vec::new();
        let mut i: usize = 0;
        while i < self.tools.len()
            invariant
                i <= self.tools@.len(),
                r@.len() == i,
                forall|j: int| 0 <= j < i ==> {
                    &&& (#[trigger] r@[j]).name@ == self.tools@[j].0.name@
                    &&& r@[j].description@ == self.tools@[j].0.description@
                    &&& r@[j].parameters@ == self.tools@[j].0.parameters@
                },
            decreases self.tools@.len() - i,
        {
            r.push(self.tools[i].0.to_tensorzero());
            i = i + 1;
        }
        r
    }

    /// All tool names, in registration order.
    pub fn names(&self) -> (r: Vec<&String>)
        ensures
            r@.map_values(|s: &String| s@) == self.spec_names(),
    {
        let mut r: Vec<&String> = Vec::new();
        let mut i: usize = 0;
        while i < self.tools.len()
            invariant
                i <= self.tools@.len(),
                r@.map_values(|s: &String| s@) == self.tools@.take(i as int).map_values(|t: (ToolDefinition, E)| t.0.name@),
            decreases self.tools@.len() - i,
        {
            let ghost before = r@.map_values(|s: &String| s@);
            assert(self.tools@.take(i + 1) =~= self.tools@.take(i as int).push(self.tools@[i as int]));
            r.push(&self.tools[i].0.name);
            assert(r@.map_values(|s: &String| s@) =~= before.push(self.tools@[i as int].0.name@));
            assert(r@.map_values(|s: &String| s@) =~= self.tools@.take(i + 1).map_values(|t: (ToolDefinition, E)| t.0.name@));
            i = i + 1;
        }
        assert(self.tools@.take(i as int) =~= self.tools@);
        r
    }
}

impl<E: Clone> Clone for ToolRegistry<E> {
    fn clone(&self) -> (r: Self)
        ensures
            r.spec_names() == self.spec_names(),
    {
        let mut tools: Vec<(ToolDefinition, E)> = Vec::new();
        let mut i: usize = 0;
        while i < self.tools.len()
            invariant
                i <= self.tools@.len(),
                tools@.map_values(|t: (ToolDefinition, E)| t.0.name@)
                    == self.tools@.take(i as int).map_values(|t: (ToolDefinition, E)| t.0.name@),
            decreases self.tools@.len() - i,
        {
            let d = self.tools[i].0.clone();
            let e = self.tools[i].1.clone();
            let ghost before = tools@.map_values(|t: (ToolDefinition, E)| t.0.name@);
            assert(self.tools@.take(i + 1) =~= self.tools@.take(i as int).push(self.tools@[i as int]));
            tools.push((d, e));
            assert(tools@.map_values(|t: (ToolDefinition, E)| t.0.name@) =~= before.push(self.tools@[i as int].0.name@));
            assert(tools@.map_values(|t: (ToolDefinition, E)| t.0.name@)
                =~= self.tools@.take(i + 1).map_values(|t: (ToolDefinition, E)| t.0.name@));
            i = i + 1;
        }
        assert(self.tools@.take(i as int) =~= self.tools@);
        ToolRegistry { tools }
    }
}

} // verus!

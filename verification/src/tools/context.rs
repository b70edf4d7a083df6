//! Context provided to tools while they execute.

use vstd::prelude::*;
use std::sync::Arc;
use crate::models::thread::Thread;

verus! {

/// The value stored under `key`, if any: the first entry with that key.
pub open spec fn spec_lookup(entries: Seq<(Seq<char>, Seq<char>)>, key: Seq<char>) -> Option<Seq<char>>
    decreases entries.len(),
{
    if entries.len() == 0 {
        None
    } else if entries[0].0 == key {
        Some(entries[0].1)
    } else {
        spec_lookup(entries.drop_first(), key)
    }
}

/// The characters of each key/value entry.
pub open spec fn entries_view(v: Seq<(String, String)>) -> Seq<(Seq<char>, Seq<char>)> {
    v.map_values(|e: (String, String)| (e.0@, e.1@))
}

/// The index of the first entry with the given key.
fn find_entry(entries: &Vec<(String, String)>, key: &str) -> (r: Option<usize>)
    ensures
        match r {
            Some(i) => i < entries@.len() && entries@[i as int].0@ == key@
                && spec_lookup(entries_view(entries@), key@) == Some(entries@[i as int].1@)
                && forall|j: int| 0 <= j < i ==> (#[trigger] entries@[j]).0@ != key@,
            None => spec_lookup(entries_view(entries@), key@) is None,
        },
{
    let ghost ev = entries_view(entries@);
    let mut i: usize = 0;
    assert(ev.skip(0) =~= ev);
    while i < entries.len()
        invariant
            i <= entries@.len(),
            ev == entries_view(entries@),
            spec_lookup(ev, key@) == spec_lookup(ev.skip(i as int), key@),
            forall|j: int| 0 <= j < i ==> (#[trigger] entries@[j]).0@ != key@,
        decreases entries@.len() - i,
    {
        assert(ev.skip(i as int)[0] == ev[i as int]);
        assert(ev.skip(i as int).drop_first() =~= ev.skip(i + 1));
        if crate::tensorzero::client::str_equals(entries[i].0.as_str(), key) {
            return Some(i);
        }
        i = i + 1;
    }
    None
}

/// Stores `value` under `key`: replaces the first entry with that key, or appends one.
fn store_entry(entries: &mut Vec<(String, String)>, key: &str, value: String)
    ensures
        spec_lookup(entries_view(final(entries)@), key@) == Some(value@),
        forall|k: Seq<char>| k != key@ ==> spec_lookup(entries_view(final(entries)@), k)
            == spec_lookup(entries_view(old(entries)@), k),
{
    match find_entry(entries, key) {
        Some(i) => {
            let ghost before = entries_view(entries@);
            let k = entries[i].0.clone();
            entries.set(i, (k, value));
            assert(entries_view(entries@) =~= before.update(i as int, (key@, value@)));
            proof {
                assert forall|j: int| 0 <= j < i implies (#[trigger] before[j]).0 != before[i as int].0 by {
                    assert(before[j].0 == entries@[j].0@);
                }
                lemma_lookup_update(before, i as int, value@);
            }
        },
        None => {
            let ghost before = entries_view(entries@);
            entries.push((key.to_string(), value));
            assert(entries_view(entries@) =~= before.push((key@, value@)));
            proof {
                lemma_lookup_push(before, key@, value@);
            }
        },
    }
}

/// Replacing the value of the first entry with some key changes only that key's value.
proof fn lemma_lookup_update(e: Seq<(Seq<char>, Seq<char>)>, i: int, v: Seq<char>)
    requires
        0 <= i < e.len(),
        spec_lookup(e, e[i].0) == Some(e[i].1),
        forall|j: int| 0 <= j < i ==> (#[trigger] e[j]).0 != e[i].0,
    ensures
        spec_lookup(e.update(i, (e[i].0, v)), e[i].0) == Some(v),
        forall|k: Seq<char>| k != e[i].0 ==> spec_lookup(e.update(i, (e[i].0, v)), k) == spec_lookup(e, k),
    decreases i,
{
    let u = e.update(i, (e[i].0, v));
    if i > 0 {
        assert(u.drop_first() =~= e.drop_first().update(i - 1, (e[i].0, v)));
        assert forall|j: int| 0 <= j < i - 1 implies (#[trigger] e.drop_first()[j]).0 != e.drop_first()[i - 1].0 by {
            assert(e.drop_first()[j] == e[j + 1]);
        }
        lemma_lookup_update(e.drop_first(), i - 1, v);
        assert forall|k: Seq<char>| k != e[i].0 implies spec_lookup(u, k) == spec_lookup(e, k) by {
            if e[0].0 != k {
                assert(spec_lookup(u.drop_first(), k) == spec_lookup(e.drop_first(), k));
            }
        }
    } else {
        assert(u.drop_first() =~= e.drop_first());
        assert forall|k: Seq<char>| k != e[i].0 implies spec_lookup(u, k) == spec_lookup(e, k) by {
            assert(u[0].0 == e[0].0);
        }
    }
}

/// Appending an entry for a key not yet present changes only that key's value.
proof fn lemma_lookup_push(e: Seq<(Seq<char>, Seq<char>)>, key: Seq<char>, v: Seq<char>)
    requires
        spec_lookup(e, key) is None,
    ensures
        spec_lookup(e.push((key, v)), key) == Some(v),
        forall|k: Seq<char>| k != key ==> spec_lookup(e.push((key, v)), k) == spec_lookup(e, k),
    decreases e.len(),
{
    if e.len() > 0 {
        let p = e.push((key, v));
        assert(p.drop_first() =~= e.drop_first().push((key, v)));
        lemma_lookup_push(e.drop_first(), key, v);
        assert forall|k: Seq<char>| k != key implies spec_lookup(p, k) == spec_lookup(e, k) by {
            assert(p[0] == e[0]);
            if e[0].0 != k {
                assert(spec_lookup(p.drop_first(), k) == spec_lookup(e.drop_first(), k));
            }
        }
    } else {
        let p = e.push((key, v));
        assert(p.drop_first() =~= Seq::<(Seq<char>, Seq<char>)>::empty());
        assert forall|k: Seq<char>| k != key implies spec_lookup(p, k) == spec_lookup(e, k) by {
            assert(spec_lookup(p.drop_first(), k) is None);
        }
    }
}

/// Context provided to tool executors during execution. Custom data values are JSON
/// text.
#[derive(Debug)]
pub struct ToolContext {
    /// ID of the tool call being executed.
    pub tool_call_id: String,
    /// Name of the tool being executed.
    pub tool_name: String,
    /// Thread the tool is being executed in.
    pub thread: Arc<Thread>,
    /// Custom data passed to tools: key and JSON text.
    pub data: Vec<(String, String)>,
}

impl ToolContext {
    /// Create a new tool context without custom data.
    pub fn new(tool_call_id: &str, tool_name: &str, thread: Arc<Thread>) -> (r: Self)
        ensures
            r.tool_call_id@ == tool_call_id@,
            r.tool_name@ == tool_name@,
            r.thread == thread,
            r.data@.len() == 0,
    {
        ToolContext {
            tool_call_id: tool_call_id.to_string(),
            tool_name: tool_name.to_string(),
            thread,
            data: Vec::new(),
        }
    }

    /// Store custom data (JSON text) under a key, replacing any earlier value.
    pub fn with_data(self, key: &str, value: String) -> (r: Self)
        ensures
            r.tool_call_id == self.tool_call_id,
            r.tool_name == self.tool_name,
            r.thread == self.thread,
            spec_lookup(entries_view(r.data@), key@) == Some(value@),
            forall|k: Seq<char>| k != key@ ==> spec_lookup(entries_view(r.data@), k)
                == spec_lookup(entries_view(self.data@), k),
    {
        let mut s = self;
        store_entry(&mut s.data, key, value);
        s
    }

    /// The custom data stored under a key.
    pub fn get_data(&self, key: &str) -> (r: Option<&String>)
        ensures
            match r {
                Some(v) => spec_lookup(entries_view(self.data@), key@) == Some(v@),
                None => spec_lookup(entries_view(self.data@), key@) is None,
            },
    {
        match find_entry(&self.data, key) {
            Some(i) => Some(&self.data[i].1),
            None => None,
        }
    }

    /// The thread ID.
    pub fn thread_id(&self) -> (r: u128)
        ensures
            r == self.thread.id,
    {
        self.thread.id
    }

    /// The external ID of the thread.
    pub fn external_id(&self) -> (r: &String)
        ensures
            r@ == self.thread.external_id@,
    {
        &self.thread.external_id
    }
}

/// Builder for tool contexts.
#[derive(Debug)]
pub struct ToolContextBuilder {
    pub tool_call_id: String,
    pub tool_name: String,
    pub thread: Option<Arc<Thread>>,
    pub data: Vec<(String, String)>,
}

impl ToolContextBuilder {
    /// A builder for the given call, without a thread or data.
    pub fn new(tool_call_id: &str, tool_name: &str) -> (r: Self)
        ensures
            r.tool_call_id@ == tool_call_id@,
            r.tool_name@ == tool_name@,
            r.thread is None,
            r.data@.len() == 0,
    {
        ToolContextBuilder {
            tool_call_id: tool_call_id.to_string(),
            tool_name: tool_name.to_string(),
            thread: None,
            data: Vec::new(),
        }
    }

    /// Set the thread.
    pub fn thread(self, thread: Arc<Thread>) -> (r: Self)
        ensures
            r == (ToolContextBuilder { thread: Some(thread), ..self }),
    {
        ToolContextBuilder { thread: Some(thread), ..self }
    }

    /// Store custom data (JSON text) under a key, replacing any earlier value.
    pub fn data(self, key: &str, value: String) -> (r: Self)
        ensures
            r.tool_call_id == self.tool_call_id,
            r.tool_name == self.tool_name,
            r.thread == self.thread,
            spec_lookup(entries_view(r.data@), key@) == Some(value@),
            forall|k: Seq<char>| k != key@ ==> spec_lookup(entries_view(r.data@), k)
                == spec_lookup(entries_view(self.data@), k),
    {
        let mut s = self;
        store_entry(&mut s.data, key, value);
        s
    }

    /// Build the context; a thread is required.
    pub fn build(self) -> (r: Option<ToolContext>)
        ensures
            r is Some <==> self.thread is Some,
            r matches Some(c) ==> (Some(c.thread) == self.thread && c.tool_call_id == self.tool_call_id
                && c.tool_name == self.tool_name && c.data == self.data),
    {
        match self.thread {
            Some(thread) => Some(ToolContext {
                tool_call_id: self.tool_call_id,
                tool_name: self.tool_name,
                thread,
                data: self.data,
            }),
            None => None,
        }
    }
}

} // verus!

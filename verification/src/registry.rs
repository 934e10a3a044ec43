//! The callable tool trait and the in-process tool registry, keyed by tool
//! id and iterated in id order.

use vstd::prelude::*;

use crate::capabilities::{Capabilities, OutputMode, SchemaVersion, ToolContract};
use crate::error::{ToolError, GENERIC, NOT_FOUND};
use crate::ids::ToolId;
use crate::order::{lemma_lt_asymmetric, lemma_lt_total, lemma_lt_transitive, str_lt, strictly_sorted, text_lt};
use crate::stream::BlockStream;
use crate::text::{str_eq, texts};

verus! {

/// A callable tool: self-description plus a uniform JSON-typed invocation
/// boundary returning the blocks (of type `B`) it emits, or a structured
/// error.
pub trait Tool<B>: Capabilities {
    /// Invoke the tool.
    fn invoke(&self, input: serde_json::Value) -> Result<Vec<B>, ToolError>;

    /// Invoke the tool, streaming its blocks. The default collects
    /// [`Tool::invoke`] and replays it as a stream: the blocks of a
    /// successful invocation in order; a failed invocation yields a stream
    /// whose one (and final) item is its error.
    fn invoke_stream(&self, input: serde_json::Value) -> (r: Result<BlockStream<B>, ToolError>)
        default_ensures
            exists|res: Result<Vec<B>, ToolError>|
                {
                    &&& #[trigger] call_ensures(Self::invoke, (self, input), res)
                    &&& match res {
                        Ok(bs) => (r matches Ok(s) && s@.len() == bs@.len() && forall|i: int|
                            0 <= i < bs@.len() ==> s@[i] == Ok::<B, ToolError>(bs@[i])),
                        Err(e) => (r matches Ok(s) && s@ == seq![Err::<B, ToolError>(e)]),
                    }
                },
    {
        match self.invoke(input) {
            Ok(blocks) => Ok(BlockStream::from_blocks(blocks)),
            Err(e) => {
                let items = vec![Err(e)];
                proof {
                    assert(items@ =~= seq![Err::<B, ToolError>(e)]);
                }
                Ok(BlockStream::from_items(items))
            },
        }
    }

    /// The tool's declared contract, if any (none by default).
    fn contract(&self) -> (r: Option<ToolContract>)
        default_ensures
            r is None,
    {
        None
    }
}

impl<T: Capabilities + ?Sized> Capabilities for Box<T> {
    fn schema_version(&self) -> (r: SchemaVersion)
        ensures
            call_ensures(T::schema_version, (&**self,), r),
    {
        (**self).schema_version()
    }

    fn tool_version(&self) -> (r: String)
        ensures
            call_ensures(T::tool_version, (&**self,), r),
    {
        (**self).tool_version()
    }

    fn output_formats(&self) -> (r: Vec<OutputMode>)
        ensures
            call_ensures(T::output_formats, (&**self,), r),
    {
        (**self).output_formats()
    }

    fn exit_code_map(&self) -> (r: Vec<(String, u8)>)
        ensures
            call_ensures(T::exit_code_map, (&**self,), r),
    {
        (**self).exit_code_map()
    }

    fn tool_id(&self) -> (r: ToolId)
        ensures
            call_ensures(T::tool_id, (&**self,), r),
    {
        (**self).tool_id()
    }
}

impl<B, T: Tool<B> + ?Sized> Tool<B> for Box<T> {
    fn invoke(&self, input: serde_json::Value) -> (r: Result<Vec<B>, ToolError>)
        ensures
            call_ensures(T::invoke, (&**self, input), r),
    {
        (**self).invoke(input)
    }

    fn invoke_stream(&self, input: serde_json::Value) -> (r: Result<BlockStream<B>, ToolError>)
        ensures
            call_ensures(T::invoke_stream, (&**self, input), r),
    {
        (**self).invoke_stream(input)
    }

    fn contract(&self) -> (r: Option<ToolContract>)
        ensures
            call_ensures(T::contract, (&**self,), r),
    {
        (**self).contract()
    }
}

/// Registry of in-process tools of type `T` (often `Box<dyn Tool<B>>`),
/// keyed by tool id, kept sorted by id.
pub struct ToolRegistry<T> {
    entries: Vec<(ToolId, T)>,
}

impl<T> Default for ToolRegistry<T> {
    /// An empty registry.
    fn default() -> (r: ToolRegistry<T>)
        ensures
            r@.len() == 0,
            r.wf(),
    {
        ToolRegistry::new()
    }
}

/// The message for a duplicate registration.
pub open spec fn already_registered_message(id: Seq<char>) -> Seq<char> {
    "a tool with id `"@ + id + "` is already registered"@
}

/// The message for an unknown tool id.
pub open spec fn not_found_message(id: Seq<char>) -> Seq<char> {
    "no tool with id `"@ + id + "`"@
}

/// The ids of registry entries, in order.
pub closed spec fn ids_of<T>(entries: Seq<(ToolId, T)>) -> Seq<Seq<char>> {
    entries.map_values(|e: (ToolId, T)| e.0@)
}

impl<T> View for ToolRegistry<T> {
    type V = Seq<Seq<char>>;

    /// The registered ids, in iteration order.
    closed spec fn view(&self) -> Seq<Seq<char>> {
        ids_of(self.entries@)
    }
}

/// The position of the first occurrence of `id` among `ids`.
pub open spec fn index_of_id(ids: Seq<Seq<char>>, id: Seq<char>) -> int {
    choose|i: int| 0 <= i < ids.len() && ids[i] == id && forall|j: int| 0 <= j < i ==> ids[j] != id
}

/// The tool at the first occurrence of `id`, given parallel ids and tools.
pub open spec fn tool_at_id<T>(ids: Seq<Seq<char>>, tools: Seq<T>, id: Seq<char>) -> T {
    tools[index_of_id(ids, id)]
}

/// The first occurrence of an id is the only index satisfying "first".
proof fn lemma_index_of_id(ids: Seq<Seq<char>>, id: Seq<char>, k: int)
    requires
        0 <= k < ids.len(),
        ids[k] == id,
        forall|j: int| 0 <= j < k ==> ids[j] != id,
    ensures
        index_of_id(ids, id) == k,
{
    let i = index_of_id(ids, id);
    assert(0 <= i < ids.len() && ids[i] == id && forall|j: int| 0 <= j < i ==> ids[j] != id);
    if i < k {
        assert(ids[i] != id);
    }
    if k < i {
        assert(ids[k] != id);
    }
}

/// In a strictly sorted sequence every id sits at its own first occurrence.
proof fn lemma_sorted_index(ids: Seq<Seq<char>>, k: int)
    requires
        strictly_sorted(ids),
        0 <= k < ids.len(),
    ensures
        index_of_id(ids, ids[k]) == k,
{
    assert forall|j: int| 0 <= j < k implies ids[j] != ids[k] by {
        assert(text_lt(ids[j], ids[k]));
        lemma_lt_asymmetric(ids[j], ids[k]);
    }
    lemma_index_of_id(ids, ids[k], k);
}

/// The not-found error for `id`.
pub fn not_found_error(id: &str) -> (r: ToolError)
    ensures
        r.kind@ == "not_found"@,
        r.message@ == not_found_message(id@),
        r.exit_code == NOT_FOUND,
{
    let mut message = String::new();
    message.append("no tool with id `");
    message.append(id);
    message.append("`");
    ToolError::new("not_found", message.as_str(), NOT_FOUND)
}

impl<T> ToolRegistry<T> {
    /// The registered tools, in iteration order (parallel to the ids).
    pub closed spec fn tools(&self) -> Seq<T> {
        self.entries@.map_values(|e: (ToolId, T)| e.1)
    }

    /// The tool registered under `id`.
    pub open spec fn tool_of(&self, id: Seq<char>) -> T {
        self.tools()[index_of_id(self@, id)]
    }

    /// The registry is sorted by id with no duplicates.
    pub open spec fn wf(&self) -> bool {
        strictly_sorted(self@)
    }

    /// Every registry value is well formed.
    #[verifier::type_invariant]
    closed spec fn sorted_by_id(&self) -> bool {
        self.wf()
    }

    /// An empty registry.
    pub fn new() -> (r: ToolRegistry<T>)
        ensures
            r@.len() == 0,
            r.wf(),
    {
        let r = ToolRegistry { entries: Vec::new() };
        assert(r@ =~= Seq::<Seq<char>>::empty());
        r
    }

    /// Number of registered tools.
    pub fn len(&self) -> (r: usize)
        ensures
            r == self@.len(),
    {
        self.entries.len()
    }

    /// Whether the registry is empty.
    pub fn is_empty(&self) -> (r: bool)
        ensures
            r == (self@.len() == 0),
    {
        self.entries.len() == 0
    }

    fn position(&self, id: &str) -> (r: Option<usize>)
        ensures
            self.tools().len() == self@.len(),
            match r {
                Some(i) => i < self@.len() && self@[i as int] == id@ && index_of_id(self@, id@)
                    == i && self.entries@[i as int].1 == self.tool_of(id@),
                None => !self@.contains(id@),
            },
    {
        let mut i: usize = 0;
        while i < self.entries.len()
            invariant
                i <= self.entries@.len(),
                self@.len() == self.entries@.len(),
                forall|j: int| 0 <= j < i ==> self@[j] != id@,
            decreases self.entries@.len() - i,
        {
            proof {
                assert(self@[i as int] == self.entries@[i as int].0@);
            }
            if str_eq(self.entries[i].0.as_str(), id) {
                proof {
                    lemma_index_of_id(self@, id@, i as int);
                }
                return Some(i);
            }
            i = i + 1;
        }
        None
    }

    /// Look up a tool by id.
    pub fn get(&self, id: &str) -> (r: Option<&T>)
        ensures
            match r {
                Some(t) => self@.contains(id@) && *t == self.tool_of(id@),
                None => !self@.contains(id@),
            },
    {
        match self.position(id) {
            Some(i) => Some(&self.entries[i].1),
            None => None,
        }
    }

    /// Whether a tool with this id is registered.
    pub fn contains(&self, id: &str) -> (r: bool)
        ensures
            r == self@.contains(id@),
    {
        self.position(id).is_some()
    }

    /// The registered ids, sorted.
    pub fn ids(&self) -> (r: Vec<String>)
        ensures
            texts(r@) == self@,
            strictly_sorted(texts(r@)),
    {
        proof {
            use_type_invariant(self);
        }
        let mut out: Vec<String> = Vec::new();
        let mut i: usize = 0;
        while i < self.entries.len()
            invariant
                i <= self.entries@.len(),
                self@.len() == self.entries@.len(),
                out@.len() == i,
                texts(out@) == self@.subrange(0, i as int),
            decreases self.entries@.len() - i,
        {
            let id = self.entries[i].0.as_str().to_owned();
            proof {
                assert(self@[i as int] == self.entries@[i as int].0@);
            }
            out.push(id);
            assert(texts(out@) =~= self@.subrange(0, i + 1));
            i = i + 1;
        }
        assert(self@.subrange(0, self@.len() as int) =~= self@);
        out
    }

    /// Iterate the registered tools, sorted by id.
    pub fn iter(&self) -> (r: Vec<(&str, &T)>)
        ensures
            r@.len() == self@.len(),
            forall|i: int|
                0 <= i < r@.len() ==> (#[trigger] r@[i]).0@ == self@[i] && *r@[i].1
                    == self.tools()[i],
            forall|i: int| 0 <= i < r@.len() ==> *(#[trigger] r@[i]).1 == self.tool_of(self@[i]),
    {
        let mut out: Vec<(&str, &T)> = Vec::new();
        let mut i: usize = 0;
        while i < self.entries.len()
            invariant
                i <= self.entries@.len(),
                self@.len() == self.entries@.len(),
                out@.len() == i,
                forall|j: int|
                    0 <= j < i ==> (#[trigger] out@[j]).0@ == self@[j] && *out@[j].1
                        == self.tools()[j],
            decreases self.entries@.len() - i,
        {
            let entry = &self.entries[i];
            let name = entry.0.as_str();
            proof {
                assert(self@[i as int] == self.entries@[i as int].0@);
            }
            out.push((name, &entry.1));
            i = i + 1;
        }
        proof {
            use_type_invariant(self);
            assert forall|i: int| 0 <= i < out@.len() implies *(#[trigger] out@[i]).1
                == self.tool_of(self@[i]) by {
                lemma_sorted_index(self@, i);
            }
        }
        out
    }

    /// Register `tool` under `id`.
    pub(crate) fn register_as(&mut self, id: ToolId, tool: T) -> (r: Result<(), ToolError>)
        ensures
            final(self).wf(),
            old(self)@.contains(id@) ==> (r matches Err(e) && e.kind@ == "already_registered"@
                && e.exit_code == GENERIC && e.message@ == already_registered_message(id@)
                && final(self)@ == old(self)@ && final(self).tools() == old(self).tools()),
            !old(self)@.contains(id@) ==> (r is Ok && final(self)@.len() == old(self)@.len() + 1
                && final(self)@.contains(id@) && final(self).tool_of(id@) == tool
                && forall|x: Seq<char>|
                old(self)@.contains(x) ==> #[trigger] final(self)@.contains(x)
                    && final(self).tool_of(x) == old(self).tool_of(x)),
            forall|x: Seq<char>| #[trigger]
                final(self)@.contains(x) ==> x == id@ || old(self)@.contains(x),
    {
        proof {
            use_type_invariant(&*self);
        }
        let ghost old_ids = self@;
        let ghost old_tools = self.tools();
        let mut p: usize = 0;
        while p < self.entries.len() && str_lt(self.entries[p].0.as_str(), id.as_str())
            invariant
                self@ == old_ids,
                self@.len() == self.entries@.len(),
                p <= self.entries@.len(),
                forall|j: int| 0 <= j < p ==> text_lt(#[trigger] old_ids[j], id@),
            decreases self.entries@.len() - p,
        {
            proof {
                assert(self@[p as int] == self.entries@[p as int].0@);
            }
            p = p + 1;
        }
        proof {
            if p < self.entries@.len() {
                assert(self@[p as int] == self.entries@[p as int].0@);
            }
        }
        if p < self.entries.len() && str_eq(self.entries[p].0.as_str(), id.as_str()) {
            let mut message = String::new();
            message.append("a tool with id `");
            message.append(id.as_str());
            message.append("` is already registered");
            return Err(ToolError::new("already_registered", message.as_str(), GENERIC));
        }
        proof {
            // No entry equals the new id: those before p are below it, the
            // one at p is not equal, and those after p are above that one.
            assert forall|j: int| 0 <= j < old_ids.len() implies old_ids[j] != id@ by {
                if j < p {
                    lemma_lt_asymmetric(old_ids[j], id@);
                } else {
                    if j > p {
                        assert(text_lt(old_ids[p as int], old_ids[j]));
                        if old_ids[j] == id@ {
                            // id is not below entries[p], yet below would follow
                            lemma_lt_asymmetric(id@, old_ids[p as int]);
                        }
                    }
                }
            }
            assert(!old_ids.contains(id@));
        }
        let ghost new_id = id@;
        let ghost old_entries = self.entries@;
        let mut entries: Vec<(ToolId, T)> = Vec::new();
        std::mem::swap(&mut entries, &mut self.entries);
        assert(entries@ == old_entries);
        entries.insert(p, (id, tool));
        proof {
            let s = ids_of(entries@);
            assert(entries@ == old_entries.insert(p as int, entries@[p as int]));
            assert(entries@[p as int].0@ == new_id);
            assert forall|k: int| 0 <= k < s.len() implies s[k] == old_ids.insert(
                p as int,
                new_id,
            )[k] by {
                assert(s[k] == entries@[k].0@);
                if k < p {
                    assert(entries@[k] == old_entries[k]);
                } else if k > p {
                    assert(entries@[k] == old_entries[k - 1]);
                }
            }
            assert(s =~= old_ids.insert(p as int, new_id));
            if p < old_ids.len() {
                lemma_lt_total(new_id, old_ids[p as int]);
            }
            assert forall|i: int, j: int| 0 <= i < j < s.len() implies text_lt(
                #[trigger] s[i],
                #[trigger] s[j],
            ) by {
                if j < p {
                    assert(s[i] == old_ids[i] && s[j] == old_ids[j]);
                } else if j == p {
                    assert(s[i] == old_ids[i]);
                } else if i == p {
                    assert(s[j] == old_ids[j - 1]);
                    if j - 1 > p {
                        assert(text_lt(old_ids[p as int], old_ids[j - 1]));
                        lemma_lt_transitive(new_id, old_ids[p as int], old_ids[j - 1]);
                    }
                } else if i < p {
                    assert(s[i] == old_ids[i] && s[j] == old_ids[j - 1]);
                } else {
                    assert(s[i] == old_ids[i - 1] && s[j] == old_ids[j - 1]);
                }
            }
            assert(s[p as int] == new_id);
        }
        let ghost new_entries = entries@;
        self.entries = entries;
        proof {
            let s = self@;
            assert(self.entries@ == new_entries);
            assert(s =~= old_ids.insert(p as int, new_id));
            assert(s[p as int] == new_id);
            let t = self.tools();
            assert forall|k: int| 0 <= k < t.len() implies t[k] == old_tools.insert(
                p as int,
                tool,
            )[k] by {
                assert(t[k] == self.entries@[k].1);
                if k < p {
                    assert(self.entries@[k] == old_entries[k]);
                } else if k > p {
                    assert(self.entries@[k] == old_entries[k - 1]);
                }
            }
            assert(t =~= old_tools.insert(p as int, tool));
            lemma_sorted_index(s, p as int);
            assert forall|x: Seq<char>| old_ids.contains(x) implies #[trigger] s.contains(x)
                && self.tool_of(x) == tool_at_id(old_ids, old_tools, x) by {
                let k = choose|k: int| 0 <= k < old_ids.len() && old_ids[k] == x;
                lemma_sorted_index(old_ids, k);
                if k < p {
                    assert(s[k] == x);
                    lemma_sorted_index(s, k);
                } else {
                    assert(s[k + 1] == x);
                    lemma_sorted_index(s, k + 1);
                }
            }
            assert forall|x: Seq<char>| #[trigger] s.contains(x) implies x == new_id
                || old_ids.contains(x) by {
                let k = choose|k: int| 0 <= k < s.len() && s[k] == x;
                if k < p {
                    assert(old_ids[k] == x);
                } else if k > p {
                    assert(old_ids[k - 1] == x);
                }
            }
        }
        Ok(())
    }

    /// Register a tool under its own id.
    ///
    /// Fails with kind `already_registered` (exit code 1) when a tool with
    /// the same id is present.
    pub fn register(&mut self, tool: T) -> (r: Result<(), ToolError>) where T: Capabilities
        ensures
            final(self).wf(),
            exists|tid: ToolId|
                {
                    &&& #[trigger] call_ensures(<T as Capabilities>::tool_id, (&tool,), tid)
                    &&& final(self)@.contains(tid@)
                    &&& old(self)@.contains(tid@) ==> (r matches Err(e) && e.kind@
                        == "already_registered"@ && e.exit_code == GENERIC && e.message@
                        == already_registered_message(tid@) && final(self)@ == old(self)@
                        && final(self).tools() == old(self).tools())
                    &&& !old(self)@.contains(tid@) ==> (r is Ok && final(self)@.len() == old(
                        self,
                    )@.len() + 1 && final(self).tool_of(tid@) == tool && forall|x: Seq<char>|
                        old(self)@.contains(x) ==> #[trigger] final(self)@.contains(x)
                            && final(self).tool_of(x) == old(self).tool_of(x))
                    &&& forall|x: Seq<char>|
                        #[trigger] final(self)@.contains(x) ==> x == tid@ || old(self)@.contains(
                            x,
                        )
                },
    {
        let id = tool.tool_id();
        let ghost tid = id;
        let ghost t = tool;
        assert(call_ensures(<T as Capabilities>::tool_id, (&t,), tid));
        let r = self.register_as(id, tool);
        assert(final(self)@.contains(tid@));
        r
    }

    /// Invoke a tool by id.
    ///
    /// Fails with kind `not_found` (exit code 3) when the id is unknown;
    /// otherwise hands back the tool's own result.
    pub fn invoke<B>(&self, id: &str, input: serde_json::Value) -> (r: Result<Vec<B>, ToolError>) where
        T: Tool<B>,

        ensures
            self@.contains(id@) ==> call_ensures(
                <T as Tool<B>>::invoke,
                (&self.tool_of(id@), input),
                r,
            ),
            !self@.contains(id@) ==> (r matches Err(e) && e.kind@ == "not_found"@ && e.exit_code
                == NOT_FOUND && e.message@ == not_found_message(id@)),
    {
        match self.position(id) {
            Some(i) => self.entries[i].1.invoke(input),
            None => Err(not_found_error(id)),
        }
    }

    /// Invoke a tool by id, streaming its blocks.
    ///
    /// Fails with kind `not_found` (exit code 3) when the id is unknown;
    /// otherwise hands back the tool's own startup result.
    pub fn invoke_stream<B>(&self, id: &str, input: serde_json::Value) -> (r: Result<
        BlockStream<B>,
        ToolError,
    >) where T: Tool<B>,

        ensures
            self@.contains(id@) ==> call_ensures(
                <T as Tool<B>>::invoke_stream,
                (&self.tool_of(id@), input),
                r,
            ),
            !self@.contains(id@) ==> (r matches Err(e) && e.kind@ == "not_found"@ && e.exit_code
                == NOT_FOUND && e.message@ == not_found_message(id@)),
    {
        match self.position(id) {
            Some(i) => self.entries[i].1.invoke_stream(input),
            None => Err(not_found_error(id)),
        }
    }
}

} // verus!


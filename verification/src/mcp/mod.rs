//! The tools that a session can call, kept by name.

use crate::error::SchatError;
use crate::json::{JsonDoc, JsonValue};
use crate::strings::text_eq;
use vstd::prelude::*;

verus! {

/// What is known of a callable tool.
pub struct Tool {
    pub name: String,
    pub description: String,
    pub parameters: JsonDoc,
}

/// A tool as a mathematical value.
pub struct ToolView {
    pub name: Seq<char>,
    pub description: Seq<char>,
    pub parameters: JsonValue,
}

impl View for Tool {
    type V = ToolView;

    open spec fn view(&self) -> ToolView {
        ToolView {
            name: self.name@,
            description: self.description@,
            parameters: self.parameters@,
        }
    }
}

impl Clone for Tool {
    fn clone(&self) -> (r: Tool)
        ensures
            r@ == self@,
    {
        Tool {
            name: self.name.clone(),
            description: self.description.clone(),
            parameters: self.parameters.clone(),
        }
    }
}

impl Tool {
    /// A tool of this name, description and parameter schema.
    pub fn new(name: &str, description: &str, parameters: JsonDoc) -> (r: Tool)
        ensures
            r@ == (ToolView {
                name: name@,
                description: description@,
                parameters: parameters@,
            }),
    {
        Tool {
            name: String::from_str(name),
            description: String::from_str(description),
            parameters,
        }
    }

    pub fn name(&self) -> (r: &str)
        ensures
            r@ == self@.name,
    {
        self.name.as_str()
    }

    pub fn description(&self) -> (r: &str)
        ensures
            r@ == self@.description,
    {
        self.description.as_str()
    }

    pub fn parameters_schema(&self) -> (r: JsonDoc)
        ensures
            r@ == self@.parameters,
    {
        self.parameters.clone()
    }
}

/// The first index at or after `from` of a tool called `name`.
pub open spec fn position_from(tools: Seq<Tool>, name: Seq<char>, from: int) -> Option<int>
    decreases tools.len() - from,
{
    if from < 0 || from >= tools.len() {
        None
    } else if tools[from].name@ == name {
        Some(from)
    } else {
        position_from(tools, name, from + 1)
    }
}

/// No two of the tools share a name.
pub open spec fn distinct_names(tools: Seq<Tool>) -> bool {
    forall|i: int, j: int|
        0 <= i < j < tools.len() ==> (#[trigger] tools[i]).name@ != (#[trigger] tools[j]).name@
}

/// `position_from` finds the first tool of that name at or after `from`.
pub proof fn lemma_position_from(tools: Seq<Tool>, name: Seq<char>, from: int)
    requires
        0 <= from,
    ensures
        match position_from(tools, name, from) {
            Some(i) => from <= i < tools.len() && tools[i].name@ == name && forall|j: int|
                from <= j < i ==> (#[trigger] tools[j]).name@ != name,
            None => forall|j: int| from <= j < tools.len() ==> (#[trigger] tools[j]).name@ != name,
        },
    decreases tools.len() - from,
{
    if from < tools.len() && tools[from].name@ != name {
        lemma_position_from(tools, name, from + 1);
    }
}

/// A tool of that name at `at`, with none before it, is what the search
/// finds.
pub proof fn lemma_position_is(tools: Seq<Tool>, name: Seq<char>, from: int, at: int)
    requires
        0 <= from <= at < tools.len(),
        tools[at].name@ == name,
        forall|j: int| from <= j < at ==> (#[trigger] tools[j]).name@ != name,
    ensures
        position_from(tools, name, from) == Some(at),
    decreases at - from,
{
    if from < at {
        lemma_position_is(tools, name, from + 1, at);
    }
}

/// The registry of tools: at most one tool under each name.
pub struct ToolSet {
    pub tools: Vec<Tool>,
}

/// A call that has been matched to a registered tool and is ready to be
/// made.
pub struct PendingCall {
    pub tool: Tool,
    pub arguments: JsonDoc,
}

impl ToolSet {
    /// No name is registered twice.
    pub open spec fn well_formed(&self) -> bool {
        distinct_names(self.tools@)
    }

    /// Whether a tool is registered under `name`.
    pub open spec fn has(&self, name: Seq<char>) -> bool {
        position_from(self.tools@, name, 0) is Some
    }

    /// The tool that is registered under `name`.
    pub open spec fn tool(&self, name: Seq<char>) -> ToolView
        recommends
            self.has(name),
    {
        self.tools@[position_from(self.tools@, name, 0)->0]@
    }

    /// How many tools are registered.
    pub open spec fn count(&self) -> nat {
        self.tools@.len()
    }

    /// The empty registry.
    pub fn new() -> (r: ToolSet)
        ensures
            r.well_formed(),
            r.count() == 0,
            forall|name: Seq<char>| !r.has(name),
    {
        ToolSet { tools: Vec::new() }
    }

    /// The index of the tool called `name`.
    fn position(&self, name: &str) -> (r: Option<usize>)
        ensures
            match r {
                Some(i) => position_from(self.tools@, name@, 0) == Some(i as int) && i
                    < self.tools.len(),
                None => position_from(self.tools@, name@, 0) is None,
            },
    {
        let n: usize = self.tools.len();
        let mut i: usize = 0;
        while i < n
            invariant
                i <= n,
                n == self.tools.len(),
                position_from(self.tools@, name@, 0) == position_from(self.tools@, name@, i as int),
            decreases n - i,
        {
            if text_eq(self.tools[i].name.as_str(), name) {
                return Some(i);
            }
            i += 1;
        }
        None
    }

    /// Registers `tool` under its name; a tool that was registered under
    /// that name is replaced. Every other name keeps its tool.
    pub fn add_tool(&mut self, tool: Tool)
        requires
            old(self).well_formed(),
        ensures
            final(self).well_formed(),
            final(self).has(tool@.name),
            final(self).tool(tool@.name) == tool@,
            forall|name: Seq<char>|
                name != tool@.name ==> final(self).has(name) == old(self).has(name),
            forall|name: Seq<char>|
                name != tool@.name && old(self).has(name) ==> final(self).tool(name) == old(
                    self,
                ).tool(name),
            final(self).count() == if old(self).has(tool@.name) {
                old(self).count()
            } else {
                old(self).count() + 1
            },
    {
        let ghost before = self.tools@;
        let ghost added = tool@.name;
        match self.position(tool.name.as_str()) {
            Some(i) => {
                proof {
                    lemma_position_from(before, added, 0);
                }
                self.tools.set(i, tool);
                proof {
                    let after = self.tools@;
                    assert forall|a: int, b: int| 0 <= a < b < after.len() implies (
                    #[trigger] after[a]).name@ != (#[trigger] after[b]).name@ by {
                        assert(before[a].name@ != before[b].name@);
                    }
                    lemma_position_is(after, added, 0, i as int);
                    assert forall|name: Seq<char>| name != added implies position_from(
                        after,
                        name,
                        0,
                    ) == position_from(before, name, 0) && (position_from(before, name, 0)
                        matches Some(p) ==> after[p] == before[p]) by {
                        lemma_same_names_same_position(before, after, name, 0);
                        lemma_position_from(before, name, 0);
                    }
                }
            },
            None => {
                proof {
                    lemma_position_from(before, added, 0);
                }
                self.tools.push(tool);
                proof {
                    let after = self.tools@;
                    assert forall|a: int, b: int| 0 <= a < b < after.len() implies (
                    #[trigger] after[a]).name@ != (#[trigger] after[b]).name@ by {
                        if b < before.len() {
                            assert(before[a].name@ != before[b].name@);
                        } else {
                            assert(before[a].name@ != added);
                        }
                    }
                    lemma_position_is(after, added, 0, before.len() as int);
                    assert forall|name: Seq<char>| name != added implies position_from(
                        after,
                        name,
                        0,
                    ) == position_from(before, name, 0) && (position_from(before, name, 0)
                        matches Some(p) ==> after[p] == before[p]) by {
                        lemma_position_after_push(before, after, name, 0);
                        lemma_position_from(before, name, 0);
                    }
                }
            },
        }
    }

    /// The tool that is registered under `name`.
    pub fn get_tool(&self, name: &str) -> (r: Option<Tool>)
        ensures
            r is Some <==> self.has(name@),
            r matches Some(tool) ==> tool@ == self.tool(name@),
    {
        match self.position(name) {
            Some(i) => Some(self.tools[i].clone()),
            None => None,
        }
    }

    /// The registered tools.
    pub fn tools(&self) -> (r: Vec<Tool>)
        ensures
            r@.len() == self.tools@.len(),
            forall|i: int| 0 <= i < r@.len() ==> r@[i]@ == self.tools@[i]@,
    {
        let mut r: Vec<Tool> = Vec::new();
        let n: usize = self.tools.len();
        let mut i: usize = 0;
        while i < n
            invariant
                i <= n,
                n == self.tools.len(),
                r.len() == i,
                forall|k: int| 0 <= k < i ==> r@[k]@ == self.tools@[k]@,
            decreases n - i,
        {
            r.push(self.tools[i].clone());
            i += 1;
        }
        r
    }

    /// Matches a call to the tool registered under `name`: the call is ready
    /// where there is one, and fails with `ToolNotFound` and the name where
    /// there is none.
    pub fn call_tool(&self, name: &str, args: JsonDoc) -> (r: Result<PendingCall, SchatError>)
        ensures
            r is Ok <==> self.has(name@),
            r matches Ok(call) ==> call.tool@ == self.tool(name@) && call.arguments@ == args@,
            r matches Err(e) ==> e matches SchatError::ToolNotFound(n) && n@ == name@,
    {
        match self.get_tool(name) {
            Some(tool) => Ok(PendingCall { tool, arguments: args }),
            None => Err(SchatError::ToolNotFound(String::from_str(name))),
        }
    }
}

impl Default for ToolSet {
    fn default() -> (r: ToolSet)
        ensures
            r.well_formed(),
            r.count() == 0,
    {
        ToolSet::new()
    }
}

/// Two lists that agree on every name and on every tool but those called
/// `skip` give the same position to every other name.
proof fn lemma_same_names_same_position(
    before: Seq<Tool>,
    after: Seq<Tool>,
    name: Seq<char>,
    from: int,
)
    requires
        0 <= from,
        before.len() == after.len(),
        forall|k: int| 0 <= k < before.len() ==> (#[trigger] before[k]).name@ == after[k].name@,
    ensures
        position_from(after, name, from) == position_from(before, name, from),
    decreases before.len() - from,
{
    if from < before.len() {
        assert(before[from].name@ == after[from].name@);
        if before[from].name@ != name {
            lemma_same_names_same_position(before, after, name, from + 1);
        }
    }
}

/// A tool pushed at the end changes the position of no other name.
proof fn lemma_position_after_push(before: Seq<Tool>, after: Seq<Tool>, name: Seq<char>, from: int)
    requires
        0 <= from,
        after.len() == before.len() + 1,
        forall|k: int| 0 <= k < before.len() ==> #[trigger] after[k] == before[k],
        after[before.len() as int].name@ != name,
    ensures
        position_from(after, name, from) == position_from(before, name, from),
    decreases after.len() - from,
{
    if from < before.len() {
        assert(after[from] == before[from]);
        if before[from].name@ != name {
            lemma_position_after_push(before, after, name, from + 1);
        }
    } else if from == before.len() {
        assert(position_from(after, name, from + 1) is None);
    }
}

} // verus!

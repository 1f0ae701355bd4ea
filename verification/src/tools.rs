//! The tool registry: named native callables the agent may invoke.
//!
//! A `ToolSpec` declares a tool's name and the shapes of its input and
//! output. The callable itself runs outside this crate; dispatch decides
//! *which* registered tool an event names and hands the invocation out by
//! index, so the registry here is the ordered list of declarations.

use vstd::prelude::*;

verus! {

/// The declaration of one registered tool.
#[derive(Debug, PartialEq)]
pub struct ToolSpec {
    /// The name the agent calls the tool by; unique within one interaction.
    pub name: String,
    /// The shape the tool's arguments must conform to.
    pub input_schema: crate::json::Schema,
    /// The shape the tool's result must conform to.
    pub output_schema: crate::json::Schema,
}

/// The index of the first tool with the given name, or -1 if no tool
/// carries it.
pub open spec fn spec_tool_index(tools: Seq<ToolSpec>, name: Seq<char>) -> int
    decreases tools.len(),
{
    if tools.len() == 0 {
        -1
    } else if tools[0].name@ == name {
        0
    } else {
        let rest = spec_tool_index(tools.drop_first(), name);
        if rest < 0 {
            -1
        } else {
            rest + 1
        }
    }
}

/// Whether some registered tool carries the given name.
pub open spec fn has_tool(tools: Seq<ToolSpec>, name: Seq<char>) -> bool {
    spec_tool_index(tools, name) >= 0
}

/// No two registered tools share a name.
pub open spec fn distinct_tool_names(tools: Seq<ToolSpec>) -> bool {
    forall|i: int, j: int|
        0 <= i < j < tools.len() ==> (#[trigger] tools[i]).name@ != (#[trigger] tools[j]).name@
}

/// The first index with a matching name is what `spec_tool_index` returns.
proof fn lemma_tool_index_found(tools: Seq<ToolSpec>, name: Seq<char>, i: int)
    requires
        0 <= i < tools.len(),
        tools[i].name@ == name,
        forall|j: int| 0 <= j < i ==> (#[trigger] tools[j]).name@ != name,
    ensures
        spec_tool_index(tools, name) == i,
    decreases tools.len(),
{
    if i > 0 {
        assert(forall|j: int|
            0 <= j < i - 1 ==> (#[trigger] tools.drop_first()[j]) == tools[j + 1]);
        lemma_tool_index_found(tools.drop_first(), name, i - 1);
    }
}

/// A name that no registered tool carries has index -1.
proof fn lemma_tool_index_missing(tools: Seq<ToolSpec>, name: Seq<char>)
    requires
        forall|j: int| 0 <= j < tools.len() ==> (#[trigger] tools[j]).name@ != name,
    ensures
        spec_tool_index(tools, name) == -1,
    decreases tools.len(),
{
    if tools.len() > 0 {
        assert(forall|j: int|
            0 <= j < tools.len() - 1 ==> (#[trigger] tools.drop_first()[j]) == tools[j + 1]);
        lemma_tool_index_missing(tools.drop_first(), name);
    }
}

/// Looks a name up in the registry; returns the first matching index.
#[verifier::loop_isolation(false)]
pub fn find_tool(tools: &Vec<ToolSpec>, name: &String) -> (r: Option<usize>)
    ensures
        match r {
            Some(i) => spec_tool_index(tools@, name@) == i as int && i < tools@.len()
                && tools@[i as int].name@ == name@,
            None => spec_tool_index(tools@, name@) == -1 && forall|j: int|
                0 <= j < tools@.len() ==> (#[trigger] tools@[j]).name@ != name@,
        },
{
    let n: usize = tools.len();
    let mut i: usize = 0;
    while i < n
        invariant
            i <= n,
            forall|j: int| 0 <= j < i ==> (#[trigger] tools@[j]).name@ != name@,
        decreases n - i,
    {
        if tools[i].name == *name {
            proof {
                lemma_tool_index_found(tools@, name@, i as int);
            }
            return Some(i);
        }
        i += 1;
    }
    proof {
        lemma_tool_index_missing(tools@, name@);
    }
    None
}

} // verus!

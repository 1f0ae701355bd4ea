//! The prompt assembler: ordered segments built up into one outbound
//! request.
//!
//! A `ThinkBuilder` accumulates prompt segments and tool declarations and is
//! consumed exactly once: finalizing moves it into a `ThinkRequest`, whose
//! prompt is the segments' texts concatenated left to right. Ownership makes
//! reuse after finalization impossible.

use vstd::prelude::*;
use vstd::string::StringExecFns;

use crate::error::Error;
use crate::tools::{ToolSpec, find_tool, has_tool, distinct_tool_names};

verus! {

broadcast use vstd::std_specs::vec::group_vec_axioms;

/// One ordered piece of the prompt.
#[derive(Debug, PartialEq)]
pub enum PromptSegment {
    /// Literal prompt text.
    Literal(String),
    /// A value interpolated through its human-readable display form,
    /// rendered by the caller before it reaches the assembler.
    Rendered(String),
}

/// The text a segment contributes to the prompt.
pub open spec fn segment_text(s: PromptSegment) -> Seq<char> {
    match s {
        PromptSegment::Literal(t) => t@,
        PromptSegment::Rendered(t) => t@,
    }
}

/// The prompt an ordered run of segments denotes: their texts concatenated
/// left to right.
pub open spec fn concat_segments(segs: Seq<PromptSegment>) -> Seq<char>
    decreases segs.len(),
{
    if segs.len() == 0 {
        Seq::empty()
    } else {
        concat_segments(segs.drop_last()) + segment_text(segs.last())
    }
}

/// A finalized interaction request: the assembled prompt and the tool
/// manifest that travels with it.
#[derive(Debug, PartialEq)]
pub struct ThinkRequest {
    /// The concatenated prompt text.
    pub prompt: String,
    /// The registered tools, in registration order.
    pub tools: Vec<ToolSpec>,
}

/// Accumulates prompt segments and tool declarations for one interaction.
#[derive(Debug, PartialEq)]
pub struct ThinkBuilder {
    /// The segments appended so far, in append order.
    pub segments: Vec<PromptSegment>,
    /// The tools registered so far, in registration order.
    pub tools: Vec<ToolSpec>,
}

impl ThinkBuilder {
    /// An empty builder: no segments, no tools.
    pub fn new() -> (r: ThinkBuilder)
        ensures
            r.segments@ == Seq::<PromptSegment>::empty(),
            r.tools@ == Seq::<ToolSpec>::empty(),
    {
        ThinkBuilder { segments: Vec::new(), tools: Vec::new() }
    }

    /// Appends a literal text segment.
    pub fn text(self, t: String) -> (r: ThinkBuilder)
        ensures
            r.segments@ == self.segments@.push(PromptSegment::Literal(t)),
            r.tools@ == self.tools@,
    {
        let mut b = self;
        b.segments.push(PromptSegment::Literal(t));
        b
    }

    /// Appends a rendered segment: the display form of a value, for
    /// human-readable interpolation rather than structured tool input.
    pub fn display(self, t: String) -> (r: ThinkBuilder)
        ensures
            r.segments@ == self.segments@.push(PromptSegment::Rendered(t)),
            r.tools@ == self.tools@,
    {
        let mut b = self;
        b.segments.push(PromptSegment::Rendered(t));
        b
    }

    /// Registers a tool. Registration fails exactly when the name is
    /// already taken in this builder.
    pub fn tool(self, spec_of_tool: ToolSpec) -> (r: Result<ThinkBuilder, Error>)
        ensures
            match r {
                Ok(b) => !has_tool(self.tools@, spec_of_tool.name@)
                    && b.segments@ == self.segments@
                    && b.tools@ == self.tools@.push(spec_of_tool)
                    && (distinct_tool_names(self.tools@) ==> distinct_tool_names(b.tools@)),
                Err(e) => has_tool(self.tools@, spec_of_tool.name@)
                    && (e matches Error::Tool(m) && m@ == duplicate_tool_message(
                    spec_of_tool.name@)),
            },
    {
        if find_tool(&self.tools, &spec_of_tool.name).is_some() {
            let mut m = String::new();
            m.append("a tool is already registered under the name: ");
            m.append(spec_of_tool.name.as_str());
            Err(Error::Tool(m))
        } else {
            let mut b = self;
            proof {
                let pushed = b.tools@.push(spec_of_tool);
                if distinct_tool_names(b.tools@) {
                    assert forall|i: int, j: int| 0 <= i < j < pushed.len() implies (
                    #[trigger] pushed[i]).name@ != (#[trigger] pushed[j]).name@ by {
                        if j < b.tools@.len() {
                            assert(pushed[i] == b.tools@[i]);
                            assert(pushed[j] == b.tools@[j]);
                        } else {
                            assert(pushed[i] == b.tools@[i]);
                            assert(pushed[j] == spec_of_tool);
                        }
                    }
                }
            }
            b.tools.push(spec_of_tool);
            Ok(b)
        }
    }

    /// Finalizes the builder into the outbound request. The prompt is the
    /// segments' texts concatenated left to right; the tool manifest is the
    /// registration order unchanged.
    #[verifier::loop_isolation(false)]
    pub fn finalize(self) -> (r: ThinkRequest)
        ensures
            r.prompt@ == concat_segments(self.segments@),
            r.tools@ == self.tools@,
    {
        let ThinkBuilder { segments, tools } = self;
        let mut prompt = String::new();
        let n: usize = segments.len();
        let mut i: usize = 0;
        while i < n
            invariant
                i <= n,
                prompt@ == concat_segments(segments@.take(i as int)),
            decreases n - i,
        {
            match &segments[i] {
                PromptSegment::Literal(t) => prompt.append(t.as_str()),
                PromptSegment::Rendered(t) => prompt.append(t.as_str()),
            }
            proof {
                let pre = segments@.take(i as int);
                let post = segments@.take(i as int + 1);
                assert(post.drop_last() =~= pre);
                assert(post.last() == segments@[i as int]);
            }
            i += 1;
        }
        proof {
            assert(segments@.take(n as int) =~= segments@);
        }
        ThinkRequest { prompt, tools }
    }
}

/// The message reported when a tool name is registered twice.
pub open spec fn duplicate_tool_message(name: Seq<char>) -> Seq<char> {
    "a tool is already registered under the name: "@ + name
}

} // verus!

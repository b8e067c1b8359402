//! Extraction of an optional reasoning segment, a content segment and a
//! sequence of tool calls from the raw text a language model produced,
//! each region being bounded by caller-chosen marker strings.
use vstd::prelude::*;

pub mod scan;
pub mod tool;
pub mod response;
pub mod laws;

verus! {

/// A tool invocation decoded from a JSON payload.
#[derive(Clone, Debug, PartialEq, Eq)]
pub struct ToolCall {
    pub name: String,
    pub arguments: Vec<(String, String)>,
}

/// The marker pairs the model is expected to use: an optional pair around the
/// reasoning segment and a required pair around each tool call.
#[derive(Debug, PartialEq, Eq)]
pub struct Delims {
    pub reasoning: Option<(String, String)>,
    pub tool_call: (String, String),
}

/// The structured result of parsing a model's output.
#[derive(Clone, Debug, PartialEq, Eq)]
pub struct Response {
    pub reasoning: Option<String>,
    pub content: String,
    pub tool_calls: Vec<ToolCall>,
}

/// Mathematical form of a `ToolCall`.
pub struct ToolCallView {
    pub name: Seq<char>,
    pub arguments: Seq<(Seq<char>, Seq<char>)>,
}

/// Mathematical form of a `Delims`.
pub struct DelimsView {
    pub reasoning: Option<(Seq<char>, Seq<char>)>,
    pub tool_call: (Seq<char>, Seq<char>),
}

/// Mathematical form of a `Response`.
pub struct ResponseView {
    pub reasoning: Option<Seq<char>>,
    pub content: Seq<char>,
    pub tool_calls: Seq<ToolCallView>,
}

/// The characters of each string of a list of string pairs.
pub open spec fn pairs_view(v: Seq<(String, String)>) -> Seq<(Seq<char>, Seq<char>)> {
    v.map_values(|e: (String, String)| (e.0@, e.1@))
}

impl View for ToolCall {
    type V = ToolCallView;

    open spec fn view(&self) -> ToolCallView {
        ToolCallView { name: self.name@, arguments: pairs_view(self.arguments@) }
    }
}

impl View for Delims {
    type V = DelimsView;

    open spec fn view(&self) -> DelimsView {
        DelimsView {
            reasoning: match self.reasoning {
                Some(p) => Some((p.0@, p.1@)),
                None => None,
            },
            tool_call: (self.tool_call.0@, self.tool_call.1@),
        }
    }
}

impl View for Response {
    type V = ResponseView;

    open spec fn view(&self) -> ResponseView {
        ResponseView {
            reasoning: match self.reasoning {
                Some(r) => Some(r@),
                None => None,
            },
            content: self.content@,
            tool_calls: self.tool_calls@.map_values(|t: ToolCall| t@),
        }
    }
}

} // verus!

//! General facts about `parse`, stated over its specification.
use vstd::prelude::*;
use crate::scan::{first_from, lemma_first_from, occurs_at};
use crate::response::{fallback, parse_spec, reasoning_spec};
use crate::DelimsView;

verus! {

/// Without markers, the whole text is the content, with no reasoning and no
/// tool calls.
pub proof fn parse_without_delims(s: Seq<char>)
    ensures
        parse_spec(s, None) == fallback(s),
{
}

/// Where the tool-call start marker occurs nowhere in the text, the whole
/// text comes back as content.
pub proof fn missing_tool_marker_falls_back(s: Seq<char>, d: DelimsView)
    requires
        forall|i: int| !occurs_at(s, d.tool_call.0, i),
    ensures
        parse_spec(s, Some(d)) == fallback(s),
{
    if let Some((_, pos)) = reasoning_spec(s, d) {
        if pos >= 0 {
            lemma_first_from(s, d.tool_call.0, pos);
        }
    }
}

/// Where the reasoning start marker occurs but its end marker occurs nowhere,
/// no partial reading is returned: the whole text comes back as content.
pub proof fn unclosed_reasoning_falls_back(s: Seq<char>, d: DelimsView, rs: Seq<char>, re: Seq<char>)
    requires
        d.reasoning == Some((rs, re)),
        exists|i: int| occurs_at(s, rs, i),
        forall|i: int| !occurs_at(s, re, i),
    ensures
        parse_spec(s, Some(d)) == fallback(s),
{
    lemma_first_from(s, rs, 0);
    let w = choose|i: int| occurs_at(s, rs, i);
    assert(first_from(s, rs, 0) is Some) by {
        if first_from(s, rs, 0) is None {
            assert(!occurs_at(s, rs, w));
        }
    }
    let i = first_from(s, rs, 0)->0;
    lemma_first_from(s, re, i + rs.len());
}

/// Where the reasoning start marker occurs nowhere, there is no reasoning and
/// the rest reads as if no reasoning markers had been given.
pub proof fn absent_reasoning_is_skipped(s: Seq<char>, d: DelimsView, rs: Seq<char>, re: Seq<char>)
    requires
        d.reasoning == Some((rs, re)),
        forall|i: int| !occurs_at(s, rs, i),
    ensures
        parse_spec(s, Some(d)) == parse_spec(s, Some(DelimsView { reasoning: None, tool_call: d.tool_call })),
        parse_spec(s, Some(d)).reasoning is None,
{
    lemma_first_from(s, rs, 0);
}

/// Parsing the same text under the same markers twice gives the same
/// response.
pub proof fn parse_is_deterministic(s: Seq<char>, d: Option<DelimsView>, a: crate::ResponseView, b: crate::ResponseView)
    requires
        a == parse_spec(s, d),
        b == parse_spec(s, d),
    ensures
        a == b,
{
}

} // verus!

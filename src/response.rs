//! Assembly of a whole response from reasoning, content and tool-call
//! regions, with a verbatim fallback when the text does not fit.
use vstd::prelude::*;
use crate::scan::{between, chars_of, find_from, first_from, lemma_between_bounds, lemma_first_from, spans_from};
use crate::tool::{decode_spec, parse_args};
use crate::{Delims, DelimsView, Response, ResponseView};

verus! {

/// The response that carries the whole text as content.
pub open spec fn fallback(s: Seq<char>) -> ResponseView {
    ResponseView { reasoning: None, content: s, tool_calls: seq![] }
}

/// The reasoning segment and the position where content starts; `None` where
/// the reasoning start marker is present but not closed.
pub open spec fn reasoning_spec(s: Seq<char>, d: DelimsView) -> Option<(Option<Seq<char>>, int)> {
    match d.reasoning {
        None => Some((None, 0)),
        Some((rs, re)) => match first_from(s, rs, 0) {
            None => Some((None, 0)),
            Some(i) => match first_from(s, re, i + rs.len()) {
                None => None,
                Some(j) => Some((Some(s.subrange(i + rs.len(), j)), j + re.len())),
            },
        },
    }
}

/// The structured reading of `s` under `d`; `None` where the text does not
/// fit the markers.
pub open spec fn assemble_spec(s: Seq<char>, d: DelimsView) -> Option<ResponseView> {
    let (ts, te) = d.tool_call;
    match reasoning_spec(s, d) {
        None => None,
        Some((reasoning, pos)) => match first_from(s, ts, pos) {
            None => None,
            Some(k) => if ts.len() == 0 && te.len() == 0 {
                None
            } else {
                Some(ResponseView {
                    reasoning,
                    content: s.subrange(pos, k),
                    tool_calls: spans_from(s, ts, te, k).map_values(|t: Seq<char>| decode_spec(t)),
                })
            },
        },
    }
}

/// What `parse` returns for `s` under the optional markers `d`.
pub open spec fn parse_spec(s: Seq<char>, d: Option<DelimsView>) -> ResponseView {
    match d {
        None => fallback(s),
        Some(d) => match assemble_spec(s, d) {
            Some(r) => r,
            None => fallback(s),
        },
    }
}

pub open spec fn delims_view(d: Option<Delims>) -> Option<DelimsView> {
    match d {
        Some(d) => Some(d@),
        None => None,
    }
}

/// Reads `input` as a reasoning segment, a content segment and the tool calls
/// that follow; `None` where a required marker is missing.
pub fn assemble(input: &str, delims: &Delims) -> (r: Option<Response>)
    ensures
        match r {
            Some(r) => assemble_spec(input@, delims@) == Some(r@),
            None => assemble_spec(input@, delims@) is None,
        },
{
    let s = chars_of(input);
    let ts = chars_of(delims.tool_call.0.as_str());
    let te = chars_of(delims.tool_call.1.as_str());
    let (reasoning, pos): (Option<String>, usize) = match &delims.reasoning {
        None => (None, 0),
        Some(pair) => {
            let rs = chars_of(pair.0.as_str());
            let re = chars_of(pair.1.as_str());
            match find_from(&s, &rs, 0) {
                None => (None, 0),
                Some(i) => match find_from(&s, &re, i + rs.len()) {
                    None => return None,
                    Some(j) => {
                        proof {
                            lemma_first_from(s@, re@, i + rs.len());
                        }
                        (Some(input.substring_char(i + rs.len(), j).to_owned()), j + re.len())
                    },
                },
            }
        },
    };
    assert(reasoning_spec(input@, delims@) == Some((
        match reasoning {
            Some(x) => Some(x@),
            None => None,
        },
        pos as int,
    )));
    let k = match find_from(&s, &ts, pos) {
        Some(k) => k,
        None => return None,
    };
    if ts.len() == 0 && te.len() == 0 {
        return None;
    }
    proof {
        lemma_first_from(s@, ts@, pos as int);
    }
    let content = input.substring_char(pos, k).to_owned();
    let mut spans: Vec<String> = Vec::new();
    let mut cur: usize = k;
    loop
        invariant
            s@ == input@,
            ts.len() + te.len() > 0,
            k <= cur <= s.len(),
            spans_from(s@, ts@, te@, k as int)
                == spans@.map_values(|x: String| x@) + spans_from(s@, ts@, te@, cur as int),
        ensures
            spans_from(s@, ts@, te@, k as int) == spans@.map_values(|x: String| x@),
        decreases s.len() + 1 - cur,
    {
        match between(&s, &ts, &te, cur) {
            None => {
                assert(spans@.map_values(|x: String| x@) + spans_from(s@, ts@, te@, cur as int)
                    =~= spans@.map_values(|x: String| x@));
                break;
            },
            Some((a, b, c)) => {
                proof {
                    lemma_between_bounds(s@, ts@, te@, cur as int);
                }
                let ghost prev = spans@;
                spans.push(input.substring_char(a, b).to_owned());
                proof {
                    assert(spans@.map_values(|x: String| x@)
                        =~= prev.map_values(|x: String| x@).push(s@.subrange(a as int, b as int)));
                    assert(spans_from(s@, ts@, te@, cur as int)
                        == seq![s@.subrange(a as int, b as int)] + spans_from(s@, ts@, te@, c as int));
                    assert(prev.map_values(|x: String| x@) + spans_from(s@, ts@, te@, cur as int)
                        =~= spans@.map_values(|x: String| x@) + spans_from(s@, ts@, te@, c as int));
                }
                cur = c;
            },
        }
    }
    let tool_calls = parse_args(&spans);
    let r = Response { reasoning, content, tool_calls };
    proof {
        let ghost sv = spans_from(s@, ts@, te@, k as int);
        assert(sv =~= spans@.map_values(|x: String| x@));
        assert forall|i: int| 0 <= i < sv.len() implies r@.tool_calls[i] == decode_spec(sv[i]) by {
            assert(sv[i] == spans@[i]@);
        }
        assert(r@.tool_calls =~= spans_from(s@, ts@, te@, k as int).map_values(|t: Seq<char>| decode_spec(t)));
    }
    Some(r)
}

/// Parses a model's output under the optional markers. Without markers, or
/// where the text does not fit them, the whole text comes back as content
/// with no reasoning and no tool calls.
pub fn parse(response: String, delims: Option<Delims>) -> (r: Response)
    ensures
        r@ == parse_spec(response@, delims_view(delims)),
{
    let parsed = match &delims {
        Some(d) => assemble(response.as_str(), d),
        None => None,
    };
    match parsed {
        Some(r) => r,
        None => {
            let r = Response { reasoning: None, content: response, tool_calls: Vec::new() };
            assert(r@.tool_calls =~= fallback(response@).tool_calls);
            r
        },
    }
}

} // verus!

//! Decoding of one tool-call payload: a JSON object with a string `name` and
//! an object `arguments` whose values are strings.
use vstd::prelude::*;
use crate::{pairs_view, ToolCall, ToolCallView};

verus! {

/// The members of a JSON object text, in key order, each value as its JSON
/// text; `None` where the text is not one JSON object.
pub uninterp spec fn json_object_members(text: Seq<char>) -> Option<Seq<(Seq<char>, Seq<char>)>>;

/// The string a JSON string text denotes; `None` where the text is not one
/// JSON string.
pub uninterp spec fn json_string_value(text: Seq<char>) -> Option<Seq<char>>;

/// Relies on `serde_json::from_str` into a `BTreeMap<String, Box<RawValue>>`:
/// it succeeds exactly on the texts of one JSON object, keeping each member's
/// value as raw JSON text.
#[verifier::external_body]
fn object_members(text: &str) -> (r: Option<Vec<(String, String)>>)
    ensures
        r is Some <==> json_object_members(text@) is Some,
        r matches Some(v) ==> pairs_view(v@) == json_object_members(text@)->0,
{
    serde_json::from_str::<std::collections::BTreeMap<String, Box<serde_json::value::RawValue>>>(text)
        .ok()
        .map(|m| m.into_iter().map(|(k, v)| (k, v.get().to_string())).collect())
}

/// Relies on `serde_json::from_str` into a `String`: it succeeds exactly on
/// the texts of one JSON string, and gives that string with escapes decoded.
#[verifier::external_body]
fn string_value(text: &str) -> (r: Option<String>)
    ensures
        r is Some <==> json_string_value(text@) is Some,
        r matches Some(s) ==> s@ == json_string_value(text@)->0,
{
    serde_json::from_str::<String>(text).ok()
}

/// The value of the first member named `key`.
pub open spec fn member(members: Seq<(Seq<char>, Seq<char>)>, key: Seq<char>) -> Option<Seq<char>>
    decreases members.len(),
{
    if members.len() == 0 {
        None
    } else if members[0].0 == key {
        Some(members[0].1)
    } else {
        member(members.drop_first(), key)
    }
}

/// The members with each value decoded as a JSON string; `None` where one of
/// them is not a JSON string.
pub open spec fn string_members(members: Seq<(Seq<char>, Seq<char>)>) -> Option<Seq<(Seq<char>, Seq<char>)>> {
    if forall|i: int| 0 <= i < members.len() ==> (#[trigger] json_string_value(members[i].1)) is Some {
        Some(members.map_values(|m: (Seq<char>, Seq<char>)| (m.0, json_string_value(m.1)->0)))
    } else {
        None
    }
}

/// The tool call that stands for a payload that could not be decoded.
pub open spec fn placeholder() -> ToolCallView {
    ToolCallView { name: seq![], arguments: seq![] }
}

pub open spec fn name_key() -> Seq<char> {
    seq!['n', 'a', 'm', 'e']
}

pub open spec fn arguments_key() -> Seq<char> {
    seq!['a', 'r', 'g', 'u', 'm', 'e', 'n', 't', 's']
}

/// The tool call that a payload text decodes to.
pub open spec fn decode_spec(text: Seq<char>) -> ToolCallView {
    match json_object_members(text) {
        None => placeholder(),
        Some(members) => match (member(members, name_key()), member(members, arguments_key())) {
            (Some(n), Some(a)) => match (json_string_value(n), json_object_members(a)) {
                (Some(name), Some(args)) => match string_members(args) {
                    Some(arguments) => ToolCallView { name, arguments },
                    None => placeholder(),
                },
                _ => placeholder(),
            },
            _ => placeholder(),
        },
    }
}

/// The value of the first member named `key`.
pub fn member_value(members: &Vec<(String, String)>, key: &String) -> (r: Option<String>)
    ensures
        match r {
            Some(v) => member(pairs_view(members@), key@) == Some(v@),
            None => member(pairs_view(members@), key@) is None,
        },
{
    let mut i: usize = 0;
    assert(pairs_view(members@).skip(0) =~= pairs_view(members@));
    while i < members.len()
        invariant
            i <= members.len(),
            member(pairs_view(members@), key@) == member(pairs_view(members@).skip(i as int), key@),
        decreases members.len() - i,
    {
        let ghost rest = pairs_view(members@).skip(i as int);
        assert(rest.drop_first() =~= pairs_view(members@).skip(i + 1));
        if members[i].0 == *key {
            return Some(members[i].1.clone());
        }
        i = i + 1;
    }
    None
}

/// The members with each value decoded as a JSON string; `None` where one of
/// them is not a JSON string.
pub fn decode_string_members(members: Vec<(String, String)>) -> (r: Option<Vec<(String, String)>>)
    ensures
        match r {
            Some(v) => string_members(pairs_view(members@)) == Some(pairs_view(v@)),
            None => string_members(pairs_view(members@)) is None,
        },
{
    let ghost m = pairs_view(members@);
    let mut out: Vec<(String, String)> = Vec::new();
    let mut i: usize = 0;
    while i < members.len()
        invariant
            m == pairs_view(members@),
            i <= members.len(),
            out.len() == i,
            forall|k: int| 0 <= k < i ==> (#[trigger] json_string_value(m[k].1)) is Some,
            forall|k: int| 0 <= k < i ==> (#[trigger] out@[k]).0@ == m[k].0 && out@[k].1@ == json_string_value(m[k].1)->0,
        decreases members.len() - i,
    {
        match string_value(members[i].1.as_str()) {
            Some(v) => {
                out.push((members[i].0.clone(), v));
            },
            None => {
                assert(json_string_value(m[i as int].1) is None);
                return None;
            },
        }
        i = i + 1;
    }
    assert(pairs_view(out@) =~= m.map_values(|e: (Seq<char>, Seq<char>)| (e.0, json_string_value(e.1)->0)));
    Some(out)
}

/// Decodes one tool-call payload; a payload that is not a JSON object with a
/// string `name` and an `arguments` object of strings gives a call with an
/// empty name and no arguments.
pub fn decode_tool(text: &str) -> (r: ToolCall)
    ensures
        r@ == decode_spec(text@),
{
    let empty = ToolCall { name: String::new(), arguments: Vec::new() };
    proof {
        assert(empty@.name =~= placeholder().name);
        assert(empty@.arguments =~= placeholder().arguments);
    }
    let members = match object_members(text) {
        Some(m) => m,
        None => return empty,
    };
    let name_k = "name".to_owned();
    let args_k = "arguments".to_owned();
    proof {
        reveal_strlit("name");
        reveal_strlit("arguments");
        assert(name_k@ =~= name_key());
        assert(args_k@ =~= arguments_key());
    }
    let (raw_name, raw_args) = match (member_value(&members, &name_k), member_value(&members, &args_k)) {
        (Some(n), Some(a)) => (n, a),
        _ => return empty,
    };
    let (name, arg_members) = match (string_value(raw_name.as_str()), object_members(raw_args.as_str())) {
        (Some(n), Some(a)) => (n, a),
        _ => return empty,
    };
    match decode_string_members(arg_members) {
        Some(arguments) => ToolCall { name, arguments },
        None => empty,
    }
}

/// Decodes each captured payload in turn.
pub fn parse_args(spans: &Vec<String>) -> (r: Vec<ToolCall>)
    ensures
        r@.map_values(|t: ToolCall| t@) == spans@.map_values(|s: String| decode_spec(s@)),
{
    let mut out: Vec<ToolCall> = Vec::new();
    let mut i: usize = 0;
    while i < spans.len()
        invariant
            i <= spans.len(),
            out@.map_values(|t: ToolCall| t@) == spans@.take(i as int).map_values(|s: String| decode_spec(s@)),
        decreases spans.len() - i,
    {
        let t = decode_tool(spans[i].as_str());
        let ghost prev = out@;
        out.push(t);
        proof {
            assert(spans@.take(i + 1) =~= spans@.take(i as int).push(spans@[i as int]));
            assert(out@.map_values(|t: ToolCall| t@) =~= prev.map_values(|t: ToolCall| t@).push(t@));
            assert(out@.map_values(|t: ToolCall| t@) =~= spans@.take(i + 1).map_values(|s: String| decode_spec(s@)));
        }
        i = i + 1;
    }
    assert(spans@.take(i as int) =~= spans@);
    out
}

} // verus!

use promptrs_parser::response::{assemble, parse};
use promptrs_parser::scan::{between, chars_of, find_from};
use promptrs_parser::tool::{decode_string_members, decode_tool, member_value, parse_args};
use promptrs_parser::{Delims, Response, ToolCall};

fn delims(reasoning: Option<(&str, &str)>, tool_call: (&str, &str)) -> Delims {
    Delims {
        reasoning: reasoning.map(|(a, b)| (a.to_string(), b.to_string())),
        tool_call: (tool_call.0.to_string(), tool_call.1.to_string()),
    }
}

fn standard() -> Option<Delims> {
    Some(delims(Some(("<R>", "</R>")), ("<T>", "</T>")))
}

fn fallback(s: &str) -> Response {
    Response { reasoning: None, content: s.to_string(), tool_calls: vec![] }
}

fn call(name: &str, args: &[(&str, &str)]) -> ToolCall {
    ToolCall {
        name: name.to_string(),
        arguments: args.iter().map(|(k, v)| (k.to_string(), v.to_string())).collect(),
    }
}

#[test]
fn no_delims_returns_text_verbatim() {
    for s in ["", "plain", "a<T>{}</T>b", "<R>x</R>"] {
        assert_eq!(parse(s.to_string(), None), fallback(s));
    }
}

#[test]
fn missing_tool_start_falls_back() {
    let s = "pre<R>thinking</R>no calls here";
    assert_eq!(parse(s.to_string(), standard()), fallback(s));
    assert_eq!(parse(String::new(), standard()), fallback(""));
}

#[test]
fn full_example() {
    let s = "pre<R>thinking</R>mid<T>{\"name\":\"f\",\"arguments\":{\"a\":\"1\"}}</T>post";
    let r = parse(s.to_string(), standard());
    assert_eq!(r.reasoning, Some("thinking".to_string()));
    assert_eq!(r.content, "mid");
    assert_eq!(r.tool_calls, vec![call("f", &[("a", "1")])]);
}

#[test]
fn two_consecutive_calls_in_order() {
    let s = "c<T>{\"name\":\"first\",\"arguments\":{}}</T><T>{\"name\":\"second\",\"arguments\":{\"x\":\"y\"}}</T>";
    let r = parse(s.to_string(), Some(delims(None, ("<T>", "</T>"))));
    assert_eq!(r.reasoning, None);
    assert_eq!(r.content, "c");
    assert_eq!(r.tool_calls, vec![call("first", &[]), call("second", &[("x", "y")])]);
}

#[test]
fn invalid_payload_gives_placeholder_beside_valid_one() {
    let s = "c<T>not json</T>between<T>{\"name\":\"g\",\"arguments\":{\"k\":\"v\"}}</T>";
    let r = parse(s.to_string(), Some(delims(None, ("<T>", "</T>"))));
    assert_eq!(r.content, "c");
    assert_eq!(r.tool_calls, vec![call("", &[]), call("g", &[("k", "v")])]);
}

#[test]
fn unclosed_reasoning_falls_back() {
    let s = "<R>thinking without end<T>{\"name\":\"f\",\"arguments\":{}}</T>";
    assert_eq!(parse(s.to_string(), standard()), fallback(s));
}

#[test]
fn absent_reasoning_marker_is_skipped() {
    let s = "hello<T>{\"name\":\"f\",\"arguments\":{\"a\":\"1\"}}</T>";
    let r = parse(s.to_string(), standard());
    assert_eq!(r.reasoning, None);
    assert_eq!(r.content, "hello");
    assert_eq!(r.tool_calls, vec![call("f", &[("a", "1")])]);
    assert_eq!(r, parse(s.to_string(), Some(delims(None, ("<T>", "</T>")))));
}

#[test]
fn parsing_twice_gives_same_response() {
    let s = "pre<R>t</R>m<T>{\"name\":\"f\",\"arguments\":{\"b\":\"2\",\"a\":\"1\",\"c\":\"3\"}}</T>";
    assert_eq!(parse(s.to_string(), standard()), parse(s.to_string(), standard()));
}

#[test]
fn start_marker_without_end_gives_no_calls() {
    let s = "content<T>{\"name\":\"f\"";
    let r = parse(s.to_string(), standard());
    assert_eq!(r, Response { reasoning: None, content: "content".to_string(), tool_calls: vec![] });
}

#[test]
fn empty_tool_markers_fall_back() {
    let s = "abc";
    assert_eq!(parse(s.to_string(), Some(delims(None, ("", "")))), fallback(s));
}

#[test]
fn content_is_empty_when_marker_leads() {
    let r = parse("<T>{\"name\":\"f\",\"arguments\":{}}</T>".to_string(), standard());
    assert_eq!(r.content, "");
    assert_eq!(r.tool_calls, vec![call("f", &[])]);
}

#[test]
fn text_after_reasoning_and_between_calls_is_dropped() {
    let s = "<R>r</R>c<T>{\"name\":\"a\",\"arguments\":{}}</T>junk<T>{\"name\":\"b\",\"arguments\":{}}</T>tail";
    let r = parse(s.to_string(), standard());
    assert_eq!(r.reasoning, Some("r".to_string()));
    assert_eq!(r.content, "c");
    assert_eq!(r.tool_calls, vec![call("a", &[]), call("b", &[])]);
}

#[test]
fn non_ascii_text_is_scanned_by_characters() {
    let s = "ré<R>pensée</R>ça<T>{\"name\":\"é\",\"arguments\":{\"ü\":\"ß\"}}</T>";
    let r = parse(s.to_string(), standard());
    assert_eq!(r.reasoning, Some("pensée".to_string()));
    assert_eq!(r.content, "ça");
    assert_eq!(r.tool_calls, vec![call("é", &[("ü", "ß")])]);
}

#[test]
fn markers_are_case_sensitive_literals() {
    let s = "x<t>{}</t>";
    assert_eq!(parse(s.to_string(), Some(delims(None, ("<T>", "</T>")))), fallback(s));
    let s = "a.*b<T>{\"name\":\"f\",\"arguments\":{}}</T>";
    let r = parse(s.to_string(), Some(delims(Some((".*", "b")), ("<T>", "</T>"))));
    assert_eq!(r.reasoning, Some("".to_string()));
    assert_eq!(r.content, "");
}

#[test]
fn assemble_reports_missing_markers() {
    let d = delims(Some(("<R>", "</R>")), ("<T>", "</T>"));
    assert!(assemble("no markers", &d).is_none());
    assert!(assemble("<R>open<T>x</T>", &d).is_none());
    let r = assemble("a<T>", &d).unwrap();
    assert_eq!(r.content, "a");
    assert!(r.tool_calls.is_empty());
}

#[test]
fn decode_tool_accepts_well_formed_payload() {
    let t = decode_tool(" { \"name\" : \"search\", \"arguments\" : {\"q\":\"rust\",\"lang\":\"en\"}, \"id\": 7 } ");
    assert_eq!(t.name, "search");
    let mut args = t.arguments.clone();
    args.sort();
    assert_eq!(args, vec![("lang".to_string(), "en".to_string()), ("q".to_string(), "rust".to_string())]);
}

#[test]
fn decode_tool_decodes_escapes() {
    let t = decode_tool("{\"name\":\"f\\u0041\",\"arguments\":{\"k\":\"a\\nb\"}}");
    assert_eq!(t, call("fA", &[("k", "a\nb")]));
}

#[test]
fn decode_tool_rejects_malformed_payloads() {
    for p in [
        "",
        "[]",
        "{\"name\":\"f\"}",
        "{\"arguments\":{}}",
        "{\"name\":1,\"arguments\":{}}",
        "{\"name\":\"f\",\"arguments\":[]}",
        "{\"name\":\"f\",\"arguments\":{\"a\":1}}",
        "{\"name\":\"f\",\"arguments\":{}} trailing",
    ] {
        assert_eq!(decode_tool(p), call("", &[]), "payload {p}");
    }
}

#[test]
fn parse_args_keeps_order() {
    let spans = vec![
        "{\"name\":\"b\",\"arguments\":{}}".to_string(),
        "bad".to_string(),
        "{\"name\":\"a\",\"arguments\":{}}".to_string(),
    ];
    assert_eq!(parse_args(&spans), vec![call("b", &[]), call("", &[]), call("a", &[])]);
}

#[test]
fn member_value_finds_first_match() {
    let members = vec![
        ("x".to_string(), "1".to_string()),
        ("name".to_string(), "\"n\"".to_string()),
        ("name".to_string(), "\"m\"".to_string()),
    ];
    assert_eq!(member_value(&members, &"name".to_string()), Some("\"n\"".to_string()));
    assert_eq!(member_value(&members, &"y".to_string()), None);
}

#[test]
fn decode_string_members_requires_strings() {
    let ok = vec![("a".to_string(), "\"1\"".to_string())];
    assert_eq!(decode_string_members(ok), Some(vec![("a".to_string(), "1".to_string())]));
    let bad = vec![("a".to_string(), "\"1\"".to_string()), ("b".to_string(), "true".to_string())];
    assert_eq!(decode_string_members(bad), None);
}

#[test]
fn between_scans_sequential_spans() {
    let s = chars_of("x[ab]y[c]");
    let (open, close) = (chars_of("["), chars_of("]"));
    assert_eq!(between(&s, &open, &close, 0), Some((2, 4, 5)));
    assert_eq!(between(&s, &open, &close, 5), Some((7, 8, 9)));
    assert_eq!(between(&s, &open, &close, 9), None);
    assert_eq!(between(&chars_of("x[ab"), &open, &close, 0), None);
}

#[test]
fn find_from_gives_first_occurrence() {
    let s = chars_of("abcabc");
    assert_eq!(find_from(&s, &chars_of("bc"), 0), Some(1));
    assert_eq!(find_from(&s, &chars_of("bc"), 2), Some(4));
    assert_eq!(find_from(&s, &chars_of("bd"), 0), None);
    assert_eq!(find_from(&s, &chars_of(""), 3), Some(3));
    assert_eq!(find_from(&s, &chars_of("c"), 10), None);
}

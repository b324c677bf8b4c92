use serde_json::{Number, Value};
use shellchat::extractor::{
    extract_arguments, extract_tool_call, find_tool_name, is_tool_call, parse_call_document,
};
use shellchat::strings::chars_of;

fn object(members: Vec<(&str, Value)>) -> Value {
    let mut map = serde_json::Map::new();
    for (key, value) in members {
        map.insert(key.to_string(), value);
    }
    Value::Object(map)
}

fn text(s: &str) -> Value {
    Value::String(s.to_string())
}

#[test]
fn plain_text_is_no_tool_call() {
    assert!(extract_tool_call("The weather is fine.").is_none());
    assert!(!is_tool_call("The weather is fine."));
    assert!(extract_tool_call("").is_none());
}

#[test]
fn text_that_only_mentions_the_word_tool_is_no_tool_call() {
    assert!(extract_tool_call("Which tool: a hammer?").is_none());
    assert!(extract_tool_call("{\"tools\": \"x\"}").is_none());
    assert!(extract_tool_call("{\"tool\" \"x\"}").is_none());
}

#[test]
fn bare_call_gives_name_and_arguments() {
    let call = extract_tool_call("{\"tool\":\"weather\",\"arguments\":{\"city\":\"Paris\"}}")
        .expect("a tool call");
    assert_eq!(call.tool_name, "weather");
    assert_eq!(call.arguments.value, object(vec![("city", text("Paris"))]));
}

#[test]
fn bare_call_keeps_nested_arguments_exactly() {
    let response = "{\"tool\": \"search\", \"arguments\": {\"q\": \"rust\", \"limit\": 3, \"tags\": [\"a\", \"b\"], \"deep\": {\"x\": null, \"y\": true}}}";
    let call = extract_tool_call(response).expect("a tool call");
    assert_eq!(call.tool_name, "search");
    let expected = object(vec![
        ("q", text("rust")),
        ("limit", Value::Number(Number::from(3u64))),
        ("tags", Value::Array(vec![text("a"), text("b")])),
        ("deep", object(vec![("x", Value::Null), ("y", Value::Bool(true))])),
    ]);
    assert_eq!(call.arguments.value, expected);
}

#[test]
fn call_fenced_as_json_gives_name_and_arguments() {
    let response =
        "I will look that up.\n```json\n{\"tool\":\"weather\",\"arguments\":{\"city\":\"Paris\"}}\n```\nOne moment.";
    let call = extract_tool_call(response).expect("a tool call");
    assert_eq!(call.tool_name, "weather");
    assert_eq!(call.arguments.value, object(vec![("city", text("Paris"))]));
}

#[test]
fn call_in_a_fence_without_tag_gives_name_and_arguments() {
    let response = "```\n{\"tool\":\"list\",\"arguments\":{\"dir\":\"/tmp\"}}\n```";
    let call = extract_tool_call(response).expect("a tool call");
    assert_eq!(call.tool_name, "list");
    assert_eq!(call.arguments.value, object(vec![("dir", text("/tmp"))]));
}

#[test]
fn call_inside_prose_is_cut_out_between_the_braces() {
    let response = "Let me call {\"tool\":\"list\",\"arguments\":{\"dir\":\"/tmp\"}} now";
    let call = extract_tool_call(response).expect("a tool call");
    assert_eq!(call.tool_name, "list");
    assert_eq!(call.arguments.value, object(vec![("dir", text("/tmp"))]));
}

#[test]
fn fenced_call_without_arguments_gives_the_empty_object() {
    let call = extract_tool_call("```json\n{\"tool\":\"x\"}\n```").expect("a tool call");
    assert_eq!(call.tool_name, "x");
    assert_eq!(call.arguments.value, Value::Object(serde_json::Map::new()));
}

#[test]
fn call_that_is_no_json_at_all_gives_the_empty_object() {
    let call = extract_tool_call("\"tool\": \"broken\" and nothing else").expect("a tool call");
    assert_eq!(call.tool_name, "broken");
    assert_eq!(call.arguments.value, Value::Object(serde_json::Map::new()));
}

#[test]
fn braces_in_the_wrong_order_give_the_empty_object() {
    let call = extract_tool_call("} \"tool\": \"odd\" {").expect("a tool call");
    assert_eq!(call.tool_name, "odd");
    assert_eq!(call.arguments.value, Value::Object(serde_json::Map::new()));
}

#[test]
fn a_broken_json_fence_falls_through_to_the_braces() {
    let response = "```json\nnot json\n```\n{\"tool\":\"t\",\"arguments\":{\"a\":1}}";
    let call = extract_tool_call(response).expect("a tool call");
    assert_eq!(call.tool_name, "t");
    assert_eq!(call.arguments.value, object(vec![("a", Value::Number(Number::from(1u64)))]));
    assert_eq!(
        extract_arguments("```json\nnot json\n``` {\"tool\":\"t\"").value,
        Value::Object(serde_json::Map::new())
    );
}

#[test]
fn a_broken_json_fence_falls_through_to_the_next_strategy() {
    let response = "```json\n{\"tool\":\"t\",\"arguments\":{\"a\":1}}";
    let call = extract_tool_call(response).expect("a tool call");
    assert_eq!(call.tool_name, "t");
    assert_eq!(call.arguments.value, object(vec![("a", Value::Number(Number::from(1u64)))]));
}

#[test]
fn white_space_around_the_colon_is_allowed() {
    let call = extract_tool_call("{\"tool\" \t:\n  \"spaced\", \"arguments\": {}}").expect("a call");
    assert_eq!(call.tool_name, "spaced");
    let call = extract_tool_call("{\"tool\"\u{a0}:\u{2003}\"wide\"}").expect("a call");
    assert_eq!(call.tool_name, "wide");
}

#[test]
fn an_empty_name_is_no_announcement() {
    assert!(extract_tool_call("{\"tool\": \"\"}").is_none());
    let call = extract_tool_call("{\"tool\": \"\", \"tool\": \"second\"}").expect("a call");
    assert_eq!(call.tool_name, "second");
}

#[test]
fn the_leftmost_announcement_gives_the_name() {
    let call = extract_tool_call("{\"tool\":\"first\"} {\"tool\":\"second\"}").expect("a call");
    assert_eq!(call.tool_name, "first");
}

#[test]
fn an_unclosed_name_is_no_announcement() {
    assert!(extract_tool_call("{\"tool\": \"never closed").is_none());
}

#[test]
fn find_tool_name_returns_the_bounds_of_the_name() {
    let t = chars_of("ab \"tool\": \"name\" cd");
    assert_eq!(find_tool_name(&t), Some((12, 16)));
    let t = chars_of("\u{4e2d}\u{6587} \"tool\":\"n\"");
    assert_eq!(find_tool_name(&t), Some((11, 12)));
    assert_eq!(find_tool_name(&chars_of("nothing")), None);
}

#[test]
fn the_whole_text_is_tried_before_the_fences() {
    let response = "{\"tool\":\"a\",\"arguments\":{\"k\":\"```json {} ```\"}}";
    let doc = parse_call_document(response).expect("a document");
    assert_eq!(
        doc.value,
        object(vec![("tool", text("a")), ("arguments", object(vec![("k", text("```json {} ```"))]))])
    );
    assert!(parse_call_document("no json here").is_none());
}

#[test]
fn arguments_that_are_no_object_are_kept_as_they_are() {
    let call = extract_tool_call("{\"tool\":\"a\",\"arguments\":[1,2]}").expect("a call");
    assert_eq!(
        call.arguments.value,
        Value::Array(vec![Value::Number(Number::from(1u64)), Value::Number(Number::from(2u64))])
    );
    let call = extract_tool_call("[{\"tool\":\"a\",\"arguments\":{\"x\":1}}]").expect("a call");
    assert_eq!(call.arguments.value, Value::Object(serde_json::Map::new()));
}

fn name_by_pattern(text: &str) -> Option<String> {
    let pattern = "\"tool\"\\s*:\\s*\"([^\"]+)\"|```json\\s*\\{\\s*\"tool\"\\s*:\\s*\"([^\"]+)\"";
    let re = regex::Regex::new(pattern).expect("a pattern");
    re.captures(text).and_then(|caps| caps.get(1).or_else(|| caps.get(2))).map(|m| m.as_str().to_string())
}

#[test]
fn the_announced_name_is_what_the_pattern_captures() {
    let texts = vec![
        "",
        "plain",
        "{\"tool\":\"weather\",\"arguments\":{\"city\":\"Paris\"}}",
        "```json\n{\"tool\": \"x\"}\n```",
        "```json {\"tool\" : \"a b\"} ``` and \"tool\": \"later\"",
        "\"tool\":\"first\" ```json{\"tool\":\"second\"}",
        "{\"tool\": \"\", \"tool\": \"second\"}",
        "{\"tool\": \"never closed",
        "{\"tool\"\u{a0}:\u{2003}\"wide\"}",
        "{\"tool\"\u{200b}: \"zero width\"}",
        "{\"tool\"\n\r\t\u{b}\u{c}:\u{85}\u{1680}\u{2028}\u{2029}\u{202f}\u{205f}\u{3000}\"spaces\"}",
        "\"tool\":\"multi\nline\"",
        "\"tool\" \"tool\": \"x\"",
        "\"tool\":: \"x\"",
        "'tool': 'x'",
        "\"Tool\": \"x\"",
        "\"tool\": x\"y\"",
        "\"tool\":\"\u{4e2d}\u{6587}\"",
        "\"tool\":\"a\\\"b\"",
    ];
    for t in texts {
        let found = extract_tool_call(t).map(|call| call.tool_name);
        assert_eq!(found, name_by_pattern(t), "on {:?}", t);
        assert_eq!(is_tool_call(t), name_by_pattern(t).is_some(), "on {:?}", t);
    }
}

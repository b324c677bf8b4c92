use serde_json::{Number, Value};
use shellchat::json::JsonDoc;

#[test]
fn parse_reads_a_document() {
    let doc = JsonDoc::parse("{\"a\": [1, \"two\", null]}").expect("a document");
    let mut map = serde_json::Map::new();
    map.insert(
        "a".to_string(),
        Value::Array(vec![
            Value::Number(Number::from(1u64)),
            Value::String("two".to_string()),
            Value::Null,
        ]),
    );
    assert_eq!(doc.value, Value::Object(map));
}

#[test]
fn parse_refuses_what_is_no_document() {
    assert!(JsonDoc::parse("").is_none());
    assert!(JsonDoc::parse("{").is_none());
    assert!(JsonDoc::parse("{} trailing").is_none());
    assert!(JsonDoc::parse("{'a': 1}").is_none());
}

#[test]
fn parse_or_message_says_what_is_wrong() {
    let message = JsonDoc::parse_or_message("{").err().expect("an error");
    assert_eq!(message, "EOF while parsing an object at line 1 column 1");
    assert!(JsonDoc::parse_or_message("[1]").is_ok());
}

#[test]
fn get_finds_members_of_objects_only() {
    let doc = JsonDoc::parse("{\"a\": {\"b\": \"c\"}}").expect("a document");
    let a = doc.get("a").expect("member a");
    assert_eq!(a.get("b").expect("member b").value, Value::String("c".to_string()));
    assert!(doc.get("b").is_none());
    assert!(JsonDoc::parse("[1]").expect("a document").get("a").is_none());
}

#[test]
fn as_text_gives_the_text_of_strings_only() {
    assert_eq!(JsonDoc::parse("\"hi\"").expect("doc").as_text(), Some("hi".to_string()));
    assert_eq!(JsonDoc::parse("12").expect("doc").as_text(), None);
    assert!(JsonDoc::parse("\"hi\"").expect("doc").is_text("hi"));
    assert!(!JsonDoc::parse("\"hi\"").expect("doc").is_text("ho"));
    assert!(!JsonDoc::parse("1").expect("doc").is_text("1"));
}

#[test]
fn items_gives_the_items_of_arrays_in_order() {
    let items = JsonDoc::parse("[1, \"b\"]").expect("doc").items().expect("items");
    assert_eq!(items.len(), 2);
    assert_eq!(items[0].value, Value::Number(Number::from(1u64)));
    assert_eq!(items[1].value, Value::String("b".to_string()));
    assert!(JsonDoc::parse("{}").expect("doc").items().is_none());
    assert_eq!(
        JsonDoc::parse("[7, 8]").expect("doc").first().expect("first").value,
        Value::Number(Number::from(7u64))
    );
    assert!(JsonDoc::parse("[]").expect("doc").first().is_none());
}

#[test]
fn text_member_reads_a_string_member() {
    let doc = JsonDoc::parse("{\"a\": \"x\", \"n\": 1}").expect("doc");
    assert_eq!(doc.text_member("a"), Some("x".to_string()));
    assert_eq!(doc.text_member("n"), None);
    assert_eq!(doc.text_member("missing"), None);
}

#[test]
fn empty_object_is_the_object_without_members() {
    assert_eq!(JsonDoc::empty_object().value, Value::Object(serde_json::Map::new()));
    assert_eq!(JsonDoc::empty_object().pretty(), "{}");
}

#[test]
fn pretty_prints_with_two_blanks_of_indent() {
    let doc = JsonDoc::parse("{\"city\":\"Paris\",\"days\":[1,2]}").expect("doc");
    assert_eq!(
        doc.pretty(),
        "{\n  \"city\": \"Paris\",\n  \"days\": [\n    1,\n    2\n  ]\n}"
    );
}

#[test]
fn clone_keeps_the_value() {
    let doc = JsonDoc::parse("{\"a\": [true, false]}").expect("doc");
    let copy = doc.clone();
    assert_eq!(copy.value, doc.value);
    assert_ne!(copy.value, Value::Null);
}

#[test]
fn pretty_printed_results_read_back_as_the_same_value() {
    let texts = vec![
        "{\"is_error\": false, \"content\": [{\"type\": \"text\", \"text\": \"21 degrees\\n\"}]}",
        "[1, -2, 3.5, \"\\u00e9\", null, true, {}]",
        "\"just a string\"",
        "{}",
    ];
    for t in texts {
        let doc = JsonDoc::parse(t).expect("a document");
        let again = JsonDoc::parse(doc.pretty().as_str()).expect("a document again");
        assert_eq!(again.value, doc.value);
    }
}

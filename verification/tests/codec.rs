//! Exercises the JSON renderer and parser on concrete texts, and holds
//! them against an independent JSON implementation.

use gtasks::json::{parse_json, render_i64, render_json, render_u64, Json, JsonMember};

fn obj(members: Vec<(&str, Json)>) -> Json {
    Json::Obj(
        members
            .into_iter()
            .map(|(k, v)| JsonMember { key: k.to_string(), value: v })
            .collect(),
    )
}

fn s(text: &str) -> Json {
    Json::Str(text.to_string())
}

#[test]
fn renders_scalars() {
    assert_eq!(render_json(&Json::Null), "null");
    assert_eq!(render_json(&Json::Bool(true)), "true");
    assert_eq!(render_json(&Json::Bool(false)), "false");
    assert_eq!(render_json(&Json::Int(0)), "0");
    assert_eq!(render_json(&Json::Int(-17)), "-17");
    assert_eq!(render_json(&Json::Int(i64::MAX)), "9223372036854775807");
    assert_eq!(render_json(&Json::Int(i64::MIN)), "-9223372036854775808");
    assert_eq!(render_u64(1234567890), "1234567890");
    assert_eq!(render_i64(-5), "-5");
}

#[test]
fn renders_strings_with_escapes() {
    assert_eq!(render_json(&s("plain")), "\"plain\"");
    assert_eq!(render_json(&s("a\"b")), "\"a\\\"b\"");
    assert_eq!(render_json(&s("a\\b")), "\"a\\\\b\"");
    assert_eq!(render_json(&s("line\nbreak")), "\"line\\nbreak\"");
    assert_eq!(render_json(&s("tab\there")), "\"tab\\there\"");
    assert_eq!(render_json(&s("\u{0001}")), "\"\\u0001\"");
    assert_eq!(render_json(&s("caf\u{00e9}")), "\"caf\u{00e9}\"");
}

#[test]
fn renders_arrays_and_objects() {
    let v = obj(vec![
        ("kind", s("tasks#task")),
        ("deleted", Json::Bool(false)),
        ("links", Json::Arr(vec![Json::Int(1), Json::Int(2)])),
    ]);
    assert_eq!(
        render_json(&v),
        "{\"kind\":\"tasks#task\",\"deleted\":false,\"links\":[1,2]}"
    );
    assert_eq!(render_json(&Json::Arr(Vec::new())), "[]");
    assert_eq!(render_json(&obj(Vec::new())), "{}");
}

#[test]
fn rendered_text_is_valid_to_an_independent_parser() {
    let v = obj(vec![
        ("title", s("q\"uo\\te\n\t\u{0002}ok")),
        ("n", Json::Int(-42)),
        ("inner", obj(vec![("empty", Json::Arr(Vec::new())), ("null", Json::Null)])),
    ]);
    let text = render_json(&v);
    let reparsed: serde_json::Value = serde_json::from_str(&text).expect("independent parse");
    assert_eq!(
        reparsed.get("title").and_then(|x| x.as_str()),
        Some("q\"uo\\te\n\t\u{0002}ok")
    );
    assert_eq!(reparsed.get("n").and_then(|x| x.as_i64()), Some(-42));
}

#[test]
fn parses_scalars() {
    assert!(matches!(parse_json("null"), Some(Json::Null)));
    assert!(matches!(parse_json("true"), Some(Json::Bool(true))));
    assert!(matches!(parse_json("false"), Some(Json::Bool(false))));
    assert!(matches!(parse_json("0"), Some(Json::Int(0))));
    assert!(matches!(parse_json("-12"), Some(Json::Int(-12))));
    assert!(matches!(
        parse_json("9223372036854775807"),
        Some(Json::Int(9223372036854775807))
    ));
    assert!(matches!(
        parse_json("-9223372036854775808"),
        Some(Json::Int(-9223372036854775808))
    ));
    match parse_json("\"hi\\nthere\\u0041\"") {
        Some(Json::Str(text)) => assert_eq!(text, "hi\nthereA"),
        other => panic!("expected a string, got {:?}", other),
    }
}

#[test]
fn parses_nested_structures_with_whitespace() {
    let text = " { \"a\" : [ 1 , 2 , { \"b\" : null } ] , \"c\" : \"d\" } ";
    match parse_json(text) {
        Some(Json::Obj(members)) => {
            assert_eq!(members.len(), 2);
            assert_eq!(members[0].key, "a");
            match &members[0].value {
                Json::Arr(items) => {
                    assert_eq!(items.len(), 3);
                    assert!(matches!(items[0], Json::Int(1)));
                    assert!(matches!(items[2], Json::Obj(_)));
                },
                other => panic!("expected an array, got {:?}", other),
            }
            assert_eq!(members[1].key, "c");
        },
        other => panic!("expected an object, got {:?}", other),
    }
}

#[test]
fn rejects_malformed_texts() {
    let bad = [
        "",
        "   ",
        "nul",
        "truth",
        "{",
        "}",
        "[1,",
        "[1 2]",
        "{\"a\":}",
        "{\"a\" 1}",
        "{a:1}",
        "\"unterminated",
        "\"bad\\escape\"",
        "\"ctrl\u{0001}\"",
        "01",
        "-",
        "1 2",
        "[1,]",
        "{\"a\":1,}",
        "9223372036854775808",
        "-9223372036854775809",
    ];
    for text in bad {
        assert!(parse_json(text).is_none(), "should reject {:?}", text);
    }
}

#[test]
fn agrees_with_an_independent_parser_on_acceptance() {
    // Integer-only JSON: on these texts the library accepts exactly what
    // the independent implementation accepts.
    let texts = [
        "null",
        "true",
        " [1,2,3] ",
        "{\"a\":{\"b\":[]}}",
        "\"\\u0041\\t\"",
        "-0",
        "01",
        "[,]",
        "{\"a\":1 \"b\":2}",
        "[[[[[1]]]]]",
        "\"a\u{00e9}b\"",
        "{\"k\":\"v\",\"k\":\"w\"}",
    ];
    for text in texts {
        let ours = parse_json(text).is_some();
        let theirs = serde_json::from_str::<serde_json::Value>(text).is_ok();
        assert_eq!(ours, theirs, "disagreement on {:?}", text);
    }
}

#[test]
fn round_trips_through_render_and_parse() {
    let v = obj(vec![
        ("title", s("Buy milk\n\"now\"")),
        ("count", Json::Int(7)),
        ("flags", Json::Arr(vec![Json::Bool(true), Json::Null])),
    ]);
    let text = render_json(&v);
    let back = parse_json(&text).expect("rendered text parses");
    assert_eq!(render_json(&back), text);
}

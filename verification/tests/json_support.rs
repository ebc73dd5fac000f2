use copilot_mcp::eval::{eval_outcome, eval_poll, eval_prefix, prepare_eval, start_eval, EvalPoll};
use copilot_mcp::json::{clone_json, json_str, object2, JsonNumber, JsonValue};
use copilot_mcp::text::{escape_quoted_text, push_decimal, push_signed_decimal, u64_to_decimal};

fn parse(text: &str) -> JsonValue {
    from_serde(&serde_json::from_str::<serde_json::Value>(text).unwrap())
}

fn from_serde(v: &serde_json::Value) -> JsonValue {
    match v {
        serde_json::Value::Null => JsonValue::Null,
        serde_json::Value::Bool(b) => JsonValue::Bool(*b),
        serde_json::Value::Number(n) => {
            if let Some(u) = n.as_u64() {
                JsonValue::Number(JsonNumber::PosInt(u))
            } else if let Some(i) = n.as_i64() {
                JsonValue::Number(JsonNumber::NegInt(i))
            } else {
                JsonValue::Number(JsonNumber::Other(n.to_string()))
            }
        }
        serde_json::Value::String(s) => JsonValue::String(s.clone()),
        serde_json::Value::Array(a) => JsonValue::Array(a.iter().map(from_serde).collect()),
        serde_json::Value::Object(m) => {
            JsonValue::Object(m.iter().map(|(k, v)| (k.clone(), from_serde(v))).collect())
        }
    }
}

fn to_serde(v: &JsonValue) -> serde_json::Value {
    match v {
        JsonValue::Null => serde_json::Value::Null,
        JsonValue::Bool(b) => serde_json::Value::Bool(*b),
        JsonValue::Number(JsonNumber::PosInt(u)) => serde_json::Value::from(*u),
        JsonValue::Number(JsonNumber::NegInt(i)) => serde_json::Value::from(*i),
        JsonValue::Number(JsonNumber::Other(s)) => serde_json::from_str(s).unwrap(),
        JsonValue::String(s) => serde_json::Value::String(s.clone()),
        JsonValue::Array(a) => serde_json::Value::Array(a.iter().map(to_serde).collect()),
        JsonValue::Object(m) => {
            let mut map = serde_json::Map::new();
            for (k, v) in m {
                map.insert(k.clone(), to_serde(v));
            }
            serde_json::Value::Object(map)
        }
    }
}

fn same(v: &JsonValue, expected: &str) -> bool {
    to_serde(v) == serde_json::from_str::<serde_json::Value>(expected).unwrap()
}

#[test]
fn decimal_of_zero_and_large_numbers() {
    assert_eq!(u64_to_decimal(0), "0");
    assert_eq!(u64_to_decimal(7), "7");
    assert_eq!(u64_to_decimal(1234567890), "1234567890");
    assert_eq!(u64_to_decimal(u64::MAX), "18446744073709551615");
}

#[test]
fn decimal_appends_to_existing_text() {
    let mut s = String::from("n=");
    push_decimal(&mut s, 42);
    assert_eq!(s, "n=42");
}

#[test]
fn signed_decimal_of_negative_numbers() {
    let mut s = String::new();
    push_signed_decimal(&mut s, -300);
    assert_eq!(s, "-300");
    let mut m = String::new();
    push_signed_decimal(&mut m, i64::MIN);
    assert_eq!(m, "-9223372036854775808");
    let mut z = String::new();
    push_signed_decimal(&mut z, 0);
    assert_eq!(z, "0");
}

#[test]
fn escape_quotes_and_backslashes() {
    assert_eq!(escape_quoted_text(r#"a"b\c"#), r#"a\"b\\c"#);
    assert_eq!(escape_quoted_text("plain"), "plain");
    assert_eq!(escape_quoted_text(""), "");
}

#[test]
fn escape_matches_std_replace() {
    let text = "say \"hi\" \\ there \\\"";
    let expected = text.replace("\\", "\\\\").replace("\"", "\\\"");
    assert_eq!(escape_quoted_text(text), expected);
}

#[test]
fn get_finds_object_members_only() {
    let v = parse(r#"{"a": 1, "b": "x"}"#);
    assert_eq!(v.get("b").and_then(|x| x.as_str()), Some("x"));
    assert_eq!(v.get("a").and_then(|x| x.as_u64()), Some(1));
    assert!(v.get("c").is_none());
    let arr = parse("[1, 2]");
    assert!(arr.get("a").is_none());
}

#[test]
fn as_u64_only_for_non_negative_integers() {
    assert_eq!(parse("5").as_u64(), Some(5));
    assert_eq!(parse("-5").as_u64(), None);
    assert_eq!(parse("5.5").as_u64(), None);
    assert_eq!(parse("\"5\"").as_u64(), None);
}

#[test]
fn clone_keeps_nested_values() {
    let v = parse(r#"{"a": [1, -2, 3.5, null, true, {"b": "c"}]}"#);
    let c = clone_json(&v);
    assert_eq!(to_serde(&c), to_serde(&v));
}

#[test]
fn object2_keeps_both_members() {
    let v = object2("k", json_str("v"), "n", JsonValue::Bool(false));
    assert!(same(&v, r#"{"k": "v", "n": false}"#));
}

#[test]
fn eval_prefix_numbers_the_marker() {
    assert_eq!(eval_prefix(7), "__MCP_EVAL__7:");
    assert_eq!(eval_prefix(0), "__MCP_EVAL__0:");
}

#[test]
fn prepare_eval_quotes_prefix_and_code() {
    let req = prepare_eval(3, "return \"x\";").unwrap();
    assert_eq!(req.prefix, "__MCP_EVAL__3:");
    assert!(req.script.contains("const prefix = \"__MCP_EVAL__3:\";"));
    assert!(req.script.contains("const userCode = \"return \\\"x\\\";\";"));
    assert!(req.script.starts_with("(async () => {"));
}

#[test]
fn eval_poll_times_out_after_deadline() {
    match eval_poll(10_000_000_001, 10_000, "__MCP_EVAL__1:{}", "__MCP_EVAL__1:") {
        EvalPoll::TimedOut => {}
        other => panic!("unexpected {:?}", other),
    }
}

#[test]
fn eval_poll_at_deadline_still_reads() {
    match eval_poll(10_000_000_000, 10_000, "__MCP_EVAL__1:{\"ok\":true}", "__MCP_EVAL__1:") {
        EvalPoll::Finished(rest) => assert_eq!(rest, "{\"ok\":true}"),
        other => panic!("unexpected {:?}", other),
    }
}

#[test]
fn eval_poll_waits_for_other_titles() {
    match eval_poll(5, 10_000, "Copilot", "__MCP_EVAL__1:") {
        EvalPoll::Waiting => {}
        other => panic!("unexpected {:?}", other),
    }
    match eval_poll(5, 10_000, "__MCP_EVAL__12:{}", "__MCP_EVAL__1:") {
        EvalPoll::Waiting => {}
        other => panic!("unexpected {:?}", other),
    }
}

#[test]
fn marker_round_trip_on_concrete_values() {
    let prefix = eval_prefix(9);
    let title = format!("{}{}", prefix, "{\"ok\":false}");
    match eval_poll(0, 1, &title, &prefix) {
        EvalPoll::Finished(rest) => assert_eq!(rest, "{\"ok\":false}"),
        other => panic!("unexpected {:?}", other),
    }
}

#[test]
fn eval_outcome_value_when_ok() {
    let r = eval_outcome(&parse(r#"{"ok": true, "value": [1, 2]}"#)).unwrap();
    assert!(same(&r, "[1, 2]"));
}

#[test]
fn eval_outcome_null_when_ok_without_value() {
    let r = eval_outcome(&parse(r#"{"ok": true}"#)).unwrap();
    assert!(same(&r, "null"));
}

#[test]
fn eval_outcome_error_text() {
    assert_eq!(
        eval_outcome(&parse(r#"{"ok": false, "error": "ReferenceError: x"}"#)).unwrap_err(),
        "ReferenceError: x"
    );
}

#[test]
fn eval_outcome_unknown_error() {
    assert_eq!(eval_outcome(&parse(r#"{"ok": false}"#)).unwrap_err(), "Unknown error");
    assert_eq!(eval_outcome(&parse(r#"{"ok": "yes", "error": 3}"#)).unwrap_err(), "Unknown error");
    assert_eq!(eval_outcome(&parse("[]")).unwrap_err(), "Unknown error");
}

#[test]
fn prepare_eval_code_literal_is_serde_json_text() {
    let code = "a\"b\\c\nd\te\u{1}f\u{8}\u{c}\r\u{1f}\u{7f}é";
    let req = prepare_eval(1, code).unwrap();
    let literal = serde_json::to_string(code).unwrap();
    assert_eq!(literal, "\"a\\\"b\\\\c\\nd\\te\\u0001f\\b\\f\\r\\u001f\u{7f}é\"");
    assert!(req.script.contains(&format!("const userCode = {};", literal)));
    let back: String = serde_json::from_str(&literal).unwrap();
    assert_eq!(back, code);
}

#[test]
fn start_eval_without_window_keeps_count() {
    let mut next: u64 = 5;
    match start_eval(None::<u8>, &mut next, "return 1;") {
        Err(e) => assert_eq!(e, "Window not found"),
        Ok(_) => panic!("started without a window"),
    }
    assert_eq!(next, 5);
}

#[test]
fn start_eval_numbers_successive_evaluations() {
    let mut next: u64 = 5;
    let (w, first) = start_eval(Some("main"), &mut next, "return 1;").unwrap();
    assert_eq!(w, "main");
    assert_eq!(first.prefix, "__MCP_EVAL__5:");
    assert_eq!(next, 6);
    let (_, second) = start_eval(Some("main"), &mut next, "return 2;").unwrap();
    assert_eq!(second.prefix, "__MCP_EVAL__6:");
    assert_ne!(first.prefix, second.prefix);
    let mut last: u64 = u64::MAX;
    let (_, wrapped) = start_eval(Some(0u8), &mut last, "").unwrap();
    assert_eq!(wrapped.prefix, format!("__MCP_EVAL__{}:", u64::MAX));
    assert_eq!(last, 0);
}

#[test]
fn markers_exclusive_on_concrete_titles() {
    match eval_poll(0, 10, "__MCP_EVAL__12:{}", "__MCP_EVAL__1:") {
        EvalPoll::Waiting => {}
        other => panic!("unexpected {:?}", other),
    }
    match eval_poll(0, 10, "__MCP_EVAL__12:{}", "__MCP_EVAL__12:") {
        EvalPoll::Finished(rest) => assert_eq!(rest, "{}"),
        other => panic!("unexpected {:?}", other),
    }
}

use copilot_mcp::json::{JsonNumber, JsonValue};
use copilot_mcp::mcp::{
    finish_resources_read, finish_tools_call, handle_jsonrpc, health_body, mcp_bind_address,
    sse_connected_data, Dispatch, JsonRpcRequest, JsonRpcResponse, McpConfig,
};
use copilot_mcp::prompts::get_prompts;
use copilot_mcp::resources::{
    finish_resource_read, plan_resource_read, register_resources, ResourceContent, ResourceKind,
    ResourcePlan, ResourceReport,
};
use copilot_mcp::tools::{
    finish_tool_call, plan_tool_call, register_tools, tool_json, ToolKind, ToolPlan, ToolReport,
    WindowOp,
};

fn parse(text: &str) -> JsonValue {
    from_serde(&serde_json::from_str::<serde_json::Value>(text).unwrap())
}

fn from_serde(v: &serde_json::Value) -> JsonValue {
    match v {
        serde_json::Value::Null => JsonValue::Null,
        serde_json::Value::Bool(b) => JsonValue::Bool(*b),
        serde_json::Value::Number(n) => {
            if let Some(u) = n.as_u64() {
                JsonValue::Number(JsonNumber::PosInt(u))
            } else if let Some(i) = n.as_i64() {
                JsonValue::Number(JsonNumber::NegInt(i))
            } else {
                JsonValue::Number(JsonNumber::Other(n.to_string()))
            }
        }
        serde_json::Value::String(s) => JsonValue::String(s.clone()),
        serde_json::Value::Array(a) => JsonValue::Array(a.iter().map(from_serde).collect()),
        serde_json::Value::Object(m) => {
            JsonValue::Object(m.iter().map(|(k, v)| (k.clone(), from_serde(v))).collect())
        }
    }
}

fn to_serde(v: &JsonValue) -> serde_json::Value {
    match v {
        JsonValue::Null => serde_json::Value::Null,
        JsonValue::Bool(b) => serde_json::Value::Bool(*b),
        JsonValue::Number(JsonNumber::PosInt(u)) => serde_json::Value::from(*u),
        JsonValue::Number(JsonNumber::NegInt(i)) => serde_json::Value::from(*i),
        JsonValue::Number(JsonNumber::Other(s)) => serde_json::from_str(s).unwrap(),
        JsonValue::String(s) => serde_json::Value::String(s.clone()),
        JsonValue::Array(a) => serde_json::Value::Array(a.iter().map(to_serde).collect()),
        JsonValue::Object(m) => {
            let mut map = serde_json::Map::new();
            for (k, v) in m {
                map.insert(k.clone(), to_serde(v));
            }
            serde_json::Value::Object(map)
        }
    }
}

fn same(v: &JsonValue, expected: &str) -> bool {
    to_serde(v) == serde_json::from_str::<serde_json::Value>(expected).unwrap()
}

fn request(method: &str, params: &str) -> JsonRpcRequest {
    JsonRpcRequest {
        jsonrpc: "2.0".to_string(),
        id: Some(JsonValue::Number(JsonNumber::PosInt(7))),
        method: method.to_string(),
        params: parse(params),
    }
}

fn reply(d: Dispatch) -> JsonRpcResponse {
    match d {
        Dispatch::Reply(r) => r,
        other => panic!("expected a reply, got {:?}", other),
    }
}

fn error_of(r: &JsonRpcResponse) -> (i32, String) {
    assert_eq!(r.jsonrpc, "2.0");
    assert!(same(r.id.as_ref().unwrap(), "7"));
    assert!(r.result.is_none());
    let e = r.error.as_ref().unwrap();
    (e.code, e.message.clone())
}

fn result_of(r: &JsonRpcResponse) -> &JsonValue {
    assert_eq!(r.jsonrpc, "2.0");
    assert!(same(r.id.as_ref().unwrap(), "7"));
    assert!(r.error.is_none());
    r.result.as_ref().unwrap()
}

fn plan_for(kind: ToolKind, args: &str) -> ToolPlan {
    let a = parse(args);
    plan_tool_call(kind, Some(&a))
}

fn single_script(plan: &ToolPlan) -> String {
    match plan {
        ToolPlan::WindowOps { steps, .. } => {
            assert_eq!(steps.len(), 1);
            match &steps[0].op {
                WindowOp::Eval(s) => s.clone(),
                other => panic!("unexpected op {:?}", other),
            }
        }
        other => panic!("unexpected plan {:?}", other),
    }
}

#[test]
fn registry_holds_every_tool_once() {
    let tools = register_tools();
    assert_eq!(tools.len(), 19);
    let mut names: Vec<String> = (0..tools.len()).map(|i| tools.tool_at(i).name.clone()).collect();
    assert_eq!(names[0], "browser_navigate");
    assert_eq!(names[18], "browser_hide");
    names.sort();
    names.dedup();
    assert_eq!(names.len(), 19);
}

#[test]
fn registry_finds_tools_by_name() {
    let tools = register_tools();
    assert_eq!(tools.get("browser_click").unwrap().kind, ToolKind::Click);
    assert_eq!(tools.get("browser_watch_events").unwrap().kind, ToolKind::WatchEvents);
    assert!(tools.get("browser_fly").is_none());
}

#[test]
fn tool_json_shows_schema() {
    let tools = register_tools();
    let t = tools.get("browser_type").unwrap();
    assert!(same(
        &tool_json(t),
        r#"{"name": "browser_type", "description": "Type text into an input element",
            "inputSchema": {"type": "object",
              "properties": {"selector": {"type": "string", "description": "CSS selector for the input element"},
                             "text": {"type": "string", "description": "Text to type"}},
              "required": ["selector", "text"]}}"#
    ));
}

#[test]
fn scroll_schema_lists_directions() {
    let tools = register_tools();
    let t = tools.get("browser_scroll").unwrap();
    let j = to_serde(&tool_json(t));
    assert_eq!(
        j["inputSchema"]["properties"]["direction"]["enum"],
        serde_json::from_str::<serde_json::Value>(r#"["up", "down", "top", "bottom"]"#).unwrap()
    );
}

#[test]
fn navigate_builds_script() {
    let plan = plan_for(ToolKind::Navigate, r#"{"url": "https://example.com"}"#);
    assert_eq!(single_script(&plan), r#"window.location.href = "https://example.com""#);
    match plan {
        ToolPlan::WindowOps { steps, outcome } => {
            assert_eq!(steps[0].failure_prefix, "Failed to navigate: ");
            assert!(same(&outcome.unwrap(), r#"{"success": true, "url": "https://example.com"}"#));
        }
        _ => unreachable!(),
    }
}

#[test]
fn missing_parameters_are_reported() {
    let cases = [
        (ToolKind::Navigate, "{}", "Missing url parameter"),
        (ToolKind::Evaluate, "{}", "Missing script parameter"),
        (ToolKind::Click, r#"{"selector": 3}"#, "Missing selector parameter"),
        (ToolKind::Type, r#"{"text": "a"}"#, "Missing selector parameter"),
        (ToolKind::Type, r##"{"selector": "#q"}"##, "Missing text parameter"),
        (ToolKind::Scroll, "{}", "Missing direction parameter"),
        (ToolKind::WaitFor, "{}", "Missing selector parameter"),
        (ToolKind::Notification, r#"{"body": "b"}"#, "Missing title parameter"),
        (ToolKind::Notification, r#"{"title": "t"}"#, "Missing body parameter"),
    ];
    for (kind, args, message) in cases {
        match plan_for(kind, args) {
            ToolPlan::Reply(Err(e)) => assert_eq!(e, message),
            other => panic!("unexpected {:?}", other),
        }
    }
    match plan_tool_call(ToolKind::Navigate, None) {
        ToolPlan::Reply(Err(e)) => assert_eq!(e, "Missing url parameter"),
        other => panic!("unexpected {:?}", other),
    }
}

#[test]
fn tools_without_required_arguments_never_reply_at_once() {
    for kind in [ToolKind::GetUrl, ToolKind::GetUiState, ToolKind::Screenshot, ToolKind::GoBack,
                 ToolKind::GetContent, ToolKind::WatchDom, ToolKind::Show, ToolKind::Hide] {
        match plan_tool_call(kind, None) {
            ToolPlan::Reply(_) => panic!("{:?} replied at once", kind),
            _ => {}
        }
    }
}

#[test]
fn type_escapes_text() {
    let plan = plan_for(ToolKind::Type, r##"{"selector": "#q", "text": "say \"hi\""}"##);
    let script = single_script(&plan);
    assert!(script.contains(r##"document.querySelector("#q")"##));
    assert!(script.contains(r#"el.value = "say \"hi\"";"#));
}

#[test]
fn scroll_directions_and_amounts() {
    assert_eq!(single_script(&plan_for(ToolKind::Scroll, r#"{"direction": "up", "amount": 50}"#)), "window.scrollBy(0, -50)");
    assert_eq!(single_script(&plan_for(ToolKind::Scroll, r#"{"direction": "down"}"#)), "window.scrollBy(0, 300)");
    assert_eq!(single_script(&plan_for(ToolKind::Scroll, r#"{"direction": "top"}"#)), "window.scrollTo(0, 0)");
    assert_eq!(single_script(&plan_for(ToolKind::Scroll, r#"{"direction": "bottom"}"#)), "window.scrollTo(0, document.body.scrollHeight)");
    // 2^32 + 5 truncates to 5 as an i32, as `as i32` does.
    assert_eq!(single_script(&plan_for(ToolKind::Scroll, r#"{"direction": "down", "amount": 4294967301}"#)), "window.scrollBy(0, 5)");
    assert_eq!(single_script(&plan_for(ToolKind::Scroll, r#"{"direction": "down", "amount": 4294967295}"#)), "window.scrollBy(0, -1)");
}

#[test]
fn scroll_invalid_direction_needs_window() {
    match plan_for(ToolKind::Scroll, r#"{"direction": "left"}"#) {
        ToolPlan::WindowOps { steps, outcome } => {
            assert!(steps.is_empty());
            assert_eq!(outcome.unwrap_err(), "Invalid direction");
        }
        other => panic!("unexpected {:?}", other),
    }
}

#[test]
fn ui_state_defaults_and_selector() {
    match plan_tool_call(ToolKind::GetUiState, None) {
        ToolPlan::EvalForResult { script, timeout_ms, .. } => {
            assert_eq!(timeout_ms, 10000);
            assert!(script.contains("const sel = null;"));
            assert!(script.contains("text.length > 1500 ? text.slice(0, 1500) : text;"));
        }
        other => panic!("unexpected {:?}", other),
    }
    match plan_for(ToolKind::GetUiState, r##"{"selector": "#a\"b", "max_len": 20}"##) {
        ToolPlan::EvalForResult { script, .. } => {
            assert!(script.contains(r##"const sel = "#a\"b";"##));
            assert!(script.contains("text.length > 20 ? text.slice(0, 20) : text;"));
        }
        other => panic!("unexpected {:?}", other),
    }
}

#[test]
fn wait_for_timeout_and_wrap() {
    match plan_for(ToolKind::WaitFor, r##"{"selector": "#x"}"##) {
        ToolPlan::EvalForResult { script, timeout_ms, .. } => {
            assert_eq!(timeout_ms, 7000);
            assert!(script.contains("setTimeout(() => resolve(false), 5000);"));
            assert!(script.contains(r##"document.querySelector("#x");"##));
        }
        other => panic!("unexpected {:?}", other),
    }
    match plan_for(ToolKind::WaitFor, r##"{"selector": "#x", "timeout": 18446744073709551615}"##) {
        ToolPlan::EvalForResult { timeout_ms, .. } => assert_eq!(timeout_ms, 1999),
        other => panic!("unexpected {:?}", other),
    }
}

#[test]
fn watch_defaults() {
    match plan_tool_call(ToolKind::WatchDom, None) {
        ToolPlan::EvalForResult { script, .. } => {
            assert!(script.contains("const since = 0;"));
            assert!(script.contains("const max = 100;"));
        }
        other => panic!("unexpected {:?}", other),
    }
    match plan_for(ToolKind::WatchEvents, r#"{"since": 12, "max": 3}"#) {
        ToolPlan::EvalForResult { script, .. } => {
            assert!(script.contains("const since = 12;"));
            assert!(script.contains("const max = 3;"));
            assert!(script.contains("__MCP_EVENT_WATCH__"));
        }
        other => panic!("unexpected {:?}", other),
    }
}

#[test]
fn watch_events_entries_keep_sequence_id() {
    match plan_tool_call(ToolKind::WatchEvents, None) {
        ToolPlan::EvalForResult { script, .. } => {
            assert_eq!(script.matches("        id: ").count(), 1);
            assert!(script.contains("        id: ++state.seq,"));
            assert!(script.contains("        elementId: idAttr,"));
            assert!(script.contains("state.events.filter((e) => e.id > since)"));
        }
        other => panic!("unexpected {:?}", other),
    }
}

#[test]
fn show_focuses_after_showing() {
    match plan_tool_call(ToolKind::Show, None) {
        ToolPlan::WindowOps { steps, .. } => {
            assert_eq!(steps.len(), 2);
            assert!(matches!(steps[0].op, WindowOp::Show));
            assert!(matches!(steps[1].op, WindowOp::Focus));
            assert_eq!(steps[1].failure_prefix, "Focus failed: ");
        }
        other => panic!("unexpected {:?}", other),
    }
}

#[test]
fn finish_tool_call_outcomes() {
    let plan = plan_for(ToolKind::Navigate, r#"{"url": "u"}"#);
    assert_eq!(finish_tool_call(plan, ToolReport::StepFailed(0, "boom".to_string())).unwrap_err(), "Failed to navigate: boom");
    let plan = plan_for(ToolKind::Navigate, r#"{"url": "u"}"#);
    assert_eq!(finish_tool_call(plan, ToolReport::WindowMissing).unwrap_err(), "Window not found");
    let plan = plan_for(ToolKind::Navigate, r#"{"url": "u"}"#);
    assert!(same(&finish_tool_call(plan, ToolReport::StepsDone).unwrap(), r#"{"success": true, "url": "u"}"#));
    let plan = plan_tool_call(ToolKind::GetUrl, None);
    assert!(same(&finish_tool_call(plan, ToolReport::Text(None)).unwrap(), r#"{"url": ""}"#));
    let plan = plan_tool_call(ToolKind::GetTitle, None);
    assert!(same(&finish_tool_call(plan, ToolReport::Text(Some("T".to_string()))).unwrap(), r#"{"title": "T"}"#));
    let plan = plan_for(ToolKind::Evaluate, r#"{"script": "return 1"}"#);
    assert!(same(&finish_tool_call(plan, ToolReport::Evaluated(Ok(parse("1")))).unwrap(), r#"{"success": true, "result": 1}"#));
    let plan = plan_for(ToolKind::Evaluate, r#"{"script": "return 1"}"#);
    assert_eq!(finish_tool_call(plan, ToolReport::Evaluated(Err("Eval timed out".to_string()))).unwrap_err(), "Eval timed out");
    let plan = plan_tool_call(ToolKind::GetContent, None);
    assert!(same(&finish_tool_call(plan, ToolReport::Evaluated(Ok(parse("\"<p>\"")))).unwrap(), r#"{"content": "<p>"}"#));
    let plan = plan_for(ToolKind::WaitFor, r#"{"selector": "a"}"#);
    assert!(same(&finish_tool_call(plan, ToolReport::Evaluated(Ok(parse("false")))).unwrap(), r#"{"success": false}"#));
    let plan = plan_for(ToolKind::Notification, r#"{"title": "t", "body": "b"}"#);
    assert_eq!(finish_tool_call(plan, ToolReport::NotifyFailed("denied".to_string())).unwrap_err(), "Notification failed: denied");
    let plan = plan_for(ToolKind::Notification, r#"{"title": "t", "body": "b"}"#);
    assert!(same(&finish_tool_call(plan, ToolReport::Notified).unwrap(), r#"{"success": true}"#));
    let plan = plan_tool_call(ToolKind::Screenshot, None);
    let image = r#"{"mimeType": "image/png", "width": 2, "height": 1, "data": "iVBORw0KGgo="}"#;
    assert!(same(&finish_tool_call(plan, ToolReport::Evaluated(Ok(parse(image)))).unwrap(),
        r#"{"success": true, "image": {"mimeType": "image/png", "width": 2, "height": 1, "data": "iVBORw0KGgo="}}"#));
    let plan = plan_tool_call(ToolKind::Screenshot, None);
    assert_eq!(finish_tool_call(plan, ToolReport::Evaluated(Err("Error: Element not found: #x".to_string()))).unwrap_err(),
        "Error: Element not found: #x");
}

#[test]
fn screenshot_captures_page_or_element() {
    match plan_tool_call(ToolKind::Screenshot, None) {
        ToolPlan::EvalForResult { script, timeout_ms, .. } => {
            assert_eq!(timeout_ms, 30000);
            assert!(script.contains("const sel = null;"));
            assert!(script.contains("canvas.toDataURL(\"image/png\")"));
        }
        other => panic!("unexpected {:?}", other),
    }
    match plan_for(ToolKind::Screenshot, r##"{"selector": "#main"}"##) {
        ToolPlan::EvalForResult { script, .. } => {
            assert!(script.contains("const sel = \"#main\";"));
        }
        other => panic!("unexpected {:?}", other),
    }
}

#[test]
fn resources_registry_and_reads() {
    let rs = register_resources();
    assert_eq!(rs.len(), 5);
    let r = rs.get("browser://window-state").unwrap();
    assert_eq!(r.mime_type, "application/json");
    assert!(rs.get("browser://nothing").is_none());
    match plan_resource_read(ResourceKind::Text) {
        ResourcePlan::Eval(s) => assert_eq!(s, "return document.body.innerText;"),
        other => panic!("unexpected {:?}", other),
    }
    match finish_resource_read(ResourceKind::CurrentUrl, ResourceReport::Read(Err("x".to_string()))) {
        Err(e) => assert_eq!(e, "Failed to get URL: x"),
        other => panic!("unexpected {:?}", other),
    }
    match finish_resource_read(ResourceKind::Content, ResourceReport::Evaluated(Ok(parse("\"<html>\"")))) {
        Ok(ResourceContent::Text(t)) => assert_eq!(t, "<html>"),
        other => panic!("unexpected {:?}", other),
    }
    match finish_resource_read(ResourceKind::Text, ResourceReport::Evaluated(Ok(parse("null")))) {
        Ok(ResourceContent::Json(v)) => assert!(same(&v, "null")),
        other => panic!("unexpected {:?}", other),
    }
    match finish_resource_read(ResourceKind::Text, ResourceReport::Evaluated(Err("t".to_string()))) {
        Err(e) => assert_eq!(e, "Failed to get text: t"),
        other => panic!("unexpected {:?}", other),
    }
    match finish_resource_read(ResourceKind::WindowState, ResourceReport::WindowState { visible: true, maximized: false, fullscreen: false, focused: true }) {
        Ok(ResourceContent::Json(v)) => assert!(same(&v, r#"{"visible": true, "maximized": false, "fullscreen": false, "focused": true}"#)),
        other => panic!("unexpected {:?}", other),
    }
    match finish_resource_read(ResourceKind::Title, ResourceReport::WindowMissing) {
        Err(e) => assert_eq!(e, "Window not found"),
        other => panic!("unexpected {:?}", other),
    }
}

#[test]
fn initialize_answers_server_info() {
    let tools = register_tools();
    let rs = register_resources();
    let r = reply(handle_jsonrpc(&request("initialize", "null"), &tools, &rs));
    assert!(same(result_of(&r), r#"{"protocolVersion": "2024-11-05",
        "capabilities": {"tools": {}, "resources": {}, "prompts": {}},
        "serverInfo": {"name": "copilot-browser-mcp", "version": "1.0.0"}}"#));
}

#[test]
fn unknown_method_is_not_found() {
    let tools = register_tools();
    let rs = register_resources();
    let r = reply(handle_jsonrpc(&request("tools/delete", "{}"), &tools, &rs));
    assert_eq!(error_of(&r), (-32601, "Method not found".to_string()));
}

#[test]
fn response_without_id_keeps_none() {
    let tools = register_tools();
    let rs = register_resources();
    let mut req = request("prompts/list", "{}");
    req.id = None;
    let r = reply(handle_jsonrpc(&req, &tools, &rs));
    assert!(r.id.is_none());
    assert!(r.result.is_some());
}

#[test]
fn lists_tools_resources_and_prompts() {
    let tools = register_tools();
    let rs = register_resources();
    let r = reply(handle_jsonrpc(&request("tools/list", "{}"), &tools, &rs));
    let j = to_serde(result_of(&r));
    assert_eq!(j["tools"].as_array().unwrap().len(), 19);
    let r = reply(handle_jsonrpc(&request("resources/list", "{}"), &tools, &rs));
    let j = to_serde(result_of(&r));
    assert_eq!(j["resources"].as_array().unwrap().len(), 5);
    assert_eq!(j["resources"][0]["uri"], "browser://current-url");
    assert_eq!(j["resources"][2]["mimeType"], "text/html");
    let r = reply(handle_jsonrpc(&request("prompts/list", "{}"), &tools, &rs));
    let j = to_serde(result_of(&r));
    assert_eq!(j["prompts"].as_array().unwrap().len(), 8);
    assert_eq!(j["prompts"][5]["arguments"][1]["name"], "waitSelector");
    assert_eq!(j["prompts"][5]["arguments"][1]["required"], false);
}

#[test]
fn prompts_in_order() {
    let p = get_prompts();
    assert_eq!(p.len(), 8);
    assert!(same(&p[6], r#"{"name": "fill_form", "description": "Fill a form with provided data",
        "arguments": [{"name": "formData", "description": "Object mapping CSS selectors to values", "required": true}]}"#));
    assert!(same(&p[0], r#"{"name": "analyze_page_structure", "description": "Analyze the structure of the current page", "arguments": []}"#));
}

#[test]
fn tools_call_errors() {
    let tools = register_tools();
    let rs = register_resources();
    let r = reply(handle_jsonrpc(&request("tools/call", "{}"), &tools, &rs));
    assert_eq!(error_of(&r), (-32602, "Missing tool name".to_string()));
    let r = reply(handle_jsonrpc(&request("tools/call", "[1]"), &tools, &rs));
    assert_eq!(error_of(&r), (-32602, "Missing tool name".to_string()));
    let r = reply(handle_jsonrpc(&request("tools/call", r#"{"name": "browser_fly"}"#), &tools, &rs));
    assert_eq!(error_of(&r), (-32602, "Tool not found: browser_fly".to_string()));
}

#[test]
fn tools_call_runs_named_tool() {
    let tools = register_tools();
    let rs = register_resources();
    let d = handle_jsonrpc(&request("tools/call", r#"{"name": "browser_click", "arguments": {"selector": ".b"}}"#), &tools, &rs);
    match d {
        Dispatch::CallTool(plan) => assert!(single_script(&plan).contains(r#"document.querySelector(".b")"#)),
        other => panic!("unexpected {:?}", other),
    }
    let d = handle_jsonrpc(&request("tools/call", r#"{"name": "browser_click"}"#), &tools, &rs);
    match d {
        Dispatch::CallTool(ToolPlan::Reply(Err(e))) => assert_eq!(e, "Missing selector parameter"),
        other => panic!("unexpected {:?}", other),
    }
}

#[test]
fn tools_call_responses() {
    let req = request("tools/call", "{}");
    let r = finish_tools_call(&req, Ok(parse(r#"{"success": true}"#)));
    assert!(same(result_of(&r), r#"{"success": true}"#));
    let r = finish_tools_call(&req, Err("Window not found".to_string()));
    assert_eq!(error_of(&r), (-32000, "Window not found".to_string()));
}

#[test]
fn resources_read_dispatch() {
    let tools = register_tools();
    let rs = register_resources();
    let r = reply(handle_jsonrpc(&request("resources/read", "{}"), &tools, &rs));
    assert_eq!(error_of(&r), (-32602, "Missing resource URI".to_string()));
    let r = reply(handle_jsonrpc(&request("resources/read", r#"{"uri": "browser://x"}"#), &tools, &rs));
    assert_eq!(error_of(&r), (-32602, "Resource not found: browser://x".to_string()));
    match handle_jsonrpc(&request("resources/read", r#"{"uri": "browser://content"}"#), &tools, &rs) {
        Dispatch::ReadResource { kind, uri, mime_type, plan } => {
            assert_eq!(kind, ResourceKind::Content);
            assert_eq!(uri, "browser://content");
            assert_eq!(mime_type, "text/html");
            assert!(matches!(plan, ResourcePlan::Eval(_)));
        }
        other => panic!("unexpected {:?}", other),
    }
}

#[test]
fn resources_read_responses() {
    let req = request("resources/read", "{}");
    let r = finish_resources_read(&req, "browser://title", "text/plain", Ok("Home".to_string()));
    assert!(same(result_of(&r), r#"{"contents": [{"uri": "browser://title", "mimeType": "text/plain", "text": "Home"}]}"#));
    let r = finish_resources_read(&req, "browser://title", "text/plain", Err("Failed to get title: x".to_string()));
    assert_eq!(error_of(&r), (-32000, "Failed to get title: x".to_string()));
}

#[test]
fn health_and_sse() {
    assert!(same(&health_body(), r#"{"status": "ok", "version": "1.0.0"}"#));
    assert_eq!(sse_connected_data(), "connected");
}

#[test]
fn bind_address() {
    let on = McpConfig { enabled: true, host: "127.0.0.1".to_string(), port: 3000 };
    assert_eq!(mcp_bind_address(&on), Some("127.0.0.1:3000".to_string()));
    let off = McpConfig { enabled: false, host: "127.0.0.1".to_string(), port: 3000 };
    assert_eq!(mcp_bind_address(&off), None);
}

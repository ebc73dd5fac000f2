use copilot_mcp::clock::{millis_since_epoch, millis_to_i64, now_ms};
use copilot_mcp::commands::{
    clear_cache_outcome, continue_project_plan, continue_step_failure, download_step,
    finish_continue, ContinueOp,
    notification_failed, set_project_emit_failed, set_project_payload, theme_for_mode,
    DownloadEvent, MessageType, Theme,
};
use copilot_mcp::json::JsonValue;
use copilot_mcp::memory::{
    begin_record_message, init_schema_statement, open_failure, record_message_statements,
    resolve_product_name, statement_failure, MemoryContinueParams, MemoryRecordMessageParams,
    OpenStep, SqlParam, SqlStatement,
};

fn params(created_at: Option<i64>) -> MemoryRecordMessageParams {
    MemoryRecordMessageParams {
        role: "user".to_string(),
        content: "hello".to_string(),
        project_id: None,
        session_id: None,
        source: None,
        message_order: None,
        summary_group_id: None,
        tags: Some("a,b".to_string()),
        metadata_json: None,
        created_at,
    }
}

fn text(p: &SqlParam) -> &str {
    match p {
        SqlParam::Text(s) => s.as_str(),
        other => panic!("not text: {:?}", other),
    }
}

fn integer(p: &SqlParam) -> i64 {
    match p {
        SqlParam::Integer(i) => *i,
        other => panic!("not an integer: {:?}", other),
    }
}

fn is_null(p: &SqlParam) -> bool {
    matches!(p, SqlParam::Null)
}

fn json_text(v: &JsonValue) -> String {
    match v {
        JsonValue::String(s) => s.clone(),
        other => panic!("not a string: {:?}", other),
    }
}

#[test]
fn record_defaults() {
    let stmts = record_message_statements(&params(Some(1000)), 1000, "m-1");
    assert_eq!(stmts.len(), 6);
    // project
    assert!(stmts[0].sql.starts_with("INSERT OR IGNORE INTO projects"));
    assert_eq!(text(&stmts[0].params[0]), "default");
    assert_eq!(text(&stmts[0].params[1]), "default");
    assert_eq!(integer(&stmts[0].params[2]), 1000);
    assert_eq!(stmts[1].sql, "UPDATE projects SET updated_at = ? WHERE project_id = ?");
    // session
    assert_eq!(text(&stmts[2].params[0]), "session_1000");
    assert!(is_null(&stmts[2].params[4]));
    assert_eq!(text(&stmts[3].params[1]), "session_1000");
    // message
    let m = &stmts[4].params;
    assert_eq!(m.len(), 11);
    assert_eq!(text(&m[0]), "m-1");
    assert_eq!(text(&m[3]), "user");
    assert_eq!(text(&m[4]), "hello");
    assert_eq!(integer(&m[5]), 1000);
    assert_eq!(text(&m[6]), "copilot-webview");
    assert_eq!(integer(&m[7]), 1000);
    assert!(is_null(&m[8]));
    assert_eq!(text(&m[9]), "a,b");
    assert!(is_null(&m[10]));
    // full-text entry
    assert!(!stmts[5].must_succeed);
    assert_eq!(text(&stmts[5].params[0]), "m-1");
    assert_eq!(text(&stmts[5].params[1]), "default");
    assert_eq!(text(&stmts[5].params[2]), "session_1000");
}

#[test]
fn record_keeps_given_values() {
    let mut p = params(Some(-5));
    p.project_id = Some("work".to_string());
    p.session_id = Some("s1".to_string());
    p.source = Some("ext".to_string());
    p.message_order = Some(3);
    let stmts = record_message_statements(&p, -5, "id");
    assert_eq!(text(&stmts[0].params[0]), "work");
    assert_eq!(text(&stmts[2].params[0]), "s1");
    assert_eq!(text(&stmts[4].params[6]), "ext");
    assert_eq!(integer(&stmts[4].params[7]), 3);
    assert_eq!(integer(&stmts[4].params[5]), -5);
}

#[test]
fn record_negative_timestamp_session_name() {
    let stmts = record_message_statements(&params(Some(-42)), -42, "id");
    assert_eq!(text(&stmts[2].params[0]), "session_-42");
}

#[test]
fn begin_record_uses_created_at_and_fresh_uuid() {
    let plan = begin_record_message(&params(Some(77)));
    assert_eq!(plan.ts, 77);
    let id = plan.message_id.clone();
    assert_eq!(id.len(), 36);
    let chars: Vec<char> = id.chars().collect();
    for i in [8, 13, 18, 23] {
        assert_eq!(chars[i], '-');
    }
    assert_eq!(chars[14], '4');
    assert!("89ab".contains(chars[19]));
    assert!(id.chars().all(|c| c == '-' || c.is_ascii_digit() || ('a'..='f').contains(&c)));
    assert_eq!(text(&plan.statements[4].params[0]), id);
    let other = begin_record_message(&params(Some(77)));
    assert_ne!(other.message_id, plan.message_id);
}

#[test]
fn begin_record_uses_clock_without_created_at() {
    let before = now_ms();
    let plan = begin_record_message(&params(None));
    let after = now_ms();
    assert!(before <= plan.ts && plan.ts <= after);
    assert_eq!(text(&plan.statements[2].params[0]), format!("session_{}", plan.ts));
}

#[test]
fn clock_is_after_2020() {
    assert!(now_ms() > 1_577_836_800_000);
}

#[test]
fn millis_truncate_like_as_i64() {
    assert_eq!(millis_to_i64(1234), 1234);
    assert_eq!(millis_to_i64(u128::from(u64::MAX)), -1);
    assert_eq!(millis_to_i64(1u128 << 64), 0);
}

#[test]
fn schema_statement_is_a_batch() {
    let s = init_schema_statement();
    assert!(s.batch);
    assert!(s.params.is_empty());
    assert!(s.sql.contains("CREATE VIRTUAL TABLE IF NOT EXISTS messages_fts USING fts5("));
    assert_eq!(s.failure_prefix, "Init schema failed: ");
}

#[test]
fn statement_failures() {
    let stmts = record_message_statements(&params(Some(1)), 1, "id");
    assert_eq!(statement_failure(&stmts[0], Err("locked".to_string())), Some("Insert project failed: locked".to_string()));
    assert_eq!(statement_failure(&stmts[4], Err("x".to_string())), Some("Insert message failed: x".to_string()));
    assert_eq!(statement_failure(&stmts[5], Err("no fts5".to_string())), None);
    assert_eq!(statement_failure(&stmts[1], Ok(())), None);
    let schema: SqlStatement = init_schema_statement();
    assert_eq!(statement_failure(&schema, Err("e".to_string())), Some("Init schema failed: e".to_string()));
}

#[test]
fn product_name_default() {
    assert_eq!(resolve_product_name(None), "pake");
    assert_eq!(resolve_product_name(Some("Copilot".to_string())), "Copilot");
}

#[test]
fn download_file_steps() {
    let s = download_step(DownloadEvent::WindowMissing);
    assert_eq!(s.toast, None);
    assert_eq!(s.finish, Some(Err("Window not found".to_string())));
    let s = download_step(DownloadEvent::WindowFound);
    assert_eq!(s.toast, Some(MessageType::Start));
    assert_eq!(s.finish, None);
    assert_eq!(download_step(DownloadEvent::DownloadDirFailed("x".into())).finish, Some(Err("Failed to get download dir: x".to_string())));
    assert_eq!(download_step(DownloadEvent::PathNotUtf8).finish, Some(Err("Invalid output path".to_string())));
    assert_eq!(download_step(DownloadEvent::ClientFailed("c".into())).finish, Some(Err("Failed to build client: c".to_string())));
    assert_eq!(download_step(DownloadEvent::UrlInvalid("u".into())).finish, Some(Err("Invalid URL: u".to_string())));
    let s = download_step(DownloadEvent::RequestFailed("timeout".into()));
    assert_eq!(s.toast, Some(MessageType::Failure));
    assert_eq!(s.finish, Some(Err("timeout".to_string())));
    assert_eq!(download_step(DownloadEvent::FileCreateFailed("f".into())).finish, Some(Err("Failed to create file: f".to_string())));
    assert_eq!(download_step(DownloadEvent::ChunkReadFailed("r".into())).finish, Some(Err("Failed to get chunk: r".to_string())));
    assert_eq!(download_step(DownloadEvent::ChunkWriteFailed("w".into())).finish, Some(Err("Failed to write chunk: w".to_string())));
    let s = download_step(DownloadEvent::BodyWritten);
    assert_eq!(s.toast, Some(MessageType::Success));
    assert_eq!(s.finish, Some(Ok(())));
    for e in [DownloadEvent::DownloadDirFound, DownloadEvent::PathReady, DownloadEvent::ClientReady, DownloadEvent::UrlValid, DownloadEvent::ResponseReceived] {
        let s = download_step(e);
        assert_eq!(s.toast, None);
        assert_eq!(s.finish, None);
    }
}

#[test]
fn download_binary_steps() {
    let s = download_step(DownloadEvent::WriteFailed("disk full".into()));
    assert_eq!(s.toast, Some(MessageType::Failure));
    assert_eq!(s.finish, Some(Err("disk full".to_string())));
    let s = download_step(DownloadEvent::Written);
    assert_eq!(s.toast, Some(MessageType::Success));
    assert_eq!(s.finish, Some(Ok(())));
}

#[test]
fn theme_modes() {
    assert_eq!(theme_for_mode("dark"), Theme::Dark);
    assert_eq!(theme_for_mode("light"), Theme::Light);
    assert_eq!(theme_for_mode("Dark"), Theme::Light);
}

#[test]
fn clear_cache_outcomes() {
    assert_eq!(clear_cache_outcome(None), Err("Main window not found".to_string()));
    assert_eq!(clear_cache_outcome(Some(Ok(()))), Ok(()));
    assert_eq!(clear_cache_outcome(Some(Err("busy".to_string()))), Err("Failed to clear browsing data: busy".to_string()));
}

#[test]
fn notification_and_emit_errors() {
    assert_eq!(notification_failed("x"), "Failed to show notification: x");
    assert_eq!(set_project_emit_failed("y"), "Emit set project failed: y");
}

#[test]
fn continue_project_payloads() {
    let p = MemoryContinueParams { project_id: Some("p1".to_string()), session_id: None, open_new: None };
    let steps = continue_project_plan(&p, "PACK", true);
    assert_eq!(steps.len(), 4);
    match &steps[0].op {
        ContinueOp::Emit(event, payload) => {
            assert_eq!(event, "memory_set_project");
            assert_eq!(json_text(payload.get("project_id").unwrap()), "p1");
        }
        other => panic!("unexpected {:?}", other),
    }
    assert!(steps[0].failure_prefix.is_none());
    assert!(matches!(steps[1].op, ContinueOp::Show));
    assert!(matches!(steps[2].op, ContinueOp::Focus));
    match &steps[3].op {
        ContinueOp::Emit(event, payload) => {
            assert_eq!(event, "memory_context_pack");
            assert_eq!(json_text(payload.get("text").unwrap()), "PACK");
            assert_eq!(payload.get("forceNewChat").unwrap().as_bool(), Some(true));
        }
        other => panic!("unexpected {:?}", other),
    }
    assert_eq!(steps[3].failure_prefix.as_deref(), Some("Emit context pack failed: "));
    let q = MemoryContinueParams { project_id: None, session_id: None, open_new: Some(false) };
    let steps = continue_project_plan(&q, "", true);
    assert_eq!(steps.len(), 3);
    match &steps[2].op {
        ContinueOp::Emit(_, payload) => assert_eq!(payload.get("forceNewChat").unwrap().as_bool(), Some(false)),
        other => panic!("unexpected {:?}", other),
    }
}

#[test]
fn continue_project_without_window_sends_nothing() {
    let p = MemoryContinueParams { project_id: Some("p1".to_string()), session_id: None, open_new: None };
    assert!(continue_project_plan(&p, "PACK", false).is_empty());
    assert_eq!(finish_continue("PACK".to_string(), None), Ok("PACK".to_string()));
}

#[test]
fn continue_project_failures() {
    let p = MemoryContinueParams { project_id: Some("p1".to_string()), session_id: None, open_new: None };
    let steps = continue_project_plan(&p, "PACK", true);
    assert_eq!(continue_step_failure(&steps[0], Err("gone".to_string())), None);
    assert_eq!(continue_step_failure(&steps[1], Err("hidden".to_string())), None);
    assert_eq!(continue_step_failure(&steps[3], Ok(())), None);
    let e = continue_step_failure(&steps[3], Err("z".to_string()));
    assert_eq!(e, Some("Emit context pack failed: z".to_string()));
    assert_eq!(finish_continue("PACK".to_string(), e), Err("Emit context pack failed: z".to_string()));
}

#[test]
fn set_project_payload_member() {
    let v = set_project_payload("abc");
    assert_eq!(json_text(v.get("project_id").unwrap()), "abc");
    assert!(v.is_object());
}

#[test]
fn millis_since_epoch_before_and_after() {
    assert_eq!(millis_since_epoch(None), 0);
    assert_eq!(millis_since_epoch(Some(1_700_000_000_123)), 1_700_000_000_123);
    assert_eq!(millis_since_epoch(Some(u128::from(u64::MAX))), -1);
}

#[test]
fn open_failures_name_the_step() {
    assert_eq!(open_failure(OpenStep::DataDir, "x"), "Failed to get app data dir: x");
    assert_eq!(open_failure(OpenStep::CreateDir, "denied"), "Failed to create memory dir: denied");
    assert_eq!(open_failure(OpenStep::Open, "busy"), "Open DB failed: busy");
    assert_eq!(open_failure(OpenStep::BusyTimeout, "e"), "DB busy timeout failed: e");
}

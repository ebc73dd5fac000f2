use vstd::prelude::*;
use crate::text::{join2, push_signed_decimal, signed_decimal};
use crate::clock::now_ms;

verus! {

/// Arguments of recording one chat message.
#[derive(Debug)]
pub struct MemoryRecordMessageParams {
    pub role: String,
    pub content: String,
    pub project_id: Option<String>,
    pub session_id: Option<String>,
    pub source: Option<String>,
    pub message_order: Option<i64>,
    pub summary_group_id: Option<String>,
    pub tags: Option<String>,
    pub metadata_json: Option<String>,
    pub created_at: Option<i64>,
}

/// Arguments of creating a project.
#[derive(Debug)]
pub struct MemoryCreateProjectParams {
    pub name: String,
    pub description: Option<String>,
}

/// Arguments of listing the sessions of a project.
#[derive(Debug)]
pub struct MemoryListSessionsParams {
    pub project_id: String,
}

/// Arguments of building a context pack.
#[derive(Debug)]
pub struct MemoryGetContextPackParams {
    pub project_id: Option<String>,
    pub session_id: Option<String>,
}

/// Arguments of searching messages.
#[derive(Debug)]
pub struct MemorySearchParams {
    pub query: String,
    pub project_id: Option<String>,
    pub limit: Option<i64>,
}

/// Arguments of searching summaries.
#[derive(Debug)]
pub struct MemorySearchSummariesParams {
    pub query: String,
    pub project_id: Option<String>,
    pub limit: Option<i64>,
}

/// Arguments of listing summaries.
#[derive(Debug)]
pub struct MemoryListSummariesParams {
    pub project_id: String,
    pub session_id: Option<String>,
    pub summary_type: Option<String>,
    pub limit: Option<i64>,
}

/// Arguments of listing the messages of a session.
#[derive(Debug)]
pub struct MemoryListMessagesParams {
    pub session_id: String,
    pub limit: Option<i64>,
    pub offset: Option<i64>,
}

/// Arguments of continuing a project in the chat window.
#[derive(Debug)]
pub struct MemoryContinueParams {
    pub project_id: Option<String>,
    pub session_id: Option<String>,
    pub open_new: Option<bool>,
}

/// Arguments of making a project the active one.
#[derive(Debug)]
pub struct MemorySetProjectParams {
    pub project_id: String,
}

/// A project as listed.
#[derive(Debug)]
pub struct MemoryProjectInfo {
    pub project_id: String,
    pub name: String,
    pub description: Option<String>,
    pub updated_at: i64,
    pub pinned: i64,
}

/// A session as listed.
#[derive(Debug)]
pub struct MemorySessionInfo {
    pub session_id: String,
    pub project_id: String,
    pub title: Option<String>,
    pub updated_at: i64,
    pub source_url: Option<String>,
    pub archived: i64,
}

/// A message as a search finds it.
#[derive(Debug)]
pub struct MemorySearchItem {
    pub id: String,
    pub project_id: String,
    pub session_id: String,
    pub role: String,
    pub content: String,
    pub created_at: i64,
}

/// A message as listed.
#[derive(Debug)]
pub struct MemoryMessageInfo {
    pub id: String,
    pub session_id: String,
    pub role: String,
    pub content: String,
    pub created_at: i64,
    pub message_order: i64,
}

/// A summary as listed.
#[derive(Debug)]
pub struct MemorySummaryInfo {
    pub summary_id: String,
    pub project_id: String,
    pub session_id: Option<String>,
    pub summary_type: String,
    pub source_range_start: Option<i64>,
    pub source_range_end: Option<i64>,
    pub content: String,
    pub created_at: i64,
}

/// A value bound to a `?` of an SQL statement.
#[derive(Debug)]
pub enum SqlParam {
    Null,
    Integer(i64),
    Text(String),
}

pub enum SqlParamModel {
    Null,
    Integer(i64),
    Text(Seq<char>),
}

pub open spec fn sql_param_model(p: SqlParam) -> SqlParamModel {
    match p {
        SqlParam::Null => SqlParamModel::Null,
        SqlParam::Integer(i) => SqlParamModel::Integer(i),
        SqlParam::Text(s) => SqlParamModel::Text(s@),
    }
}

/// An optional text: NULL when absent.
pub open spec fn opt_text(o: Option<String>) -> SqlParamModel {
    match o {
        Some(s) => SqlParamModel::Text(s@),
        None => SqlParamModel::Null,
    }
}

/// One SQL statement to run on the memory database: with `batch` the text
/// holds several statements and no parameters. When it fails and
/// `must_succeed` holds, the operation stops with `failure_prefix` followed
/// by the database's error text; otherwise its failure is ignored.
#[derive(Debug)]
pub struct SqlStatement {
    pub sql: String,
    pub params: Vec<SqlParam>,
    pub batch: bool,
    pub failure_prefix: String,
    pub must_succeed: bool,
}

pub struct StatementModel {
    pub sql: Seq<char>,
    pub params: Seq<SqlParamModel>,
    pub batch: bool,
    pub failure_prefix: Seq<char>,
    pub must_succeed: bool,
}

pub open spec fn statement_model(s: SqlStatement) -> StatementModel {
    StatementModel {
        sql: s.sql@,
        params: s.params@.map_values(|p: SqlParam| sql_param_model(p)),
        batch: s.batch,
        failure_prefix: s.failure_prefix@,
        must_succeed: s.must_succeed,
    }
}

pub open spec fn statements_model(v: Seq<SqlStatement>) -> Seq<StatementModel> {
    v.map_values(|s: SqlStatement| statement_model(s))
}

/// The tables, indexes and full-text index of the memory database.
pub const MEMORY_SCHEMA: &'static str = r##"
        CREATE TABLE IF NOT EXISTS projects (
            project_id TEXT PRIMARY KEY,
            name TEXT NOT NULL,
            description TEXT,
            created_at INTEGER NOT NULL,
            updated_at INTEGER NOT NULL,
            pinned INTEGER DEFAULT 0
        );

        CREATE TABLE IF NOT EXISTS sessions (
            session_id TEXT PRIMARY KEY,
            project_id TEXT NOT NULL,
            title TEXT,
            created_at INTEGER NOT NULL,
            updated_at INTEGER NOT NULL,
            source_url TEXT,
            archived INTEGER DEFAULT 0,
            FOREIGN KEY(project_id) REFERENCES projects(project_id)
        );

        CREATE TABLE IF NOT EXISTS messages (
            id TEXT PRIMARY KEY,
            session_id TEXT NOT NULL,
            project_id TEXT NOT NULL,
            role TEXT NOT NULL,
            content TEXT NOT NULL,
            created_at INTEGER NOT NULL,
            source TEXT,
            message_order INTEGER,
            summary_group_id TEXT,
            tags TEXT,
            metadata_json TEXT,
            FOREIGN KEY(session_id) REFERENCES sessions(session_id),
            FOREIGN KEY(project_id) REFERENCES projects(project_id)
        );

        CREATE TABLE IF NOT EXISTS summaries (
            summary_id TEXT PRIMARY KEY,
            project_id TEXT NOT NULL,
            session_id TEXT,
            summary_type TEXT NOT NULL,
            source_range_start INTEGER,
            source_range_end INTEGER,
            content TEXT NOT NULL,
            created_at INTEGER NOT NULL
        );

        CREATE INDEX IF NOT EXISTS idx_messages_session ON messages(session_id, created_at);
        CREATE INDEX IF NOT EXISTS idx_messages_project ON messages(project_id, created_at);
        CREATE INDEX IF NOT EXISTS idx_sessions_project ON sessions(project_id, updated_at);

        CREATE VIRTUAL TABLE IF NOT EXISTS messages_fts USING fts5(
            id,
            project_id,
            session_id,
            role,
            content,
            tokenize = 'porter'
        );
        "##;

pub const INSERT_PROJECT: &'static str = "INSERT OR IGNORE INTO projects (project_id, name, created_at, updated_at, pinned) VALUES (?, ?, ?, ?, 0)";

pub const UPDATE_PROJECT: &'static str = "UPDATE projects SET updated_at = ? WHERE project_id = ?";

pub const INSERT_SESSION: &'static str = "INSERT OR IGNORE INTO sessions (session_id, project_id, title, created_at, updated_at, source_url, archived) VALUES (?, ?, NULL, ?, ?, ?, 0)";

pub const UPDATE_SESSION: &'static str = "UPDATE sessions SET updated_at = ? WHERE session_id = ?";

pub const INSERT_MESSAGE: &'static str = "INSERT INTO messages (id, session_id, project_id, role, content, created_at, source, message_order, summary_group_id, tags, metadata_json)
         VALUES (?, ?, ?, ?, ?, ?, ?, ?, ?, ?, ?)";

pub const INSERT_MESSAGE_FTS: &'static str = "INSERT INTO messages_fts (id, project_id, session_id, role, content) VALUES (?, ?, ?, ?, ?)";

/// The statement that creates the schema when it is missing.
pub open spec fn schema_statement_spec() -> StatementModel {
    StatementModel {
        sql: MEMORY_SCHEMA@,
        params: Seq::empty(),
        batch: true,
        failure_prefix: "Init schema failed: "@,
        must_succeed: true,
    }
}

pub fn init_schema_statement() -> (r: SqlStatement)
    ensures
        statement_model(r) == schema_statement_spec(),
{
    let params: Vec<SqlParam> = Vec::new();
    let r = SqlStatement {
        sql: MEMORY_SCHEMA.to_owned(),
        params,
        batch: true,
        failure_prefix: "Init schema failed: ".to_owned(),
        must_succeed: true,
    };
    assert(statement_model(r).params =~= Seq::<SqlParamModel>::empty());
    r
}

/// The values that recording a message fills in where the arguments leave
/// them out.
pub struct RecordValues {
    pub ts: i64,
    pub project_id: Seq<char>,
    pub session_id: Seq<char>,
    pub source: Seq<char>,
    pub message_order: i64,
}

/// `created_at`, else the time now; the project `default`; the session
/// `session_{ts}`; the source `copilot-webview`; the order `ts`.
pub open spec fn record_values(p: MemoryRecordMessageParams, now: i64) -> RecordValues {
    let ts = match p.created_at {
        Some(t) => t,
        None => now,
    };
    RecordValues {
        ts,
        project_id: match p.project_id {
            Some(s) => s@,
            None => "default"@,
        },
        session_id: match p.session_id {
            Some(s) => s@,
            None => "session_"@ + signed_decimal(ts as int),
        },
        source: match p.source {
            Some(s) => s@,
            None => "copilot-webview"@,
        },
        message_order: match p.message_order {
            Some(o) => o,
            None => ts,
        },
    }
}

pub open spec fn text(s: Seq<char>) -> SqlParamModel {
    SqlParamModel::Text(s)
}

pub open spec fn integer(i: i64) -> SqlParamModel {
    SqlParamModel::Integer(i)
}

/// A statement whose failure stops the operation.
pub open spec fn required_statement(sql: Seq<char>, params: Seq<SqlParamModel>, prefix: Seq<char>) -> StatementModel {
    StatementModel { sql, params, batch: false, failure_prefix: prefix, must_succeed: true }
}

/// The statements that make sure project `project_id` exists (named after
/// its id, created and updated at `ts`, not pinned) and set its
/// `updated_at` to `ts`.
pub open spec fn ensure_project_spec(project_id: Seq<char>, ts: i64) -> Seq<StatementModel> {
    seq![
        required_statement(
            INSERT_PROJECT@,
            seq![text(project_id), text(project_id), integer(ts), integer(ts)],
            "Insert project failed: "@,
        ),
        required_statement(
            UPDATE_PROJECT@,
            seq![integer(ts), text(project_id)],
            "Update project failed: "@,
        ),
    ]
}

/// An optional text: NULL when absent.
pub open spec fn opt_text_of(o: Option<Seq<char>>) -> SqlParamModel {
    match o {
        Some(s) => SqlParamModel::Text(s),
        None => SqlParamModel::Null,
    }
}

/// The statements that make sure session `session_id` of project
/// `project_id` exists (untitled, created and updated at `ts`, with
/// `source_url`, not archived) and set its `updated_at` to `ts`.
pub open spec fn ensure_session_spec(
    session_id: Seq<char>,
    project_id: Seq<char>,
    ts: i64,
    source_url: Option<Seq<char>>,
) -> Seq<StatementModel> {
    seq![
        required_statement(
            INSERT_SESSION@,
            seq![
                text(session_id),
                text(project_id),
                integer(ts),
                integer(ts),
                opt_text_of(source_url),
            ],
            "Insert session failed: "@,
        ),
        required_statement(
            UPDATE_SESSION@,
            seq![integer(ts), text(session_id)],
            "Update session failed: "@,
        ),
    ]
}

/// The statement that inserts message `message_id` with the values `v`.
pub open spec fn insert_message_spec(p: MemoryRecordMessageParams, v: RecordValues, message_id: Seq<char>) -> StatementModel {
    required_statement(
        INSERT_MESSAGE@,
        seq![
            text(message_id),
            text(v.session_id),
            text(v.project_id),
            text(p.role@),
            text(p.content@),
            integer(v.ts),
            text(v.source),
            integer(v.message_order),
            opt_text(p.summary_group_id),
            opt_text(p.tags),
            opt_text(p.metadata_json),
        ],
        "Insert message failed: "@,
    )
}

/// The statement that indexes message `message_id` for full-text search;
/// its failure is ignored.
pub open spec fn index_message_spec(p: MemoryRecordMessageParams, v: RecordValues, message_id: Seq<char>) -> StatementModel {
    StatementModel {
        sql: INSERT_MESSAGE_FTS@,
        params: seq![
            text(message_id),
            text(v.project_id),
            text(v.session_id),
            text(p.role@),
            text(p.content@),
        ],
        batch: false,
        failure_prefix: Seq::empty(),
        must_succeed: false,
    }
}

/// The statements that record message `message_id` with the arguments `p`,
/// after the schema exists: make sure the project and the session (with no
/// source URL) exist and touch their `updated_at`, insert the message, and
/// index it for full-text search (a failure of the last is ignored).
pub open spec fn record_statements_spec(p: MemoryRecordMessageParams, now: i64, message_id: Seq<char>) -> Seq<StatementModel> {
    let v = record_values(p, now);
    ensure_project_spec(v.project_id, v.ts) + ensure_session_spec(
        v.session_id,
        v.project_id,
        v.ts,
        None,
    ) + seq![insert_message_spec(p, v, message_id), index_message_spec(p, v, message_id)]
}

fn text_param(s: &str) -> (r: SqlParam)
    ensures
        sql_param_model(r) == text(s@),
{
    SqlParam::Text(s.to_owned())
}

fn opt_text_param(o: &Option<String>) -> (r: SqlParam)
    ensures
        sql_param_model(r) == opt_text(*o),
{
    match o {
        Some(s) => SqlParam::Text(s.clone()),
        None => SqlParam::Null,
    }
}

fn push_param(v: &mut Vec<SqlParam>, p: SqlParam)
    ensures
        final(v)@.map_values(|q: SqlParam| sql_param_model(q)) == old(v)@.map_values(
            |q: SqlParam| sql_param_model(q),
        ).push(sql_param_model(p)),
{
    let ghost before = v@;
    v.push(p);
    assert(v@.map_values(|q: SqlParam| sql_param_model(q)) =~= before.map_values(
        |q: SqlParam| sql_param_model(q),
    ).push(sql_param_model(p)));
}

fn required(sql: &str, params: Vec<SqlParam>, prefix: &str) -> (r: SqlStatement)
    ensures
        statement_model(r) == required_statement(
            sql@,
            params@.map_values(|q: SqlParam| sql_param_model(q)),
            prefix@,
        ),
{
    SqlStatement {
        sql: sql.to_owned(),
        params,
        batch: false,
        failure_prefix: prefix.to_owned(),
        must_succeed: true,
    }
}

fn push_statement(v: &mut Vec<SqlStatement>, s: SqlStatement)
    ensures
        statements_model(final(v)@) == statements_model(old(v)@).push(statement_model(s)),
{
    let ghost before = v@;
    v.push(s);
    assert(statements_model(v@) =~= statements_model(before).push(statement_model(s)));
}

/// Appends the statements of `ensure_project_spec(project_id, ts)`.
pub fn ensure_project(out: &mut Vec<SqlStatement>, project_id: &str, ts: i64)
    ensures
        statements_model(final(out)@) == statements_model(old(out)@) + ensure_project_spec(
            project_id@,
            ts,
        ),
{
    let ghost start = statements_model(out@);
    let mut a: Vec<SqlParam> = Vec::new();
    assert(a@.map_values(|q: SqlParam| sql_param_model(q)) =~= Seq::<SqlParamModel>::empty());
    push_param(&mut a, text_param(project_id));
    push_param(&mut a, text_param(project_id));
    push_param(&mut a, SqlParam::Integer(ts));
    push_param(&mut a, SqlParam::Integer(ts));
    assert(a@.map_values(|q: SqlParam| sql_param_model(q)) =~= seq![
        text(project_id@),
        text(project_id@),
        integer(ts),
        integer(ts),
    ]);
    push_statement(out, required(INSERT_PROJECT, a, "Insert project failed: "));
    let mut b: Vec<SqlParam> = Vec::new();
    assert(b@.map_values(|q: SqlParam| sql_param_model(q)) =~= Seq::<SqlParamModel>::empty());
    push_param(&mut b, SqlParam::Integer(ts));
    push_param(&mut b, text_param(project_id));
    assert(b@.map_values(|q: SqlParam| sql_param_model(q)) =~= seq![
        integer(ts),
        text(project_id@),
    ]);
    push_statement(out, required(UPDATE_PROJECT, b, "Update project failed: "));
    assert(statements_model(out@) =~= start + ensure_project_spec(project_id@, ts));
}

pub open spec fn opt_str_model(o: Option<&str>) -> Option<Seq<char>> {
    match o {
        Some(s) => Some(s@),
        None => None,
    }
}

fn opt_str_param(o: Option<&str>) -> (r: SqlParam)
    ensures
        sql_param_model(r) == opt_text_of(opt_str_model(o)),
{
    match o {
        Some(s) => SqlParam::Text(s.to_owned()),
        None => SqlParam::Null,
    }
}

/// Appends the statements of `ensure_session_spec(session_id, project_id,
/// ts, source_url)`.
pub fn ensure_session(
    out: &mut Vec<SqlStatement>,
    session_id: &str,
    project_id: &str,
    ts: i64,
    source_url: Option<&str>,
)
    ensures
        statements_model(final(out)@) == statements_model(old(out)@) + ensure_session_spec(
            session_id@,
            project_id@,
            ts,
            opt_str_model(source_url),
        ),
{
    let ghost start = statements_model(out@);
    let ghost url = opt_str_model(source_url);
    let mut c: Vec<SqlParam> = Vec::new();
    assert(c@.map_values(|q: SqlParam| sql_param_model(q)) =~= Seq::<SqlParamModel>::empty());
    push_param(&mut c, text_param(session_id));
    push_param(&mut c, text_param(project_id));
    push_param(&mut c, SqlParam::Integer(ts));
    push_param(&mut c, SqlParam::Integer(ts));
    push_param(&mut c, opt_str_param(source_url));
    assert(c@.map_values(|q: SqlParam| sql_param_model(q)) =~= seq![
        text(session_id@),
        text(project_id@),
        integer(ts),
        integer(ts),
        opt_text_of(url),
    ]);
    push_statement(out, required(INSERT_SESSION, c, "Insert session failed: "));
    let mut d: Vec<SqlParam> = Vec::new();
    assert(d@.map_values(|q: SqlParam| sql_param_model(q)) =~= Seq::<SqlParamModel>::empty());
    push_param(&mut d, SqlParam::Integer(ts));
    push_param(&mut d, text_param(session_id));
    assert(d@.map_values(|q: SqlParam| sql_param_model(q)) =~= seq![
        integer(ts),
        text(session_id@),
    ]);
    push_statement(out, required(UPDATE_SESSION, d, "Update session failed: "));
    assert(statements_model(out@) =~= start + ensure_session_spec(
        session_id@,
        project_id@,
        ts,
        url,
    ));
}

/// The default project, session, source and order of a message recorded at
/// `ts`.
pub fn resolve_record_values(p: &MemoryRecordMessageParams, ts: i64) -> (r: (String, String, String, i64))
    requires
        p.created_at matches Some(t) ==> t == ts,
    ensures
        r.0@ == record_values(*p, ts).project_id,
        r.1@ == record_values(*p, ts).session_id,
        r.2@ == record_values(*p, ts).source,
        r.3 == record_values(*p, ts).message_order,
        record_values(*p, ts).ts == ts,
{
    let project_id = match &p.project_id {
        Some(s) => s.clone(),
        None => "default".to_owned(),
    };
    let session_id = match &p.session_id {
        Some(s) => s.clone(),
        None => {
            let mut s = String::from_str("session_");
            push_signed_decimal(&mut s, ts);
            s
        },
    };
    let source = match &p.source {
        Some(s) => s.clone(),
        None => "copilot-webview".to_owned(),
    };
    let order = match p.message_order {
        Some(o) => o,
        None => ts,
    };
    (project_id, session_id, source, order)
}

/// The statements that record the message `message_id` with the arguments
/// `p` at `ts` (the message's `created_at`, or the time now when it has
/// none).
pub fn record_message_statements(p: &MemoryRecordMessageParams, ts: i64, message_id: &str) -> (r: Vec<SqlStatement>)
    requires
        p.created_at matches Some(t) ==> t == ts,
    ensures
        statements_model(r@) == record_statements_spec(*p, ts, message_id@),
{
    let (project_id, session_id, source, order) = resolve_record_values(p, ts);
    let ghost v = record_values(*p, ts);
    let pid = project_id.as_str();
    let sid = session_id.as_str();
    let mut out: Vec<SqlStatement> = Vec::new();
    assert(statements_model(out@) =~= Seq::<StatementModel>::empty());

    ensure_project(&mut out, pid, ts);
    ensure_session(&mut out, sid, pid, ts, None);
    assert(statements_model(out@) =~= ensure_project_spec(v.project_id, ts) + ensure_session_spec(
        v.session_id,
        v.project_id,
        ts,
        None,
    ));

    let mut e: Vec<SqlParam> = Vec::new();
    assert(e@.map_values(|q: SqlParam| sql_param_model(q)) =~= Seq::<SqlParamModel>::empty());
    push_param(&mut e, text_param(message_id));
    push_param(&mut e, text_param(sid));
    push_param(&mut e, text_param(pid));
    push_param(&mut e, text_param(p.role.as_str()));
    push_param(&mut e, text_param(p.content.as_str()));
    push_param(&mut e, SqlParam::Integer(ts));
    push_param(&mut e, text_param(source.as_str()));
    push_param(&mut e, SqlParam::Integer(order));
    push_param(&mut e, opt_text_param(&p.summary_group_id));
    push_param(&mut e, opt_text_param(&p.tags));
    push_param(&mut e, opt_text_param(&p.metadata_json));
    assert(e@.map_values(|q: SqlParam| sql_param_model(q)) =~= seq![text(message_id@), text(v.session_id), text(v.project_id), text(p.role@), text(p.content@), integer(ts), text(v.source), integer(v.message_order), opt_text(p.summary_group_id), opt_text(p.tags), opt_text(p.metadata_json)]);
    push_statement(&mut out, required(INSERT_MESSAGE, e, "Insert message failed: "));

    let mut f: Vec<SqlParam> = Vec::new();
    assert(f@.map_values(|q: SqlParam| sql_param_model(q)) =~= Seq::<SqlParamModel>::empty());
    push_param(&mut f, text_param(message_id));
    push_param(&mut f, text_param(pid));
    push_param(&mut f, text_param(sid));
    push_param(&mut f, text_param(p.role.as_str()));
    push_param(&mut f, text_param(p.content.as_str()));
    assert(f@.map_values(|q: SqlParam| sql_param_model(q)) =~= seq![text(message_id@), text(v.project_id), text(v.session_id), text(p.role@), text(p.content@)]);
    push_statement(
        &mut out,
        SqlStatement {
            sql: INSERT_MESSAGE_FTS.to_owned(),
            params: f,
            batch: false,
            failure_prefix: String::new(),
            must_succeed: false,
        },
    );
    assert(statements_model(out@) =~= record_statements_spec(*p, ts, message_id@));
    out
}

/// The text of a random version-4 UUID in hyphenated lowercase form:
/// 36 characters, `-` at positions 8, 13, 18 and 23, lowercase hexadecimal
/// digits elsewhere, version digit `4` at position 14 and variant digit
/// `8`, `9`, `a` or `b` at position 19.
pub open spec fn is_uuid_v4_text(s: Seq<char>) -> bool {
    &&& s.len() == 36
    &&& forall|i: int|
        0 <= i < 36 ==> if i == 8 || i == 13 || i == 18 || i == 23 {
            s[i] == '-'
        } else {
            ('0' <= #[trigger] s[i] <= '9') || ('a' <= s[i] <= 'f')
        }
    &&& s[14] == '4'
    &&& (s[19] == '8' || s[19] == '9' || s[19] == 'a' || s[19] == 'b')
}

/// `uuid::Uuid::new_v4().to_string()`. The uuid crate documents `new_v4` as
/// a random UUID of version 4 (RFC 9562 variant) and writes a UUID with
/// `Display` in the hyphenated lowercase form; this item states that form.
/// Which UUID comes out is chance and is not stated.
#[verifier::external_body]
fn new_uuid_v4() -> (r: String)
    ensures
        is_uuid_v4_text(r@),
{
    uuid::Uuid::new_v4().to_string()
}

/// Recording a message, decided: its timestamp, its new id and the
/// statements to run after the schema statement.
#[derive(Debug)]
pub struct RecordPlan {
    pub ts: i64,
    pub message_id: String,
    pub statements: Vec<SqlStatement>,
}

/// Decides how to record a message: the timestamp is `created_at` (or the
/// time now), the id a fresh random UUID.
pub fn begin_record_message(p: &MemoryRecordMessageParams) -> (r: RecordPlan)
    ensures
        p.created_at matches Some(t) ==> r.ts == t,
        is_uuid_v4_text(r.message_id@),
        statements_model(r.statements@) == record_statements_spec(*p, r.ts, r.message_id@),
{
    let ts = match p.created_at {
        Some(t) => t,
        None => now_ms(),
    };
    let message_id = new_uuid_v4();
    let statements = record_message_statements(p, ts, message_id.as_str());
    RecordPlan { ts, message_id, statements }
}

/// What to do after running `stmt` with `outcome`: `Some(error)` stops the
/// operation with that error; `None` goes on.
pub fn statement_failure(stmt: &SqlStatement, outcome: Result<(), String>) -> (r: Option<String>)
    ensures
        match outcome {
            Ok(_) => r is None,
            Err(e) => if stmt.must_succeed {
                r matches Some(m) && m@ == stmt.failure_prefix@ + e@
            } else {
                r is None
            },
        },
{
    match outcome {
        Ok(_) => None,
        Err(e) => {
            if stmt.must_succeed {
                Some(join2(stmt.failure_prefix.as_str(), e.as_str()))
            } else {
                None
            }
        },
    }
}

/// The message row and its full-text entry carry the same id, project,
/// session, role and content; every statement but the full-text entry must
/// succeed; and the message's timestamp is also the project's and the
/// session's `updated_at`.
pub proof fn lemma_record_consistency(p: MemoryRecordMessageParams, now: i64, message_id: Seq<char>)
    ensures
        ({
            let s = record_statements_spec(p, now, message_id);
            let v = record_values(p, now);
            &&& s.len() == 6
            &&& forall|i: int| 0 <= i < 5 ==> (#[trigger] s[i]).must_succeed
            &&& !s[5].must_succeed
            &&& s[5].params[0] == s[4].params[0]
            &&& s[5].params[1] == s[4].params[2]
            &&& s[5].params[2] == s[4].params[1]
            &&& s[5].params[3] == s[4].params[3]
            &&& s[5].params[4] == s[4].params[4]
            &&& s[1].params[0] == integer(v.ts)
            &&& s[3].params[0] == integer(v.ts)
            &&& s[4].params[5] == integer(v.ts)
        }),
{
}

/// A session row belongs to the project it is ensured for: its insert binds
/// the session's id first and the project's id second, and the update that
/// follows touches that same session.
pub proof fn lemma_session_belongs_to_project(
    session_id: Seq<char>,
    project_id: Seq<char>,
    ts: i64,
    source_url: Option<Seq<char>>,
)
    ensures
        ({
            let s = ensure_session_spec(session_id, project_id, ts, source_url);
            &&& s[0].params[0] == text(session_id)
            &&& s[0].params[1] == text(project_id)
            &&& s[1].params[1] == text(session_id)
        }),
{
}

/// Recording a message files everything under one project and one session:
/// the project row, the session's project, and the message's project are
/// the message's project (`default` when none is given); the session row,
/// the session update and the message's session are the message's session
/// (`session_{ts}` when none is given, `ts` being `created_at` or else the
/// time now); and the message row carries the new id, the role and the
/// content.
pub proof fn lemma_record_links(p: MemoryRecordMessageParams, now: i64, message_id: Seq<char>)
    ensures
        ({
            let s = record_statements_spec(p, now, message_id);
            let ts = match p.created_at {
                Some(t) => t,
                None => now,
            };
            let project = match p.project_id {
                Some(x) => x@,
                None => "default"@,
            };
            let session = match p.session_id {
                Some(x) => x@,
                None => "session_"@ + signed_decimal(ts as int),
            };
            &&& s[0].params[0] == text(project)
            &&& s[1].params[1] == text(project)
            &&& s[2].params[0] == text(session)
            &&& s[2].params[1] == text(project)
            &&& s[3].params[1] == text(session)
            &&& s[4].params[0] == text(message_id)
            &&& s[4].params[1] == text(session)
            &&& s[4].params[2] == text(project)
            &&& s[4].params[3] == text(p.role@)
            &&& s[4].params[4] == text(p.content@)
        }),
{
    let v = record_values(p, now);
    let s = record_statements_spec(p, now, message_id);
    let a = ensure_project_spec(v.project_id, v.ts);
    let b = ensure_session_spec(v.session_id, v.project_id, v.ts, None);
    assert(s[0] == a[0]);
    assert(s[1] == a[1]);
    assert(s[2] == b[0]);
    assert(s[3] == b[1]);
    assert(s[4] == insert_message_spec(p, v, message_id));
}

/// A step of opening the memory database that can fail.
#[derive(Debug, Clone, Copy, PartialEq, Eq, Structural)]
pub enum OpenStep {
    /// Finding the application's data (or else config) directory.
    DataDir,
    /// Creating the memory directory.
    CreateDir,
    /// Opening the database file.
    Open,
    /// Setting how long a connection waits for a locked database.
    BusyTimeout,
}

/// The text in front of the error of a failed step.
pub open spec fn open_failure_prefix(step: OpenStep) -> Seq<char> {
    match step {
        OpenStep::DataDir => "Failed to get app data dir: "@,
        OpenStep::CreateDir => "Failed to create memory dir: "@,
        OpenStep::Open => "Open DB failed: "@,
        OpenStep::BusyTimeout => "DB busy timeout failed: "@,
    }
}

/// The error that recording a message stops with when `step` fails with
/// the error text `e`.
pub fn open_failure(step: OpenStep, e: &str) -> (r: String)
    ensures
        r@ == open_failure_prefix(step) + e@,
{
    match step {
        OpenStep::DataDir => join2("Failed to get app data dir: ", e),
        OpenStep::CreateDir => join2("Failed to create memory dir: ", e),
        OpenStep::Open => join2("Open DB failed: ", e),
        OpenStep::BusyTimeout => join2("DB busy timeout failed: ", e),
    }
}

/// The product directory name under the data directory: the product name,
/// else `pake`.
pub fn resolve_product_name(product_name: Option<String>) -> (r: String)
    ensures
        r@ == match product_name {
            Some(n) => n@,
            None => "pake"@,
        },
{
    match product_name {
        Some(n) => n,
        None => "pake".to_owned(),
    }
}

/// The directory under the product directory that holds the database.
pub const MEMORY_DIR: &'static str = "memory";

/// The file name of the database.
pub const MEMORY_DB_FILE: &'static str = "memory.db";

/// How long a connection waits for a locked database, in milliseconds.
pub const BUSY_TIMEOUT_MS: u64 = 2500;

} // verus!

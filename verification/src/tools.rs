use vstd::prelude::*;
use crate::json::{
    arg_str, arg_u64, clone_json, json_array, json_object, json_quote, json_str, json_string,
    json_string_literal, lemma_members_len, lemma_seq_push, members_model, object1, object2,
    object3, opt_model, seq_model, JsonModel, JsonValue,
};
use crate::scripts::{
    click_script, click_script_text, content_script, content_script_text, navigate_script,
    navigate_script_text, scroll_down_script, scroll_down_script_text, scroll_up_script,
    screenshot_script, screenshot_script_text, scroll_up_script_text, type_script,
    type_script_text, ui_state_script, ui_state_script_text,
    wait_for_script, wait_for_script_text, watch_dom_script, watch_dom_script_text,
    watch_events_script, watch_events_script_text, HISTORY_BACK, HISTORY_FORWARD, RELOAD,
    SCROLL_BOTTOM, SCROLL_TOP,
};
use crate::text::{escape_quoted, escape_quoted_text, join2, str_eq};
use crate::tool_catalog::{make_tool, tool_kinds, tool_spec};

verus! {

/// Which handler a tool runs.
#[derive(Debug, Clone, Copy, PartialEq, Eq, Structural)]
pub enum ToolKind {
    Navigate,
    GetUrl,
    GetTitle,
    GetUiState,
    Screenshot,
    Evaluate,
    Click,
    Type,
    Scroll,
    GoBack,
    GoForward,
    Refresh,
    GetContent,
    WaitFor,
    WatchDom,
    WatchEvents,
    Notification,
    Show,
    Hide,
}

/// The JSON schema of a tool's arguments: its type, its properties (one
/// member per argument) and the names of the arguments it requires.
#[derive(Debug)]
pub struct ToolInputSchema {
    pub schema_type: String,
    pub properties: Vec<(String, JsonValue)>,
    pub required: Vec<String>,
}

/// A tool that the server offers: its name, description, argument schema and
/// the handler that runs it.
#[derive(Debug)]
pub struct Tool {
    pub name: String,
    pub description: String,
    pub input_schema: ToolInputSchema,
    pub kind: ToolKind,
}

pub struct SchemaModel {
    pub schema_type: Seq<char>,
    pub properties: Seq<(Seq<char>, JsonModel)>,
    pub required: Seq<Seq<char>>,
}

pub struct ToolModel {
    pub name: Seq<char>,
    pub description: Seq<char>,
    pub schema: SchemaModel,
    pub kind: ToolKind,
}

pub open spec fn strings_model(v: Seq<String>) -> Seq<Seq<char>> {
    v.map_values(|s: String| s@)
}

impl View for ToolInputSchema {
    type V = SchemaModel;

    open spec fn view(&self) -> SchemaModel {
        SchemaModel {
            schema_type: self.schema_type@,
            properties: members_model(self.properties@),
            required: strings_model(self.required@),
        }
    }
}

impl View for Tool {
    type V = ToolModel;

    open spec fn view(&self) -> ToolModel {
        ToolModel {
            name: self.name@,
            description: self.description@,
            schema: self.input_schema@,
            kind: self.kind,
        }
    }
}

/// The schema of one argument: `{"type": ty, "description": desc}`.
pub open spec fn prop_spec(ty: Seq<char>, desc: Seq<char>) -> JsonModel {
    JsonModel::Object(seq![("type"@, JsonModel::Str(ty)), ("description"@, JsonModel::Str(desc))])
}

pub fn prop(ty: &str, desc: &str) -> (r: JsonValue)
    ensures
        r@ == prop_spec(ty@, desc@),
{
    object2("type", json_str(ty), "description", json_str(desc))
}

/// The schema of the scroll direction: a string out of four.
pub open spec fn direction_prop_spec() -> JsonModel {
    JsonModel::Object(
        seq![
            ("type"@, JsonModel::Str("string"@)),
            (
                "enum"@,
                JsonModel::Array(
                    seq![
                        JsonModel::Str("up"@),
                        JsonModel::Str("down"@),
                        JsonModel::Str("top"@),
                        JsonModel::Str("bottom"@),
                    ],
                ),
            ),
            ("description"@, JsonModel::Str("Scroll direction"@)),
        ],
    )
}

pub fn direction_prop() -> (r: JsonValue)
    ensures
        r@ == direction_prop_spec(),
{
    let mut items: Vec<JsonValue> = Vec::new();
    let ghost s0 = items@;
    let a = json_str("up");
    items.push(a);
    proof { lemma_seq_push(s0, a); }
    let ghost s1 = items@;
    let b = json_str("down");
    items.push(b);
    proof { lemma_seq_push(s1, b); }
    let ghost s2 = items@;
    let c = json_str("top");
    items.push(c);
    proof { lemma_seq_push(s2, c); }
    let ghost s3 = items@;
    let d = json_str("bottom");
    items.push(d);
    proof { lemma_seq_push(s3, d); }
    assert(seq_model(s0) =~= Seq::<JsonModel>::empty());
    assert(seq_model(items@) =~= seq![
        JsonModel::Str("up"@),
        JsonModel::Str("down"@),
        JsonModel::Str("top"@),
        JsonModel::Str("bottom"@),
    ]);
    let arr = json_array(items);
    object3("type", json_str("string"), "enum", arr, "description", json_str("Scroll direction"))
}

/// A tool made of its parts, with an object schema.
pub fn tool_value(
    name: &str,
    description: &str,
    properties: Vec<(String, JsonValue)>,
    required: Vec<String>,
    kind: ToolKind,
) -> (r: Tool)
    ensures
        r@ == (ToolModel {
            name: name@,
            description: description@,
            schema: SchemaModel {
                schema_type: "object"@,
                properties: members_model(properties@),
                required: strings_model(required@),
            },
            kind,
        }),
{
    Tool {
        name: name.to_owned(),
        description: description.to_owned(),
        input_schema: ToolInputSchema { schema_type: "object".to_owned(), properties, required },
        kind,
    }
}

/// Required argument names from literals.
pub fn names0() -> (r: Vec<String>)
    ensures
        strings_model(r@) == Seq::<Seq<char>>::empty(),
{
    let r: Vec<String> = Vec::new();
    assert(strings_model(r@) =~= Seq::<Seq<char>>::empty());
    r
}

pub fn names1(a: &str) -> (r: Vec<String>)
    ensures
        strings_model(r@) == seq![a@],
{
    let mut r: Vec<String> = Vec::new();
    r.push(a.to_owned());
    assert(strings_model(r@) =~= seq![a@]);
    r
}

pub fn names2(a: &str, b: &str) -> (r: Vec<String>)
    ensures
        strings_model(r@) == seq![a@, b@],
{
    let mut r: Vec<String> = Vec::new();
    r.push(a.to_owned());
    r.push(b.to_owned());
    assert(strings_model(r@) =~= seq![a@, b@]);
    r
}


/// The tools that the server offers, in registration order. Their names are
/// pairwise distinct, so a name selects at most one tool.
pub struct ToolRegistry {
    tools: Vec<Tool>,
}

impl View for ToolRegistry {
    type V = Seq<ToolModel>;

    closed spec fn view(&self) -> Seq<ToolModel> {
        self.tools@.map_values(|t: Tool| t@)
    }
}

/// Every tool of the server, in registration order.
pub open spec fn tool_catalog() -> Seq<ToolModel> {
    tool_kinds().map_values(|k: ToolKind| tool_spec(k))
}

/// The first tool in `tools` named `name`.
pub open spec fn find_tool(tools: Seq<ToolModel>, name: Seq<char>) -> Option<ToolModel>
    decreases tools.len(),
{
    if tools.len() == 0 {
        None
    } else if tools[0].name == name {
        Some(tools[0])
    } else {
        find_tool(tools.drop_first(), name)
    }
}

pub open spec fn opt_tool(t: Option<&Tool>) -> Option<ToolModel> {
    match t {
        Some(x) => Some(x@),
        None => None,
    }
}

/// Registers every tool of the server.
pub fn register_tools() -> (r: ToolRegistry)
    ensures
        r@ == tool_catalog(),
{
    let mut tools: Vec<Tool> = Vec::new();
    tools.push(make_tool(ToolKind::Navigate));
    tools.push(make_tool(ToolKind::GetUrl));
    tools.push(make_tool(ToolKind::GetTitle));
    tools.push(make_tool(ToolKind::GetUiState));
    tools.push(make_tool(ToolKind::Screenshot));
    tools.push(make_tool(ToolKind::Evaluate));
    tools.push(make_tool(ToolKind::Click));
    tools.push(make_tool(ToolKind::Type));
    tools.push(make_tool(ToolKind::Scroll));
    tools.push(make_tool(ToolKind::GoBack));
    tools.push(make_tool(ToolKind::GoForward));
    tools.push(make_tool(ToolKind::Refresh));
    tools.push(make_tool(ToolKind::GetContent));
    tools.push(make_tool(ToolKind::WaitFor));
    tools.push(make_tool(ToolKind::WatchDom));
    tools.push(make_tool(ToolKind::WatchEvents));
    tools.push(make_tool(ToolKind::Notification));
    tools.push(make_tool(ToolKind::Show));
    tools.push(make_tool(ToolKind::Hide));
    proof {
        let c = tool_catalog();
        assert(tools@.map_values(|t: Tool| t@) =~= c);
        lemma_catalog_names_distinct();
        assert forall|i: int, j: int| 0 <= i < j < tools@.len() implies #[trigger] tools@[i].name@
            != #[trigger] tools@[j].name@ by {
            assert(tools@.map_values(|t: Tool| t@)[i] == c[i]);
            assert(tools@.map_values(|t: Tool| t@)[j] == c[j]);
            assert(c[i].name != c[j].name);
            assert(tools@[i]@.name == c[i].name);
            assert(tools@[j]@.name == c[j].name);
        }
    }
    let r = ToolRegistry { tools };
    assert(r@ =~= tool_catalog());
    r
}

/// The place of each kind in the registration order.
spec fn kind_index(k: ToolKind) -> int {
    match k {
        ToolKind::Navigate => 0,
        ToolKind::GetUrl => 1,
        ToolKind::GetTitle => 2,
        ToolKind::GetUiState => 3,
        ToolKind::Screenshot => 4,
        ToolKind::Evaluate => 5,
        ToolKind::Click => 6,
        ToolKind::Type => 7,
        ToolKind::Scroll => 8,
        ToolKind::GoBack => 9,
        ToolKind::GoForward => 10,
        ToolKind::Refresh => 11,
        ToolKind::GetContent => 12,
        ToolKind::WaitFor => 13,
        ToolKind::WatchDom => 14,
        ToolKind::WatchEvents => 15,
        ToolKind::Notification => 16,
        ToolKind::Show => 17,
        ToolKind::Hide => 18,
    }
}

/// `kind_index` gives each kind's place in the registration order.
proof fn lemma_kind_index()
    ensures
        tool_kinds().len() == 19,
        forall|i: int| 0 <= i < 19 ==> kind_index(#[trigger] tool_kinds()[i]) == i,
        forall|k: ToolKind| 0 <= #[trigger] kind_index(k) < 19 && tool_kinds()[kind_index(k)] == k,
{
    let ks = tool_kinds();
    assert forall|i: int| 0 <= i < 19 implies kind_index(#[trigger] ks[i]) == i by {
        if i == 0 {} else if i == 1 {} else if i == 2 {} else if i == 3 {} else if i == 4 {}
        else if i == 5 {} else if i == 6 {} else if i == 7 {} else if i == 8 {} else if i == 9 {}
        else if i == 10 {} else if i == 11 {} else if i == 12 {} else if i == 13 {}
        else if i == 14 {} else if i == 15 {} else if i == 16 {} else if i == 17 {} else {}
    }
}

/// The tools of the catalog have pairwise different names.
proof fn lemma_catalog_names_distinct()
    ensures
        forall|i: int, j: int|
            0 <= i < j < tool_catalog().len() ==> #[trigger] tool_catalog()[i].name
                != #[trigger] tool_catalog()[j].name,
{
    let ks = tool_kinds();
    let c = tool_catalog();
    lemma_kind_index();
    assert forall|i: int, j: int| 0 <= i < j < c.len() implies #[trigger] c[i].name
        != #[trigger] c[j].name by {
        assert(kind_index(ks[i]) == i);
        assert(kind_index(ks[j]) == j);
        lemma_tool_names_distinct(ks[i], ks[j]);
    }
}

impl ToolRegistry {
    /// No two tools of a registry share a name.
    #[verifier::type_invariant]
    spec fn names_distinct(self) -> bool {
        forall|i: int, j: int|
            0 <= i < j < self.tools@.len() ==> #[trigger] self.tools@[i].name@
                != #[trigger] self.tools@[j].name@
    }

    /// The number of tools.
    pub fn len(&self) -> (n: usize)
        ensures
            n == self@.len(),
    {
        self.tools.len()
    }

    /// The tool at position `i` in registration order.
    pub fn tool_at(&self, i: usize) -> (t: &Tool)
        requires
            i < self@.len(),
        ensures
            t@ == self@[i as int],
    {
        &self.tools[i]
    }

    /// The tool named `name`, if the server offers one.
    pub fn get(&self, name: &str) -> (r: Option<&Tool>)
        ensures
            opt_tool(r) == find_tool(self@, name@),
    {
        let n = self.tools.len();
        let mut i: usize = 0;
        assert(self@.skip(0) =~= self@);
        while i < n
            invariant
                n == self.tools@.len(),
                0 <= i <= n,
                find_tool(self@, name@) == find_tool(self@.skip(i as int), name@),
            decreases n - i,
        {
            let ghost rest = self@.skip(i as int);
            assert(rest[0] == self.tools@[i as int]@);
            if str_eq(self.tools[i].name.as_str(), name) {
                return Some(&self.tools[i]);
            }
            assert(rest.drop_first() =~= self@.skip(i + 1));
            i = i + 1;
        }
        None
    }
}

/// `tool` as the tools list shows it: name, description and input schema.
pub open spec fn tool_json_spec(t: ToolModel) -> JsonModel {
    JsonModel::Object(
        seq![
            ("name"@, JsonModel::Str(t.name)),
            ("description"@, JsonModel::Str(t.description)),
            ("inputSchema"@, schema_json_spec(t.schema)),
        ],
    )
}

/// An input schema as JSON: `type`, `properties` and `required`.
pub open spec fn schema_json_spec(s: SchemaModel) -> JsonModel {
    JsonModel::Object(
        seq![
            ("type"@, JsonModel::Str(s.schema_type)),
            ("properties"@, JsonModel::Object(s.properties)),
            ("required"@, JsonModel::Array(s.required.map_values(|n: Seq<char>| JsonModel::Str(n)))),
        ],
    )
}

fn strings_json(v: &Vec<String>) -> (r: JsonValue)
    ensures
        r@ == JsonModel::Array(strings_model(v@).map_values(|n: Seq<char>| JsonModel::Str(n))),
{
    let mut out: Vec<JsonValue> = Vec::new();
    let n = v.len();
    let mut i: usize = 0;
    while i < n
        invariant
            n == v@.len(),
            0 <= i <= n,
            seq_model(out@) =~= strings_model(v@.take(i as int)).map_values(
                |n: Seq<char>| JsonModel::Str(n),
            ),
        decreases n - i,
    {
        let item = json_string(v[i].clone());
        let ghost before = out@;
        out.push(item);
        proof {
            lemma_seq_push(before, item);
            assert(v@.take(i + 1) =~= v@.take(i as int).push(v@[i as int]));
        }
        i = i + 1;
    }
    assert(v@.take(n as int) =~= v@);
    json_array(out)
}

fn members_json(m: &Vec<(String, JsonValue)>) -> (r: JsonValue)
    ensures
        r@ == JsonModel::Object(members_model(m@)),
{
    let mut out: Vec<(String, JsonValue)> = Vec::new();
    let n = m.len();
    let mut i: usize = 0;
    while i < n
        invariant
            n == m@.len(),
            0 <= i <= n,
            members_model(out@) == members_model(m@.take(i as int)),
        decreases n - i,
    {
        let k = m[i].0.clone();
        let c = clone_json(&m[i].1);
        let ghost before = out@;
        out.push((k, c));
        proof {
            crate::json::lemma_members_push(before, k, c);
            crate::json::lemma_members_push(m@.take(i as int), m@[i as int].0, m@[i as int].1);
            assert(m@.take(i as int).push((m@[i as int].0, m@[i as int].1)) =~= m@.take(i + 1));
        }
        i = i + 1;
    }
    assert(m@.take(n as int) =~= m@);
    json_object(out)
}

/// Serialises a tool for the tools list.
pub fn tool_json(t: &Tool) -> (r: JsonValue)
    ensures
        r@ == tool_json_spec(t@),
{
    let schema = object3(
        "type",
        json_string(t.input_schema.schema_type.clone()),
        "properties",
        members_json(&t.input_schema.properties),
        "required",
        strings_json(&t.input_schema.required),
    );
    object3(
        "name",
        json_string(t.name.clone()),
        "description",
        json_string(t.description.clone()),
        "inputSchema",
        schema,
    )
}

} // verus!

verus! {

/// An operation on the main window.
#[derive(Debug)]
pub enum WindowOp {
    Eval(String),
    Show,
    Focus,
    Hide,
}

/// One operation on the main window and the text that its failure is
/// reported with, in front of the error.
#[derive(Debug)]
pub struct WindowStep {
    pub op: WindowOp,
    pub failure_prefix: String,
}

/// How a tool wraps the value that a script evaluation gave back.
#[derive(Debug, Clone, Copy, PartialEq, Eq, Structural)]
pub enum ResultWrap {
    /// `{"success": true, "result": value}`
    SuccessResult,
    /// `{"success": true, "state": value}`
    SuccessState,
    /// `{"content": value}`
    Content,
    /// `{"success": value}`
    Success,
    /// `{"success": true, "image": value}`
    Image,
}

/// What a tool call does once its arguments are read.
#[derive(Debug)]
pub enum ToolPlan {
    /// Answer at once.
    Reply(Result<JsonValue, String>),
    /// With the main window, run the steps in order, stopping at the first
    /// that fails; when all succeed, answer `outcome`.
    WindowOps { steps: Vec<WindowStep>, outcome: Result<JsonValue, String> },
    /// Read the URL of the main window.
    ReadUrl,
    /// Read the title of the main window.
    ReadTitle,
    /// Evaluate `script` in the page and wait for its value.
    EvalForResult { script: String, timeout_ms: u64, wrap: ResultWrap },
    /// Show a desktop notification.
    Notify { title: String, body: String },
}

/// What running a plan gave.
#[derive(Debug)]
pub enum ToolReport {
    /// There is no main window.
    WindowMissing,
    /// Step `i` of the plan failed with this error text.
    StepFailed(usize, String),
    /// Every step succeeded.
    StepsDone,
    /// The URL or title read, `None` where reading it failed.
    Text(Option<String>),
    /// The outcome of a script evaluation.
    Evaluated(Result<JsonValue, String>),
    /// Showing the notification failed with this error text.
    NotifyFailed(String),
    /// The notification was shown.
    Notified,
}

pub enum OpModel {
    Eval(Seq<char>),
    Show,
    Focus,
    Hide,
}

pub enum PlanModel {
    Reply(Result<JsonModel, Seq<char>>),
    WindowOps(Seq<(OpModel, Seq<char>)>, Result<JsonModel, Seq<char>>),
    ReadUrl,
    ReadTitle,
    EvalForResult(Seq<char>, u64, ResultWrap),
    Notify(Seq<char>, Seq<char>),
}

pub enum ReportModel {
    WindowMissing,
    StepFailed(usize, Seq<char>),
    StepsDone,
    Text(Option<Seq<char>>),
    Evaluated(Result<JsonModel, Seq<char>>),
    NotifyFailed(Seq<char>),
    Notified,
}

pub open spec fn result_model(r: Result<JsonValue, String>) -> Result<JsonModel, Seq<char>> {
    match r {
        Ok(v) => Ok(v@),
        Err(e) => Err(e@),
    }
}

pub open spec fn op_model(op: WindowOp) -> OpModel {
    match op {
        WindowOp::Eval(s) => OpModel::Eval(s@),
        WindowOp::Show => OpModel::Show,
        WindowOp::Focus => OpModel::Focus,
        WindowOp::Hide => OpModel::Hide,
    }
}

pub open spec fn steps_model(steps: Seq<WindowStep>) -> Seq<(OpModel, Seq<char>)> {
    steps.map_values(|s: WindowStep| (op_model(s.op), s.failure_prefix@))
}

pub open spec fn plan_model(p: ToolPlan) -> PlanModel {
    match p {
        ToolPlan::Reply(r) => PlanModel::Reply(result_model(r)),
        ToolPlan::WindowOps { steps, outcome } => PlanModel::WindowOps(
            steps_model(steps@),
            result_model(outcome),
        ),
        ToolPlan::ReadUrl => PlanModel::ReadUrl,
        ToolPlan::ReadTitle => PlanModel::ReadTitle,
        ToolPlan::EvalForResult { script, timeout_ms, wrap } => PlanModel::EvalForResult(
            script@,
            timeout_ms,
            wrap,
        ),
        ToolPlan::Notify { title, body } => PlanModel::Notify(title@, body@),
    }
}

pub open spec fn report_model(r: ToolReport) -> ReportModel {
    match r {
        ToolReport::WindowMissing => ReportModel::WindowMissing,
        ToolReport::StepFailed(i, e) => ReportModel::StepFailed(i, e@),
        ToolReport::StepsDone => ReportModel::StepsDone,
        ToolReport::Text(t) => ReportModel::Text(
            match t {
                Some(s) => Some(s@),
                None => None,
            },
        ),
        ToolReport::Evaluated(r) => ReportModel::Evaluated(result_model(r)),
        ToolReport::NotifyFailed(e) => ReportModel::NotifyFailed(e@),
        ToolReport::Notified => ReportModel::Notified,
    }
}

pub open spec fn window_not_found() -> Seq<char> {
    "Window not found"@
}

/// `{"success": true}`
pub open spec fn success_json() -> JsonModel {
    JsonModel::Object(seq![("success"@, JsonModel::Bool(true))])
}

/// The JavaScript value of an optional selector: its JSON string literal, or
/// `null`.
pub open spec fn selector_js(sel: Option<Seq<char>>) -> Seq<char> {
    match sel {
        Some(v) => json_string_literal(v),
        None => "null"@,
    }
}

pub open spec fn or_default(o: Option<u64>, d: u64) -> u64 {
    match o {
        Some(v) => v,
        None => d,
    }
}

/// `a + b` as a release build computes it on `u64`: modulo 2^64.
pub open spec fn wrapping_add_u64(a: u64, b: u64) -> u64 {
    if a + b > u64::MAX {
        (a + b - 0x1_0000_0000_0000_0000) as u64
    } else {
        (a + b) as u64
    }
}

/// A plan that evaluates one script in the main window.
pub open spec fn eval_plan(script: Seq<char>, prefix: Seq<char>, outcome: JsonModel) -> PlanModel {
    PlanModel::WindowOps(seq![(OpModel::Eval(script), prefix)], Ok(outcome))
}

/// What a call of the tool of `kind` with `args` does, as the tool's
/// handler decides it from its arguments.
pub open spec fn tool_plan_spec(kind: ToolKind, args: Option<JsonModel>) -> PlanModel {
    match kind {
        ToolKind::Navigate => match arg_str(args, "url"@) {
            None => PlanModel::Reply(Err("Missing url parameter"@)),
            Some(url) => eval_plan(
                navigate_script(url),
                "Failed to navigate: "@,
                JsonModel::Object(
                    seq![("success"@, JsonModel::Bool(true)), ("url"@, JsonModel::Str(url))],
                ),
            ),
        },
        ToolKind::GetUrl => PlanModel::ReadUrl,
        ToolKind::GetTitle => PlanModel::ReadTitle,
        ToolKind::GetUiState => PlanModel::EvalForResult(
            ui_state_script(
                selector_js(arg_str(args, "selector"@)),
                ((or_default(arg_u64(args, "max_len"@), 1500) as usize) as u64),
            ),
            10000,
            ResultWrap::SuccessState,
        ),
        ToolKind::Screenshot => PlanModel::EvalForResult(
            screenshot_script(selector_js(arg_str(args, "selector"@))),
            30000,
            ResultWrap::Image,
        ),
        ToolKind::Evaluate => match arg_str(args, "script"@) {
            None => PlanModel::Reply(Err("Missing script parameter"@)),
            Some(script) => PlanModel::EvalForResult(script, 10000, ResultWrap::SuccessResult),
        },
        ToolKind::Click => match arg_str(args, "selector"@) {
            None => PlanModel::Reply(Err("Missing selector parameter"@)),
            Some(sel) => eval_plan(click_script(sel), "Click failed: "@, success_json()),
        },
        ToolKind::Type => match arg_str(args, "selector"@) {
            None => PlanModel::Reply(Err("Missing selector parameter"@)),
            Some(sel) => match arg_str(args, "text"@) {
                None => PlanModel::Reply(Err("Missing text parameter"@)),
                Some(text) => eval_plan(
                    type_script(sel, escape_quoted(text)),
                    "Type failed: "@,
                    success_json(),
                ),
            },
        },
        ToolKind::Scroll => match arg_str(args, "direction"@) {
            None => PlanModel::Reply(Err("Missing direction parameter"@)),
            Some(dir) => {
                let amount = (or_default(arg_u64(args, "amount"@), 300) as i32) as i64;
                if dir == "up"@ {
                    eval_plan(scroll_up_script(amount), "Scroll failed: "@, success_json())
                } else if dir == "down"@ {
                    eval_plan(scroll_down_script(amount), "Scroll failed: "@, success_json())
                } else if dir == "top"@ {
                    eval_plan(SCROLL_TOP@, "Scroll failed: "@, success_json())
                } else if dir == "bottom"@ {
                    eval_plan(SCROLL_BOTTOM@, "Scroll failed: "@, success_json())
                } else {
                    PlanModel::WindowOps(Seq::empty(), Err("Invalid direction"@))
                }
            },
        },
        ToolKind::GoBack => eval_plan(HISTORY_BACK@, "Go back failed: "@, success_json()),
        ToolKind::GoForward => eval_plan(
            HISTORY_FORWARD@,
            "Go forward failed: "@,
            success_json(),
        ),
        ToolKind::Refresh => eval_plan(RELOAD@, "Refresh failed: "@, success_json()),
        ToolKind::GetContent => PlanModel::EvalForResult(
            content_script(selector_js(arg_str(args, "selector"@))),
            10000,
            ResultWrap::Content,
        ),
        ToolKind::WaitFor => match arg_str(args, "selector"@) {
            None => PlanModel::Reply(Err("Missing selector parameter"@)),
            Some(sel) => {
                let timeout = or_default(arg_u64(args, "timeout"@), 5000);
                PlanModel::EvalForResult(
                    wait_for_script(timeout, json_string_literal(sel)),
                    wrapping_add_u64(timeout, 2000),
                    ResultWrap::Success,
                )
            },
        },
        ToolKind::WatchDom => PlanModel::EvalForResult(
            watch_dom_script(
                or_default(arg_u64(args, "since"@), 0),
                or_default(arg_u64(args, "max"@), 100),
            ),
            10000,
            ResultWrap::SuccessResult,
        ),
        ToolKind::WatchEvents => PlanModel::EvalForResult(
            watch_events_script(
                or_default(arg_u64(args, "since"@), 0),
                or_default(arg_u64(args, "max"@), 100),
            ),
            10000,
            ResultWrap::SuccessResult,
        ),
        ToolKind::Notification => match arg_str(args, "title"@) {
            None => PlanModel::Reply(Err("Missing title parameter"@)),
            Some(title) => match arg_str(args, "body"@) {
                None => PlanModel::Reply(Err("Missing body parameter"@)),
                Some(body) => PlanModel::Notify(title, body),
            },
        },
        ToolKind::Show => PlanModel::WindowOps(
            seq![(OpModel::Show, "Show failed: "@), (OpModel::Focus, "Focus failed: "@)],
            Ok(success_json()),
        ),
        ToolKind::Hide => PlanModel::WindowOps(
            seq![(OpModel::Hide, "Hide failed: "@)],
            Ok(success_json()),
        ),
    }
}

/// A script value wrapped as the tool answers it.
pub open spec fn wrap_spec(wrap: ResultWrap, v: JsonModel) -> JsonModel {
    match wrap {
        ResultWrap::SuccessResult => JsonModel::Object(
            seq![("success"@, JsonModel::Bool(true)), ("result"@, v)],
        ),
        ResultWrap::SuccessState => JsonModel::Object(
            seq![("success"@, JsonModel::Bool(true)), ("state"@, v)],
        ),
        ResultWrap::Content => JsonModel::Object(seq![("content"@, v)]),
        ResultWrap::Success => JsonModel::Object(seq![("success"@, v)]),
        ResultWrap::Image => JsonModel::Object(
            seq![("success"@, JsonModel::Bool(true)), ("image"@, v)],
        ),
    }
}

/// A text that was read, or the empty text.
pub open spec fn text_or_empty_spec(t: Option<Seq<char>>) -> Seq<char> {
    match t {
        Some(s) => s,
        None => Seq::empty(),
    }
}

/// What the tool answers once `plan` has run and given `report`. A report
/// that does not answer the plan (one that the plan's runner cannot give) is
/// taken as a missing window.
pub open spec fn tool_result_spec(plan: PlanModel, report: ReportModel) -> Result<JsonModel, Seq<char>> {
    match plan {
        PlanModel::Reply(r) => r,
        PlanModel::WindowOps(steps, outcome) => match report {
            ReportModel::StepFailed(i, e) => if i < steps.len() {
                Err(steps[i as int].1 + e)
            } else {
                Err(window_not_found())
            },
            ReportModel::StepsDone => outcome,
            _ => Err(window_not_found()),
        },
        PlanModel::ReadUrl => match report {
            ReportModel::Text(t) => Ok(
                JsonModel::Object(
                    seq![
                        (
                            "url"@,
                            JsonModel::Str(text_or_empty_spec(t)),
                        ),
                    ],
                ),
            ),
            _ => Err(window_not_found()),
        },
        PlanModel::ReadTitle => match report {
            ReportModel::Text(t) => Ok(
                JsonModel::Object(
                    seq![
                        (
                            "title"@,
                            JsonModel::Str(text_or_empty_spec(t)),
                        ),
                    ],
                ),
            ),
            _ => Err(window_not_found()),
        },
        PlanModel::EvalForResult(_, _, wrap) => match report {
            ReportModel::Evaluated(Ok(v)) => Ok(wrap_spec(wrap, v)),
            ReportModel::Evaluated(Err(e)) => Err(e),
            _ => Err(window_not_found()),
        },
        PlanModel::Notify(_, _) => match report {
            ReportModel::NotifyFailed(e) => Err("Notification failed: "@ + e),
            ReportModel::Notified => Ok(success_json()),
            _ => Err(window_not_found()),
        },
    }
}

} // verus!

verus! {

pub open spec fn opt_str_model(o: Option<&str>) -> Option<Seq<char>> {
    match o {
        Some(s) => Some(s@),
        None => None,
    }
}

/// `args.and_then(|a| a.get(key)?.as_str())`
pub fn arg_str_of<'a>(args: Option<&'a JsonValue>, key: &str) -> (r: Option<&'a str>)
    ensures
        opt_str_model(r) == arg_str(opt_model(args), key@),
{
    match args {
        Some(a) => match a.get(key) {
            Some(v) => v.as_str(),
            None => None,
        },
        None => None,
    }
}

/// `args.and_then(|a| a.get(key)?.as_u64())`
pub fn arg_u64_of(args: Option<&JsonValue>, key: &str) -> (r: Option<u64>)
    ensures
        r == arg_u64(opt_model(args), key@),
{
    match args {
        Some(a) => match a.get(key) {
            Some(v) => v.as_u64(),
            None => None,
        },
        None => None,
    }
}

fn success() -> (r: JsonValue)
    ensures
        r@ == success_json(),
{
    object1("success", JsonValue::Bool(true))
}

fn eval_plan_of(script: String, prefix: &str, outcome: JsonValue) -> (r: ToolPlan)
    ensures
        plan_model(r) == eval_plan(script@, prefix@, outcome@),
{
    let mut steps: Vec<WindowStep> = Vec::new();
    steps.push(WindowStep { op: WindowOp::Eval(script), failure_prefix: prefix.to_owned() });
    let r = ToolPlan::WindowOps { steps, outcome: Ok(outcome) };
    assert(steps_model(steps@) =~= seq![(OpModel::Eval(script@), prefix@)]);
    r
}

fn selector_js_of(sel: Option<&str>) -> (r: Result<String, String>)
    ensures
        r is Ok,
        r matches Ok(t) ==> t@ == selector_js(opt_str_model(sel)),
{
    match sel {
        Some(v) => json_quote(v),
        None => Ok("null".to_owned()),
    }
}

fn wrapping_add(a: u64, b: u64) -> (r: u64)
    ensures
        r == wrapping_add_u64(a, b),
{
    if a <= u64::MAX - b {
        a + b
    } else {
        a - (u64::MAX - b) - 1
    }
}

/// Reads the arguments of a call of the tool of `kind` and decides what the
/// call does.
pub fn plan_tool_call(kind: ToolKind, args: Option<&JsonValue>) -> (r: ToolPlan)
    ensures
        plan_model(r) == tool_plan_spec(kind, opt_model(args)),
{
    match kind {
        ToolKind::Navigate => match arg_str_of(args, "url") {
            None => ToolPlan::Reply(Err("Missing url parameter".to_owned())),
            Some(url) => eval_plan_of(
                navigate_script_text(url),
                "Failed to navigate: ",
                object2("success", JsonValue::Bool(true), "url", json_str(url)),
            ),
        },
        ToolKind::GetUrl => ToolPlan::ReadUrl,
        ToolKind::GetTitle => ToolPlan::ReadTitle,
        ToolKind::GetUiState => {
            let selector = arg_str_of(args, "selector");
            let max_len: usize = match arg_u64_of(args, "max_len") {
                Some(v) => v as usize,
                None => 1500,
            };
            let selector_js = match selector_js_of(selector) {
                Ok(t) => t,
                Err(e) => return ToolPlan::Reply(Err(e)),
            };
            ToolPlan::EvalForResult {
                script: ui_state_script_text(selector_js.as_str(), max_len as u64),
                timeout_ms: 10000,
                wrap: ResultWrap::SuccessState,
            }
        },
        ToolKind::Screenshot => {
            let selector = arg_str_of(args, "selector");
            let selector_js = match selector_js_of(selector) {
                Ok(t) => t,
                Err(e) => return ToolPlan::Reply(Err(e)),
            };
            ToolPlan::EvalForResult {
                script: screenshot_script_text(selector_js.as_str()),
                timeout_ms: 30000,
                wrap: ResultWrap::Image,
            }
        },
        ToolKind::Evaluate => match arg_str_of(args, "script") {
            None => ToolPlan::Reply(Err("Missing script parameter".to_owned())),
            Some(script) => ToolPlan::EvalForResult {
                script: script.to_owned(),
                timeout_ms: 10000,
                wrap: ResultWrap::SuccessResult,
            },
        },
        ToolKind::Click => match arg_str_of(args, "selector") {
            None => ToolPlan::Reply(Err("Missing selector parameter".to_owned())),
            Some(sel) => eval_plan_of(click_script_text(sel), "Click failed: ", success()),
        },
        ToolKind::Type => match arg_str_of(args, "selector") {
            None => ToolPlan::Reply(Err("Missing selector parameter".to_owned())),
            Some(sel) => match arg_str_of(args, "text") {
                None => ToolPlan::Reply(Err("Missing text parameter".to_owned())),
                Some(text) => {
                    let escaped = escape_quoted_text(text);
                    eval_plan_of(type_script_text(sel, escaped.as_str()), "Type failed: ", success())
                },
            },
        },
        ToolKind::Scroll => match arg_str_of(args, "direction") {
            None => ToolPlan::Reply(Err("Missing direction parameter".to_owned())),
            Some(dir) => {
                let amount: i32 = match arg_u64_of(args, "amount") {
                    Some(v) => v as i32,
                    None => 300,
                };
                if str_eq(dir, "up") {
                    eval_plan_of(scroll_up_script_text(amount as i64), "Scroll failed: ", success())
                } else if str_eq(dir, "down") {
                    eval_plan_of(
                        scroll_down_script_text(amount as i64),
                        "Scroll failed: ",
                        success(),
                    )
                } else if str_eq(dir, "top") {
                    eval_plan_of(SCROLL_TOP.to_owned(), "Scroll failed: ", success())
                } else if str_eq(dir, "bottom") {
                    eval_plan_of(SCROLL_BOTTOM.to_owned(), "Scroll failed: ", success())
                } else {
                    let steps: Vec<WindowStep> = Vec::new();
                    assert(steps_model(steps@) =~= Seq::<(OpModel, Seq<char>)>::empty());
                    ToolPlan::WindowOps { steps, outcome: Err("Invalid direction".to_owned()) }
                }
            },
        },
        ToolKind::GoBack => eval_plan_of(HISTORY_BACK.to_owned(), "Go back failed: ", success()),
        ToolKind::GoForward => eval_plan_of(
            HISTORY_FORWARD.to_owned(),
            "Go forward failed: ",
            success(),
        ),
        ToolKind::Refresh => eval_plan_of(RELOAD.to_owned(), "Refresh failed: ", success()),
        ToolKind::GetContent => {
            let selector = arg_str_of(args, "selector");
            let selector_js = match selector_js_of(selector) {
                Ok(t) => t,
                Err(e) => return ToolPlan::Reply(Err(e)),
            };
            ToolPlan::EvalForResult {
                script: content_script_text(selector_js.as_str()),
                timeout_ms: 10000,
                wrap: ResultWrap::Content,
            }
        },
        ToolKind::WaitFor => match arg_str_of(args, "selector") {
            None => ToolPlan::Reply(Err("Missing selector parameter".to_owned())),
            Some(sel) => {
                let timeout = match arg_u64_of(args, "timeout") {
                    Some(v) => v,
                    None => 5000,
                };
                let selector_js = match json_quote(sel) {
                    Ok(t) => t,
                    Err(e) => return ToolPlan::Reply(Err(e)),
                };
                ToolPlan::EvalForResult {
                    script: wait_for_script_text(timeout, selector_js.as_str()),
                    timeout_ms: wrapping_add(timeout, 2000),
                    wrap: ResultWrap::Success,
                }
            },
        },
        ToolKind::WatchDom => {
            let since = match arg_u64_of(args, "since") {
                Some(v) => v,
                None => 0,
            };
            let max = match arg_u64_of(args, "max") {
                Some(v) => v,
                None => 100,
            };
            ToolPlan::EvalForResult {
                script: watch_dom_script_text(since, max),
                timeout_ms: 10000,
                wrap: ResultWrap::SuccessResult,
            }
        },
        ToolKind::WatchEvents => {
            let since = match arg_u64_of(args, "since") {
                Some(v) => v,
                None => 0,
            };
            let max = match arg_u64_of(args, "max") {
                Some(v) => v,
                None => 100,
            };
            ToolPlan::EvalForResult {
                script: watch_events_script_text(since, max),
                timeout_ms: 10000,
                wrap: ResultWrap::SuccessResult,
            }
        },
        ToolKind::Notification => match arg_str_of(args, "title") {
            None => ToolPlan::Reply(Err("Missing title parameter".to_owned())),
            Some(title) => match arg_str_of(args, "body") {
                None => ToolPlan::Reply(Err("Missing body parameter".to_owned())),
                Some(body) => ToolPlan::Notify { title: title.to_owned(), body: body.to_owned() },
            },
        },
        ToolKind::Show => {
            let mut steps: Vec<WindowStep> = Vec::new();
            steps.push(WindowStep { op: WindowOp::Show, failure_prefix: "Show failed: ".to_owned() });
            steps.push(
                WindowStep { op: WindowOp::Focus, failure_prefix: "Focus failed: ".to_owned() },
            );
            assert(steps_model(steps@) =~= seq![
                (OpModel::Show, "Show failed: "@),
                (OpModel::Focus, "Focus failed: "@),
            ]);
            ToolPlan::WindowOps { steps, outcome: Ok(success()) }
        },
        ToolKind::Hide => {
            let mut steps: Vec<WindowStep> = Vec::new();
            steps.push(WindowStep { op: WindowOp::Hide, failure_prefix: "Hide failed: ".to_owned() });
            assert(steps_model(steps@) =~= seq![(OpModel::Hide, "Hide failed: "@)]);
            ToolPlan::WindowOps { steps, outcome: Ok(success()) }
        },
    }
}

fn wrap_value(wrap: ResultWrap, v: JsonValue) -> (r: JsonValue)
    ensures
        r@ == wrap_spec(wrap, v@),
{
    match wrap {
        ResultWrap::SuccessResult => object2("success", JsonValue::Bool(true), "result", v),
        ResultWrap::SuccessState => object2("success", JsonValue::Bool(true), "state", v),
        ResultWrap::Content => object1("content", v),
        ResultWrap::Success => object1("success", v),
        ResultWrap::Image => object2("success", JsonValue::Bool(true), "image", v),
    }
}

fn text_or_empty(t: Option<String>) -> (r: JsonValue)
    ensures
        r@ == JsonModel::Str(
            text_or_empty_spec(
                match t {
                    Some(s) => Some(s@),
                    None => None,
                },
            ),
        ),
{
    match t {
        Some(s) => json_string(s),
        None => json_string(String::new()),
    }
}

/// What the tool call answers once `plan` has run and given `report`.
pub fn finish_tool_call(plan: ToolPlan, report: ToolReport) -> (r: Result<JsonValue, String>)
    ensures
        result_model(r) == tool_result_spec(plan_model(plan), report_model(report)),
{
    let ghost pm = plan_model(plan);
    let ghost rm = report_model(report);
    match plan {
        ToolPlan::Reply(r) => r,
        ToolPlan::WindowOps { steps, outcome } => match report {
            ToolReport::StepFailed(i, e) => {
                if i < steps.len() {
                    Err(join2(steps[i].failure_prefix.as_str(), e.as_str()))
                } else {
                    Err("Window not found".to_owned())
                }
            },
            ToolReport::StepsDone => outcome,
            _ => Err("Window not found".to_owned()),
        },
        ToolPlan::ReadUrl => match report {
            ToolReport::Text(t) => Ok(object1("url", text_or_empty(t))),
            _ => Err("Window not found".to_owned()),
        },
        ToolPlan::ReadTitle => match report {
            ToolReport::Text(t) => Ok(object1("title", text_or_empty(t))),
            _ => Err("Window not found".to_owned()),
        },
        ToolPlan::EvalForResult { script, timeout_ms, wrap } => match report {
            ToolReport::Evaluated(Ok(v)) => Ok(wrap_value(wrap, v)),
            ToolReport::Evaluated(Err(e)) => Err(e),
            _ => Err("Window not found".to_owned()),
        },
        ToolPlan::Notify { title, body } => match report {
            ToolReport::NotifyFailed(e) => Err(join2("Notification failed: ", e.as_str())),
            ToolReport::Notified => Ok(success()),
            _ => Err("Window not found".to_owned()),
        },
    }
}

} // verus!

verus! {

/// In `tools`, the first tool named like the one at `i` is that one, when no
/// earlier tool has its name.
pub proof fn lemma_find_tool_at(tools: Seq<ToolModel>, i: int)
    requires
        0 <= i < tools.len(),
        forall|j: int| 0 <= j < i ==> #[trigger] tools[j].name != tools[i].name,
    ensures
        find_tool(tools, tools[i].name) == Some(tools[i]),
    decreases i,
{
    if i > 0 {
        let rest = tools.drop_first();
        assert forall|j: int| 0 <= j < i - 1 implies #[trigger] rest[j].name != rest[i - 1].name by {
            assert(rest[j] == tools[j + 1]);
        }
        lemma_find_tool_at(rest, i - 1);
    }
}

/// Every tool of the server is found by its name: a `tools/call` naming it
/// runs its handler and no other.
pub proof fn lemma_registered_tool_found(k: ToolKind)
    ensures
        find_tool(tool_catalog(), tool_spec(k).name) == Some(tool_spec(k)),
{
    let c = tool_catalog();
    let i = kind_index(k);
    lemma_kind_index();
    lemma_catalog_names_distinct();
    assert(c[i] == tool_spec(k));
    assert forall|j: int| 0 <= j < i implies #[trigger] c[j].name != c[i].name by {}
    lemma_find_tool_at(c, i);
}

/// The signature of a tool's name: its length and its characters at
/// positions 8 and 9, which differ from tool to tool.
spec fn name_sig(k: ToolKind) -> (nat, char, char) {
    match k {
        ToolKind::Navigate => (16, 'n', 'a'),
        ToolKind::GetUrl => (15, 'g', 'e'),
        ToolKind::GetTitle => (17, 'g', 'e'),
        ToolKind::GetUiState => (20, 'g', 'e'),
        ToolKind::Screenshot => (18, 's', 'c'),
        ToolKind::Evaluate => (16, 'e', 'v'),
        ToolKind::Click => (13, 'c', 'l'),
        ToolKind::Type => (12, 't', 'y'),
        ToolKind::Scroll => (14, 's', 'c'),
        ToolKind::GoBack => (15, 'g', 'o'),
        ToolKind::GoForward => (18, 'g', 'o'),
        ToolKind::Refresh => (15, 'r', 'e'),
        ToolKind::GetContent => (19, 'g', 'e'),
        ToolKind::WaitFor => (16, 'w', 'a'),
        ToolKind::WatchDom => (17, 'w', 'a'),
        ToolKind::WatchEvents => (20, 'w', 'a'),
        ToolKind::Notification => (20, 'n', 'o'),
        ToolKind::Show => (12, 's', 'h'),
        ToolKind::Hide => (12, 'h', 'i'),
    }
}

/// Each tool's name has the signature `name_sig` gives.
proof fn lemma_name_sig(k: ToolKind)
    ensures
        tool_spec(k).name.len() == name_sig(k).0,
        tool_spec(k).name[8] == name_sig(k).1,
        tool_spec(k).name[9] == name_sig(k).2,
{
    reveal_strlit("browser_navigate");
    reveal_strlit("browser_get_url");
    reveal_strlit("browser_get_title");
    reveal_strlit("browser_get_ui_state");
    reveal_strlit("browser_screenshot");
    reveal_strlit("browser_evaluate");
    reveal_strlit("browser_click");
    reveal_strlit("browser_type");
    reveal_strlit("browser_scroll");
    reveal_strlit("browser_go_back");
    reveal_strlit("browser_go_forward");
    reveal_strlit("browser_refresh");
    reveal_strlit("browser_get_content");
    reveal_strlit("browser_wait_for");
    reveal_strlit("browser_watch_dom");
    reveal_strlit("browser_watch_events");
    reveal_strlit("browser_notification");
    reveal_strlit("browser_show");
    reveal_strlit("browser_hide");
}

/// The URL and title tools read what their names say: `browser_get_url`
/// and only it reads the window's URL, `browser_get_title` and only it the
/// window's title, whatever the arguments.
pub proof fn lemma_tools_read_what_names_say(k: ToolKind, args: Option<JsonModel>)
    ensures
        (tool_plan_spec(k, args) == PlanModel::ReadUrl) <==> tool_spec(k).name
            == "browser_get_url"@,
        (tool_plan_spec(k, args) == PlanModel::ReadTitle) <==> tool_spec(k).name
            == "browser_get_title"@,
{
    lemma_tool_names_distinct(k, ToolKind::GetUrl);
    lemma_tool_names_distinct(k, ToolKind::GetTitle);
    match k {
        ToolKind::Navigate => {},
        ToolKind::Type => {},
        ToolKind::Scroll => {},
        ToolKind::WaitFor => {},
        ToolKind::Notification => {},
        ToolKind::Evaluate => {},
        ToolKind::Click => {},
        _ => {},
    }
}

/// No two tools of the server share a name.
pub proof fn lemma_tool_names_distinct(k1: ToolKind, k2: ToolKind)
    ensures
        tool_spec(k1).name == tool_spec(k2).name ==> k1 == k2,
{
    lemma_name_sig(k1);
    lemma_name_sig(k2);
}

} // verus!

verus! {

/// The first argument in `required` that `args` does not give as a string.
pub open spec fn first_missing(required: Seq<Seq<char>>, args: Option<JsonModel>) -> Option<Seq<char>>
    decreases required.len(),
{
    if required.len() == 0 {
        None
    } else if arg_str(args, required[0]) is None {
        Some(required[0])
    } else {
        first_missing(required.drop_first(), args)
    }
}

/// The schema that `tools/list` shows agrees with the handler: a call that
/// leaves out a required argument (or gives it as no string) is answered at
/// once with "Missing <argument> parameter", naming the first such
/// argument; a call that gives every required argument is never answered
/// that way.
pub proof fn lemma_schema_matches_handler(k: ToolKind, args: Option<JsonModel>)
    ensures
        match first_missing(tool_spec(k).schema.required, args) {
            Some(a) => tool_plan_spec(k, args) == PlanModel::Reply(
                Err("Missing "@ + a + " parameter"@),
            ),
            None => !(tool_plan_spec(k, args) is Reply),
        },
{
    reveal_strlit("Missing ");
    reveal_strlit(" parameter");
    let req = tool_spec(k).schema.required;
    match k {
        ToolKind::Navigate => {
            reveal_strlit("url");
            reveal_strlit("Missing url parameter");
            assert("Missing url parameter"@ =~= "Missing "@ + "url"@ + " parameter"@);
            assert(req[0] == "url"@);
            assert(req.drop_first() =~= Seq::<Seq<char>>::empty());
            if arg_str(args, "url"@) is None {
                assert(first_missing(req, args) == Some("url"@));
            } else {
                assert(first_missing(req.drop_first(), args) is None);
                assert(first_missing(req, args) is None);
            }
        },
        ToolKind::GetUrl => {
            assert(req =~= Seq::<Seq<char>>::empty());
            assert(first_missing(req, args) is None);
        },
        ToolKind::GetTitle => {
            assert(req =~= Seq::<Seq<char>>::empty());
            assert(first_missing(req, args) is None);
        },
        ToolKind::GetUiState => {
            assert(req =~= Seq::<Seq<char>>::empty());
            assert(first_missing(req, args) is None);
        },
        ToolKind::Screenshot => {
            assert(req =~= Seq::<Seq<char>>::empty());
            assert(first_missing(req, args) is None);
        },
        ToolKind::Evaluate => {
            reveal_strlit("script");
            reveal_strlit("Missing script parameter");
            assert("Missing script parameter"@ =~= "Missing "@ + "script"@ + " parameter"@);
            assert(req[0] == "script"@);
            assert(req.drop_first() =~= Seq::<Seq<char>>::empty());
            if arg_str(args, "script"@) is None {
                assert(first_missing(req, args) == Some("script"@));
            } else {
                assert(first_missing(req.drop_first(), args) is None);
                assert(first_missing(req, args) is None);
            }
        },
        ToolKind::Click => {
            reveal_strlit("selector");
            reveal_strlit("Missing selector parameter");
            assert("Missing selector parameter"@ =~= "Missing "@ + "selector"@ + " parameter"@);
            assert(req[0] == "selector"@);
            assert(req.drop_first() =~= Seq::<Seq<char>>::empty());
            if arg_str(args, "selector"@) is None {
                assert(first_missing(req, args) == Some("selector"@));
            } else {
                assert(first_missing(req.drop_first(), args) is None);
                assert(first_missing(req, args) is None);
            }
        },
        ToolKind::Type => {
            reveal_strlit("selector");
            reveal_strlit("Missing selector parameter");
            assert("Missing selector parameter"@ =~= "Missing "@ + "selector"@ + " parameter"@);
            reveal_strlit("text");
            reveal_strlit("Missing text parameter");
            assert("Missing text parameter"@ =~= "Missing "@ + "text"@ + " parameter"@);
            assert(req[0] == "selector"@);
            assert(req.drop_first() =~= seq!["text"@]);
            assert(req.drop_first()[0] == "text"@);
            assert(req.drop_first().drop_first() =~= Seq::<Seq<char>>::empty());
            if arg_str(args, "selector"@) is None {
                assert(first_missing(req, args) == Some("selector"@));
            } else if arg_str(args, "text"@) is None {
                assert(first_missing(req.drop_first(), args) == Some("text"@));
                assert(first_missing(req, args) == Some("text"@));
            } else {
                assert(first_missing(req.drop_first().drop_first(), args) is None);
                assert(first_missing(req.drop_first(), args) is None);
                assert(first_missing(req, args) is None);
            }
        },
        ToolKind::Scroll => {
            reveal_strlit("direction");
            reveal_strlit("Missing direction parameter");
            assert("Missing direction parameter"@ =~= "Missing "@ + "direction"@ + " parameter"@);
            assert(req[0] == "direction"@);
            assert(req.drop_first() =~= Seq::<Seq<char>>::empty());
            if arg_str(args, "direction"@) is None {
                assert(first_missing(req, args) == Some("direction"@));
            } else {
                assert(first_missing(req.drop_first(), args) is None);
                assert(first_missing(req, args) is None);
            }
        },
        ToolKind::GoBack => {
            assert(req =~= Seq::<Seq<char>>::empty());
            assert(first_missing(req, args) is None);
        },
        ToolKind::GoForward => {
            assert(req =~= Seq::<Seq<char>>::empty());
            assert(first_missing(req, args) is None);
        },
        ToolKind::Refresh => {
            assert(req =~= Seq::<Seq<char>>::empty());
            assert(first_missing(req, args) is None);
        },
        ToolKind::GetContent => {
            assert(req =~= Seq::<Seq<char>>::empty());
            assert(first_missing(req, args) is None);
        },
        ToolKind::WaitFor => {
            reveal_strlit("selector");
            reveal_strlit("Missing selector parameter");
            assert("Missing selector parameter"@ =~= "Missing "@ + "selector"@ + " parameter"@);
            assert(req[0] == "selector"@);
            assert(req.drop_first() =~= Seq::<Seq<char>>::empty());
            if arg_str(args, "selector"@) is None {
                assert(first_missing(req, args) == Some("selector"@));
            } else {
                assert(first_missing(req.drop_first(), args) is None);
                assert(first_missing(req, args) is None);
            }
        },
        ToolKind::WatchDom => {
            assert(req =~= Seq::<Seq<char>>::empty());
            assert(first_missing(req, args) is None);
        },
        ToolKind::WatchEvents => {
            assert(req =~= Seq::<Seq<char>>::empty());
            assert(first_missing(req, args) is None);
        },
        ToolKind::Notification => {
            reveal_strlit("title");
            reveal_strlit("Missing title parameter");
            assert("Missing title parameter"@ =~= "Missing "@ + "title"@ + " parameter"@);
            reveal_strlit("body");
            reveal_strlit("Missing body parameter");
            assert("Missing body parameter"@ =~= "Missing "@ + "body"@ + " parameter"@);
            assert(req[0] == "title"@);
            assert(req.drop_first() =~= seq!["body"@]);
            assert(req.drop_first()[0] == "body"@);
            assert(req.drop_first().drop_first() =~= Seq::<Seq<char>>::empty());
            if arg_str(args, "title"@) is None {
                assert(first_missing(req, args) == Some("title"@));
            } else if arg_str(args, "body"@) is None {
                assert(first_missing(req.drop_first(), args) == Some("body"@));
                assert(first_missing(req, args) == Some("body"@));
            } else {
                assert(first_missing(req.drop_first().drop_first(), args) is None);
                assert(first_missing(req.drop_first(), args) is None);
                assert(first_missing(req, args) is None);
            }
        },
        ToolKind::Show => {
            assert(req =~= Seq::<Seq<char>>::empty());
            assert(first_missing(req, args) is None);
        },
        ToolKind::Hide => {
            assert(req =~= Seq::<Seq<char>>::empty());
            assert(first_missing(req, args) is None);
        },
    }
}

} // verus!

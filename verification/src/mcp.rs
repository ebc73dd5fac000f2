use vstd::prelude::*;
use crate::json::{
    clone_json, json_array, json_object, json_str, json_string, lemma_seq_push, members_new,
    model_as_str, model_get, object1, object2, object3, opt_model, seq_model, JsonModel,
    JsonValue,
};
use crate::prompts::{get_prompts, prompt_catalog};
use crate::resources::{
    find_resource, plan_resource_read, resource_json, resource_json_spec, resource_plan_model,
    resource_plan_spec, ResourceKind, ResourcePlan, ResourcePlanModel, ResourceRegistry,
};
use crate::text::{decimal, join2, push_char, push_decimal, str_eq};
use crate::tools::{
    find_tool, plan_model, plan_tool_call, tool_json, tool_json_spec, tool_plan_spec, PlanModel,
    ToolPlan, ToolRegistry,
};

verus! {

/// A JSON-RPC 2.0 request. `params` is `Null` when the request has none.
#[derive(Debug)]
pub struct JsonRpcRequest {
    pub jsonrpc: String,
    pub id: Option<JsonValue>,
    pub method: String,
    pub params: JsonValue,
}

/// A JSON-RPC 2.0 error object.
#[derive(Debug)]
pub struct JsonRpcError {
    pub code: i32,
    pub message: String,
}

/// A JSON-RPC 2.0 response: a `result` or an `error`.
#[derive(Debug)]
pub struct JsonRpcResponse {
    pub jsonrpc: String,
    pub id: Option<JsonValue>,
    pub result: Option<JsonValue>,
    pub error: Option<JsonRpcError>,
}

pub struct ResponseModel {
    pub jsonrpc: Seq<char>,
    pub id: Option<JsonModel>,
    pub result: Option<JsonModel>,
    pub error: Option<(i32, Seq<char>)>,
}

pub open spec fn id_model(id: Option<JsonValue>) -> Option<JsonModel> {
    match id {
        Some(v) => Some(v@),
        None => None,
    }
}

pub open spec fn response_model(r: JsonRpcResponse) -> ResponseModel {
    ResponseModel {
        jsonrpc: r.jsonrpc@,
        id: id_model(r.id),
        result: match r.result {
            Some(v) => Some(v@),
            None => None,
        },
        error: match r.error {
            Some(e) => Some((e.code, e.message@)),
            None => None,
        },
    }
}

/// A successful response to the request with `id`.
pub open spec fn success_response(id: Option<JsonModel>, result: JsonModel) -> ResponseModel {
    ResponseModel { jsonrpc: "2.0"@, id, result: Some(result), error: None }
}

/// A failed response to the request with `id`.
pub open spec fn error_response(id: Option<JsonModel>, code: i32, message: Seq<char>) -> ResponseModel {
    ResponseModel { jsonrpc: "2.0"@, id, result: None, error: Some((code, message)) }
}

/// A response is well formed for a request with `id`: version 2.0, the
/// request's id, and exactly one of a result and an error.
pub open spec fn well_formed_reply(r: ResponseModel, id: Option<JsonModel>) -> bool {
    &&& r.jsonrpc == "2.0"@
    &&& r.id == id
    &&& (r.result is Some <==> r.error is None)
}

/// The code of an unknown method.
pub const METHOD_NOT_FOUND: i32 = -32601;

/// The code of missing or unknown parameters.
pub const INVALID_PARAMS: i32 = -32602;

/// The code of a failure of the tool or resource itself.
pub const SERVER_ERROR: i32 = -32000;

fn request_id(request: &JsonRpcRequest) -> (r: Option<JsonValue>)
    ensures
        id_model(r) == id_model(request.id),
{
    match &request.id {
        Some(v) => Some(clone_json(v)),
        None => None,
    }
}

/// A successful response to `request` with `result`.
pub fn success(request: &JsonRpcRequest, result: JsonValue) -> (r: JsonRpcResponse)
    ensures
        response_model(r) == success_response(id_model(request.id), result@),
{
    JsonRpcResponse {
        jsonrpc: "2.0".to_owned(),
        id: request_id(request),
        result: Some(result),
        error: None,
    }
}

/// A failed response to `request` with `code` and `message`.
pub fn failure(request: &JsonRpcRequest, code: i32, message: String) -> (r: JsonRpcResponse)
    ensures
        response_model(r) == error_response(id_model(request.id), code, message@),
{
    JsonRpcResponse {
        jsonrpc: "2.0".to_owned(),
        id: request_id(request),
        result: None,
        error: Some(JsonRpcError { code, message }),
    }
}

/// The methods that the server answers.
#[derive(Debug, Clone, Copy, PartialEq, Eq, Structural)]
pub enum McpMethod {
    Initialize,
    ToolsList,
    ToolsCall,
    ResourcesList,
    ResourcesRead,
    PromptsList,
    Unknown,
}

pub open spec fn method_of(m: Seq<char>) -> McpMethod {
    if m == "initialize"@ {
        McpMethod::Initialize
    } else if m == "tools/list"@ {
        McpMethod::ToolsList
    } else if m == "tools/call"@ {
        McpMethod::ToolsCall
    } else if m == "resources/list"@ {
        McpMethod::ResourcesList
    } else if m == "resources/read"@ {
        McpMethod::ResourcesRead
    } else if m == "prompts/list"@ {
        McpMethod::PromptsList
    } else {
        McpMethod::Unknown
    }
}

/// The method that a request's method name selects.
pub fn classify_method(m: &str) -> (r: McpMethod)
    ensures
        r == method_of(m@),
{
    if str_eq(m, "initialize") {
        McpMethod::Initialize
    } else if str_eq(m, "tools/list") {
        McpMethod::ToolsList
    } else if str_eq(m, "tools/call") {
        McpMethod::ToolsCall
    } else if str_eq(m, "resources/list") {
        McpMethod::ResourcesList
    } else if str_eq(m, "resources/read") {
        McpMethod::ResourcesRead
    } else if str_eq(m, "prompts/list") {
        McpMethod::PromptsList
    } else {
        McpMethod::Unknown
    }
}

pub open spec fn empty_object() -> JsonModel {
    JsonModel::Object(Seq::empty())
}

/// What `initialize` answers: protocol version, capabilities and server.
pub open spec fn initialize_result() -> JsonModel {
    JsonModel::Object(
        seq![
            ("protocolVersion"@, JsonModel::Str("2024-11-05"@)),
            (
                "capabilities"@,
                JsonModel::Object(
                    seq![
                        ("tools"@, empty_object()),
                        ("resources"@, empty_object()),
                        ("prompts"@, empty_object()),
                    ],
                ),
            ),
            (
                "serverInfo"@,
                JsonModel::Object(
                    seq![
                        ("name"@, JsonModel::Str("copilot-browser-mcp"@)),
                        ("version"@, JsonModel::Str("1.0.0"@)),
                    ],
                ),
            ),
        ],
    )
}

fn empty_obj() -> (r: JsonValue)
    ensures
        r@ == empty_object(),
{
    json_object(members_new())
}

/// Answers `initialize`.
pub fn handle_initialize(request: &JsonRpcRequest) -> (r: JsonRpcResponse)
    ensures
        response_model(r) == success_response(id_model(request.id), initialize_result()),
{
    let caps = object3("tools", empty_obj(), "resources", empty_obj(), "prompts", empty_obj());
    let info = object2("name", json_str("copilot-browser-mcp"), "version", json_str("1.0.0"));
    let result = object3(
        "protocolVersion",
        json_str("2024-11-05"),
        "capabilities",
        caps,
        "serverInfo",
        info,
    );
    success(request, result)
}

/// Answers `prompts/list`: `{"prompts": [...]}`.
pub fn handle_prompts_list(request: &JsonRpcRequest) -> (r: JsonRpcResponse)
    ensures
        response_model(r) == success_response(
            id_model(request.id),
            JsonModel::Object(seq![("prompts"@, JsonModel::Array(prompt_catalog()))]),
        ),
{
    let prompts = get_prompts();
    success(request, object1("prompts", json_array(prompts)))
}

/// Answers `tools/list`: `{"tools": [...]}`, one entry per registered tool.
pub fn handle_tools_list(request: &JsonRpcRequest, tools: &ToolRegistry) -> (r: JsonRpcResponse)
    ensures
        response_model(r) == success_response(
            id_model(request.id),
            JsonModel::Object(
                seq![("tools"@, JsonModel::Array(tools@.map_values(|t| tool_json_spec(t))))],
            ),
        ),
{
    let mut items: Vec<JsonValue> = Vec::new();
    let n = tools.len();
    let mut i: usize = 0;
    while i < n
        invariant
            n == tools@.len(),
            0 <= i <= n,
            seq_model(items@) =~= tools@.take(i as int).map_values(|t| tool_json_spec(t)),
        decreases n - i,
    {
        let item = tool_json(tools.tool_at(i));
        let ghost before = items@;
        items.push(item);
        proof {
            lemma_seq_push(before, item);
            assert(tools@.take(i + 1) =~= tools@.take(i as int).push(tools@[i as int]));
        }
        i = i + 1;
    }
    assert(tools@.take(n as int) =~= tools@);
    success(request, object1("tools", json_array(items)))
}

/// Answers `resources/list`: `{"resources": [...]}`, one entry per
/// registered resource.
pub fn handle_resources_list(request: &JsonRpcRequest, resources: &ResourceRegistry) -> (r: JsonRpcResponse)
    ensures
        response_model(r) == success_response(
            id_model(request.id),
            JsonModel::Object(
                seq![
                    (
                        "resources"@,
                        JsonModel::Array(resources@.map_values(|x| resource_json_spec(x))),
                    ),
                ],
            ),
        ),
{
    let mut items: Vec<JsonValue> = Vec::new();
    let n = resources.len();
    let mut i: usize = 0;
    while i < n
        invariant
            n == resources@.len(),
            0 <= i <= n,
            seq_model(items@) =~= resources@.take(i as int).map_values(
                |x| resource_json_spec(x),
            ),
        decreases n - i,
    {
        let item = resource_json(resources.resource_at(i));
        let ghost before = items@;
        items.push(item);
        proof {
            lemma_seq_push(before, item);
            assert(resources@.take(i + 1) =~= resources@.take(i as int).push(
                resources@[i as int],
            ));
        }
        i = i + 1;
    }
    assert(resources@.take(n as int) =~= resources@);
    success(request, object1("resources", json_array(items)))
}

/// `params.as_object().and_then(|p| p.get(key)?.as_str())`
pub open spec fn param_str(params: JsonModel, key: Seq<char>) -> Option<Seq<char>> {
    match model_get(params, key) {
        Some(v) => model_as_str(v),
        None => None,
    }
}

/// What the server does with a request.
#[derive(Debug)]
pub enum Dispatch {
    /// Send this response.
    Reply(JsonRpcResponse),
    /// Run the tool plan, then answer with `finish_tools_call`.
    CallTool(ToolPlan),
    /// Run the resource plan, then answer with `finish_resources_read`.
    ReadResource { kind: ResourceKind, uri: String, mime_type: String, plan: ResourcePlan },
}

pub enum DispatchModel {
    Reply(ResponseModel),
    CallTool(PlanModel),
    ReadResource(ResourceKind, Seq<char>, Seq<char>, ResourcePlanModel),
}

pub open spec fn dispatch_model(d: Dispatch) -> DispatchModel {
    match d {
        Dispatch::Reply(r) => DispatchModel::Reply(response_model(r)),
        Dispatch::CallTool(p) => DispatchModel::CallTool(plan_model(p)),
        Dispatch::ReadResource { kind, uri, mime_type, plan } => DispatchModel::ReadResource(
            kind,
            uri@,
            mime_type@,
            resource_plan_model(plan),
        ),
    }
}

/// What `tools/call` does with `params`: the tool named by `params.name`
/// with the arguments `params.arguments`.
pub open spec fn tools_call_spec(
    id: Option<JsonModel>,
    params: JsonModel,
    tools: Seq<crate::tools::ToolModel>,
) -> DispatchModel {
    match param_str(params, "name"@) {
        None => DispatchModel::Reply(error_response(id, INVALID_PARAMS, "Missing tool name"@)),
        Some(name) => match find_tool(tools, name) {
            None => DispatchModel::Reply(
                error_response(id, INVALID_PARAMS, "Tool not found: "@ + name),
            ),
            Some(t) => DispatchModel::CallTool(
                tool_plan_spec(t.kind, model_get(params, "arguments"@)),
            ),
        },
    }
}

/// What `resources/read` does with `params`: the resource at `params.uri`.
pub open spec fn resources_read_spec(
    id: Option<JsonModel>,
    params: JsonModel,
    resources: Seq<crate::resources::ResourceModel>,
) -> DispatchModel {
    match param_str(params, "uri"@) {
        None => DispatchModel::Reply(error_response(id, INVALID_PARAMS, "Missing resource URI"@)),
        Some(uri) => match find_resource(resources, uri) {
            None => DispatchModel::Reply(
                error_response(id, INVALID_PARAMS, "Resource not found: "@ + uri),
            ),
            Some(res) => DispatchModel::ReadResource(
                res.kind,
                uri,
                res.mime_type,
                resource_plan_spec(res.kind),
            ),
        },
    }
}

/// What the server does with a request, by its method.
pub open spec fn dispatch_spec(
    method: Seq<char>,
    id: Option<JsonModel>,
    params: JsonModel,
    tools: Seq<crate::tools::ToolModel>,
    resources: Seq<crate::resources::ResourceModel>,
) -> DispatchModel {
    match method_of(method) {
        McpMethod::Initialize => DispatchModel::Reply(success_response(id, initialize_result())),
        McpMethod::ToolsList => DispatchModel::Reply(
            success_response(
                id,
                JsonModel::Object(
                    seq![("tools"@, JsonModel::Array(tools.map_values(|t| tool_json_spec(t))))],
                ),
            ),
        ),
        McpMethod::ToolsCall => tools_call_spec(id, params, tools),
        McpMethod::ResourcesList => DispatchModel::Reply(
            success_response(
                id,
                JsonModel::Object(
                    seq![
                        (
                            "resources"@,
                            JsonModel::Array(resources.map_values(|x| resource_json_spec(x))),
                        ),
                    ],
                ),
            ),
        ),
        McpMethod::ResourcesRead => resources_read_spec(id, params, resources),
        McpMethod::PromptsList => DispatchModel::Reply(
            success_response(
                id,
                JsonModel::Object(seq![("prompts"@, JsonModel::Array(prompt_catalog()))]),
            ),
        ),
        McpMethod::Unknown => DispatchModel::Reply(
            error_response(id, METHOD_NOT_FOUND, "Method not found"@),
        ),
    }
}

fn param_str_of<'a>(params: &'a JsonValue, key: &str) -> (r: Option<&'a str>)
    ensures
        crate::tools::opt_str_model(r) == param_str(params@, key@),
{
    match params.get(key) {
        Some(v) => v.as_str(),
        None => None,
    }
}

/// Decides what the server does with a request.
pub fn handle_jsonrpc(request: &JsonRpcRequest, tools: &ToolRegistry, resources: &ResourceRegistry) -> (r: Dispatch)
    ensures
        dispatch_model(r) == dispatch_spec(
            request.method@,
            id_model(request.id),
            request.params@,
            tools@,
            resources@,
        ),
        r matches Dispatch::Reply(resp) ==> well_formed_reply(
            response_model(resp),
            id_model(request.id),
        ),
{
    match classify_method(request.method.as_str()) {
        McpMethod::Initialize => Dispatch::Reply(handle_initialize(request)),
        McpMethod::ToolsList => Dispatch::Reply(handle_tools_list(request, tools)),
        McpMethod::ToolsCall => match param_str_of(&request.params, "name") {
            None => Dispatch::Reply(
                failure(request, INVALID_PARAMS, "Missing tool name".to_owned()),
            ),
            Some(name) => match tools.get(name) {
                None => Dispatch::Reply(
                    failure(request, INVALID_PARAMS, join2("Tool not found: ", name)),
                ),
                Some(tool) => Dispatch::CallTool(
                    plan_tool_call(tool.kind, request.params.get("arguments")),
                ),
            },
        },
        McpMethod::ResourcesList => Dispatch::Reply(handle_resources_list(request, resources)),
        McpMethod::ResourcesRead => match param_str_of(&request.params, "uri") {
            None => Dispatch::Reply(
                failure(request, INVALID_PARAMS, "Missing resource URI".to_owned()),
            ),
            Some(uri) => match resources.get(uri) {
                None => Dispatch::Reply(
                    failure(request, INVALID_PARAMS, join2("Resource not found: ", uri)),
                ),
                Some(res) => Dispatch::ReadResource {
                    kind: res.kind,
                    uri: uri.to_owned(),
                    mime_type: res.mime_type.clone(),
                    plan: plan_resource_read(res.kind),
                },
            },
        },
        McpMethod::PromptsList => Dispatch::Reply(handle_prompts_list(request)),
        McpMethod::Unknown => Dispatch::Reply(
            failure(request, METHOD_NOT_FOUND, "Method not found".to_owned()),
        ),
    }
}

/// The response to `tools/call` once the tool has answered `outcome`.
pub fn finish_tools_call(request: &JsonRpcRequest, outcome: Result<JsonValue, String>) -> (r: JsonRpcResponse)
    ensures
        response_model(r) == match outcome {
            Ok(v) => success_response(id_model(request.id), v@),
            Err(e) => error_response(id_model(request.id), SERVER_ERROR, e@),
        },
        well_formed_reply(response_model(r), id_model(request.id)),
{
    match outcome {
        Ok(v) => success(request, v),
        Err(e) => failure(request, SERVER_ERROR, e),
    }
}

/// `{"contents": [{"uri", "mimeType", "text"}]}`
pub open spec fn contents_spec(uri: Seq<char>, mime_type: Seq<char>, text: Seq<char>) -> JsonModel {
    JsonModel::Object(
        seq![
            (
                "contents"@,
                JsonModel::Array(
                    seq![
                        JsonModel::Object(
                            seq![
                                ("uri"@, JsonModel::Str(uri)),
                                ("mimeType"@, JsonModel::Str(mime_type)),
                                ("text"@, JsonModel::Str(text)),
                            ],
                        ),
                    ],
                ),
            ),
        ],
    )
}

/// The response to `resources/read` of `uri` (of type `mime_type`) once its
/// content is `content`.
pub fn finish_resources_read(
    request: &JsonRpcRequest,
    uri: &str,
    mime_type: &str,
    content: Result<String, String>,
) -> (r: JsonRpcResponse)
    ensures
        response_model(r) == match content {
            Ok(t) => success_response(id_model(request.id), contents_spec(uri@, mime_type@, t@)),
            Err(e) => error_response(id_model(request.id), SERVER_ERROR, e@),
        },
        well_formed_reply(response_model(r), id_model(request.id)),
{
    match content {
        Ok(text) => {
            let entry = object3(
                "uri",
                json_str(uri),
                "mimeType",
                json_str(mime_type),
                "text",
                json_string(text),
            );
            let mut items: Vec<JsonValue> = Vec::new();
            let ghost before = items@;
            items.push(entry);
            proof {
                lemma_seq_push(before, entry);
                assert(seq_model(before) =~= Seq::<JsonModel>::empty());
            }
            assert(seq_model(items@) =~= seq![entry@]);
            success(request, object1("contents", json_array(items)))
        },
        Err(e) => failure(request, SERVER_ERROR, e),
    }
}

/// The body that `/health` answers.
pub open spec fn health_spec() -> JsonModel {
    JsonModel::Object(
        seq![("status"@, JsonModel::Str("ok"@)), ("version"@, JsonModel::Str("1.0.0"@))],
    )
}

/// The body that `/health` answers.
pub fn health_body() -> (r: JsonValue)
    ensures
        r@ == health_spec(),
{
    object2("status", json_str("ok"), "version", json_str("1.0.0"))
}

/// The data of the one event that `/sse` sends.
pub fn sse_connected_data() -> (r: String)
    ensures
        r@ == "connected"@,
{
    "connected".to_owned()
}

/// Where and whether the MCP server listens.
#[derive(Debug)]
pub struct McpConfig {
    pub enabled: bool,
    pub host: String,
    pub port: u16,
}

/// The address the server binds, `host:port`; `None` when the server is
/// disabled.
pub fn mcp_bind_address(config: &McpConfig) -> (r: Option<String>)
    ensures
        !config.enabled ==> r is None,
        config.enabled ==> (r matches Some(a) && a@ == config.host@ + seq![':'] + decimal(
            config.port as nat,
        )),
{
    if !config.enabled {
        return None;
    }
    let mut a = config.host.clone();
    push_char(&mut a, ':');
    push_decimal(&mut a, config.port as u64);
    Some(a)
}

} // verus!

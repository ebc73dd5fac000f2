use vstd::prelude::*;
use crate::json::{json_str, json_string, object4, JsonModel, JsonValue};
use crate::scripts::{PAGE_CONTENT, PAGE_TEXT};
use crate::text::{join2, str_eq};

verus! {

/// Which reader a resource runs.
#[derive(Debug, Clone, Copy, PartialEq, Eq, Structural)]
pub enum ResourceKind {
    CurrentUrl,
    Title,
    Content,
    Text,
    WindowState,
}

/// A resource that the server offers: its URI, name, description, MIME type
/// and the reader that produces its content.
#[derive(Debug)]
pub struct Resource {
    pub uri: String,
    pub name: String,
    pub description: String,
    pub mime_type: String,
    pub kind: ResourceKind,
}

pub struct ResourceModel {
    pub uri: Seq<char>,
    pub name: Seq<char>,
    pub description: Seq<char>,
    pub mime_type: Seq<char>,
    pub kind: ResourceKind,
}

impl View for Resource {
    type V = ResourceModel;

    open spec fn view(&self) -> ResourceModel {
        ResourceModel {
            uri: self.uri@,
            name: self.name@,
            description: self.description@,
            mime_type: self.mime_type@,
            kind: self.kind,
        }
    }
}

/// URI, name, description and MIME type of each resource.
pub open spec fn resource_spec(kind: ResourceKind) -> ResourceModel {
    match kind {
        ResourceKind::CurrentUrl => ResourceModel {
            uri: "browser://current-url"@,
            name: "Current URL"@,
            description: "The current page URL"@,
            mime_type: "text/plain"@,
            kind,
        },
        ResourceKind::Title => ResourceModel {
            uri: "browser://title"@,
            name: "Page Title"@,
            description: "The current page title"@,
            mime_type: "text/plain"@,
            kind,
        },
        ResourceKind::Content => ResourceModel {
            uri: "browser://content"@,
            name: "Page Content"@,
            description: "The page HTML content"@,
            mime_type: "text/html"@,
            kind,
        },
        ResourceKind::Text => ResourceModel {
            uri: "browser://text"@,
            name: "Page Text"@,
            description: "The visible text content of the page"@,
            mime_type: "text/plain"@,
            kind,
        },
        ResourceKind::WindowState => ResourceModel {
            uri: "browser://window-state"@,
            name: "Window State"@,
            description: "The current window state (visible, maximized, etc.)"@,
            mime_type: "application/json"@,
            kind,
        },
    }
}

fn resource_value(
    uri: &str,
    name: &str,
    description: &str,
    mime_type: &str,
    kind: ResourceKind,
) -> (r: Resource)
    ensures
        r@ == (ResourceModel {
            uri: uri@,
            name: name@,
            description: description@,
            mime_type: mime_type@,
            kind,
        }),
{
    Resource {
        uri: uri.to_owned(),
        name: name.to_owned(),
        description: description.to_owned(),
        mime_type: mime_type.to_owned(),
        kind,
    }
}

/// Builds the resource of `kind`.
pub fn make_resource(kind: ResourceKind) -> (r: Resource)
    ensures
        r@ == resource_spec(kind),
{
    match kind {
        ResourceKind::CurrentUrl => resource_value(
            "browser://current-url",
            "Current URL",
            "The current page URL",
            "text/plain",
            kind,
        ),
        ResourceKind::Title => resource_value(
            "browser://title",
            "Page Title",
            "The current page title",
            "text/plain",
            kind,
        ),
        ResourceKind::Content => resource_value(
            "browser://content",
            "Page Content",
            "The page HTML content",
            "text/html",
            kind,
        ),
        ResourceKind::Text => resource_value(
            "browser://text",
            "Page Text",
            "The visible text content of the page",
            "text/plain",
            kind,
        ),
        ResourceKind::WindowState => resource_value(
            "browser://window-state",
            "Window State",
            "The current window state (visible, maximized, etc.)",
            "application/json",
            kind,
        ),
    }
}

/// The resources in the order in which the server registers them.
pub open spec fn resource_kinds() -> Seq<ResourceKind> {
    seq![
        ResourceKind::CurrentUrl,
        ResourceKind::Title,
        ResourceKind::Content,
        ResourceKind::Text,
        ResourceKind::WindowState,
    ]
}

/// Every resource of the server, in registration order.
pub open spec fn resource_catalog() -> Seq<ResourceModel> {
    resource_kinds().map_values(|k: ResourceKind| resource_spec(k))
}

/// The resources that the server offers, in registration order.
pub struct ResourceRegistry {
    resources: Vec<Resource>,
}

impl View for ResourceRegistry {
    type V = Seq<ResourceModel>;

    closed spec fn view(&self) -> Seq<ResourceModel> {
        self.resources@.map_values(|r: Resource| r@)
    }
}

/// The first resource in `rs` with the URI `uri`.
pub open spec fn find_resource(rs: Seq<ResourceModel>, uri: Seq<char>) -> Option<ResourceModel>
    decreases rs.len(),
{
    if rs.len() == 0 {
        None
    } else if rs[0].uri == uri {
        Some(rs[0])
    } else {
        find_resource(rs.drop_first(), uri)
    }
}

pub open spec fn opt_resource(r: Option<&Resource>) -> Option<ResourceModel> {
    match r {
        Some(x) => Some(x@),
        None => None,
    }
}

/// Registers every resource of the server.
pub fn register_resources() -> (r: ResourceRegistry)
    ensures
        r@ == resource_catalog(),
{
    let mut resources: Vec<Resource> = Vec::new();
    resources.push(make_resource(ResourceKind::CurrentUrl));
    resources.push(make_resource(ResourceKind::Title));
    resources.push(make_resource(ResourceKind::Content));
    resources.push(make_resource(ResourceKind::Text));
    resources.push(make_resource(ResourceKind::WindowState));
    proof {
        let c = resource_catalog();
        assert(resources@.map_values(|r: Resource| r@) =~= c);
        lemma_catalog_uris_distinct();
        assert forall|i: int, j: int| 0 <= i < j < resources@.len() implies #[trigger] resources@[i].uri@
            != #[trigger] resources@[j].uri@ by {
            assert(resources@.map_values(|r: Resource| r@)[i] == c[i]);
            assert(resources@.map_values(|r: Resource| r@)[j] == c[j]);
            assert(c[i].uri != c[j].uri);
            assert(resources@[i]@.uri == c[i].uri);
            assert(resources@[j]@.uri == c[j].uri);
        }
    }
    let r = ResourceRegistry { resources };
    assert(r@ =~= resource_catalog());
    r
}

/// The resources of the catalog have pairwise different URIs.
proof fn lemma_catalog_uris_distinct()
    ensures
        forall|i: int, j: int|
            0 <= i < j < resource_catalog().len() ==> #[trigger] resource_catalog()[i].uri
                != #[trigger] resource_catalog()[j].uri,
{
    let ks = resource_kinds();
    let c = resource_catalog();
    assert forall|i: int, j: int| 0 <= i < j < c.len() implies #[trigger] c[i].uri
        != #[trigger] c[j].uri by {
        assert(ks[i] != ks[j]) by {
            if i == 0 {} else if i == 1 {} else if i == 2 {} else {}
        }
        lemma_resource_uris_distinct(ks[i], ks[j]);
    }
}

impl ResourceRegistry {
    /// No two resources of a registry share a URI.
    #[verifier::type_invariant]
    spec fn uris_distinct(self) -> bool {
        forall|i: int, j: int|
            0 <= i < j < self.resources@.len() ==> #[trigger] self.resources@[i].uri@
                != #[trigger] self.resources@[j].uri@
    }

    /// The number of resources.
    pub fn len(&self) -> (n: usize)
        ensures
            n == self@.len(),
    {
        self.resources.len()
    }

    /// The resource at position `i` in registration order.
    pub fn resource_at(&self, i: usize) -> (r: &Resource)
        requires
            i < self@.len(),
        ensures
            r@ == self@[i as int],
    {
        &self.resources[i]
    }

    /// The resource with the URI `uri`, if the server offers one.
    pub fn get(&self, uri: &str) -> (r: Option<&Resource>)
        ensures
            opt_resource(r) == find_resource(self@, uri@),
    {
        let n = self.resources.len();
        let mut i: usize = 0;
        assert(self@.skip(0) =~= self@);
        while i < n
            invariant
                n == self.resources@.len(),
                0 <= i <= n,
                find_resource(self@, uri@) == find_resource(self@.skip(i as int), uri@),
            decreases n - i,
        {
            let ghost rest = self@.skip(i as int);
            assert(rest[0] == self.resources@[i as int]@);
            if str_eq(self.resources[i].uri.as_str(), uri) {
                return Some(&self.resources[i]);
            }
            assert(rest.drop_first() =~= self@.skip(i + 1));
            i = i + 1;
        }
        None
    }
}

/// A resource as the resources list shows it.
pub open spec fn resource_json_spec(r: ResourceModel) -> JsonModel {
    JsonModel::Object(
        seq![
            ("uri"@, JsonModel::Str(r.uri)),
            ("name"@, JsonModel::Str(r.name)),
            ("description"@, JsonModel::Str(r.description)),
            ("mimeType"@, JsonModel::Str(r.mime_type)),
        ],
    )
}

/// Serialises a resource for the resources list.
pub fn resource_json(r: &Resource) -> (j: JsonValue)
    ensures
        j@ == resource_json_spec(r@),
{
    object4(
        "uri",
        json_string(r.uri.clone()),
        "name",
        json_string(r.name.clone()),
        "description",
        json_string(r.description.clone()),
        "mimeType",
        json_string(r.mime_type.clone()),
    )
}

/// How long reading a resource waits for a script evaluation, in
/// milliseconds.
pub const RESOURCE_EVAL_TIMEOUT_MS: u64 = 10000;

/// What reading a resource does with the main window.
#[derive(Debug)]
pub enum ResourcePlan {
    /// Read the window's URL.
    ReadUrl,
    /// Read the window's title.
    ReadTitle,
    /// Evaluate the script in the page and wait (at most
    /// `RESOURCE_EVAL_TIMEOUT_MS`) for its value.
    Eval(String),
    /// Read whether the window is visible, maximized, fullscreen and focused.
    ReadWindowState,
}

pub enum ResourcePlanModel {
    ReadUrl,
    ReadTitle,
    Eval(Seq<char>),
    ReadWindowState,
}

pub open spec fn resource_plan_model(p: ResourcePlan) -> ResourcePlanModel {
    match p {
        ResourcePlan::ReadUrl => ResourcePlanModel::ReadUrl,
        ResourcePlan::ReadTitle => ResourcePlanModel::ReadTitle,
        ResourcePlan::Eval(s) => ResourcePlanModel::Eval(s@),
        ResourcePlan::ReadWindowState => ResourcePlanModel::ReadWindowState,
    }
}

pub open spec fn resource_plan_spec(kind: ResourceKind) -> ResourcePlanModel {
    match kind {
        ResourceKind::CurrentUrl => ResourcePlanModel::ReadUrl,
        ResourceKind::Title => ResourcePlanModel::ReadTitle,
        ResourceKind::Content => ResourcePlanModel::Eval(PAGE_CONTENT@),
        ResourceKind::Text => ResourcePlanModel::Eval(PAGE_TEXT@),
        ResourceKind::WindowState => ResourcePlanModel::ReadWindowState,
    }
}

/// What reading the resource of `kind` does.
pub fn plan_resource_read(kind: ResourceKind) -> (r: ResourcePlan)
    ensures
        resource_plan_model(r) == resource_plan_spec(kind),
{
    match kind {
        ResourceKind::CurrentUrl => ResourcePlan::ReadUrl,
        ResourceKind::Title => ResourcePlan::ReadTitle,
        ResourceKind::Content => ResourcePlan::Eval(PAGE_CONTENT.to_owned()),
        ResourceKind::Text => ResourcePlan::Eval(PAGE_TEXT.to_owned()),
        ResourceKind::WindowState => ResourcePlan::ReadWindowState,
    }
}

/// Each resource reads what its URI names: `browser://current-url` and only
/// it reads the window's URL, `browser://title` and only it the window's
/// title, `browser://content` the page's HTML, `browser://text` the page's
/// text, and `browser://window-state` and only it the window's state.
pub proof fn lemma_resource_reads_what_uri_names(k: ResourceKind)
    ensures
        (resource_plan_spec(k) == ResourcePlanModel::ReadUrl) <==> resource_spec(k).uri
            == "browser://current-url"@,
        (resource_plan_spec(k) == ResourcePlanModel::ReadTitle) <==> resource_spec(k).uri
            == "browser://title"@,
        (resource_plan_spec(k) is Eval) <==> (resource_spec(k).uri == "browser://content"@
            || resource_spec(k).uri == "browser://text"@),
        resource_spec(k).uri == "browser://content"@ ==> resource_plan_spec(k)
            == ResourcePlanModel::Eval(PAGE_CONTENT@),
        resource_spec(k).uri == "browser://text"@ ==> resource_plan_spec(k) == ResourcePlanModel::Eval(
            PAGE_TEXT@,
        ),
        (resource_plan_spec(k) == ResourcePlanModel::ReadWindowState) <==> resource_spec(k).uri
            == "browser://window-state"@,
{
    lemma_uri_lengths();
    let u1 = resource_spec(ResourceKind::CurrentUrl).uri;
    let u2 = resource_spec(ResourceKind::Title).uri;
    let u3 = resource_spec(ResourceKind::Content).uri;
    let u4 = resource_spec(ResourceKind::Text).uri;
    let u5 = resource_spec(ResourceKind::WindowState).uri;
    assert(u1.len() != u2.len() && u1.len() != u3.len() && u1.len() != u4.len() && u1.len() != u5.len());
    assert(u2.len() != u3.len() && u2.len() != u4.len() && u2.len() != u5.len());
    assert(u3.len() != u4.len() && u3.len() != u5.len() && u4.len() != u5.len());
    match k {
        ResourceKind::CurrentUrl => {},
        ResourceKind::Title => {},
        ResourceKind::Content => {},
        ResourceKind::Text => {},
        ResourceKind::WindowState => {},
    }
}

/// What running a resource plan gave.
#[derive(Debug)]
pub enum ResourceReport {
    /// There is no main window.
    WindowMissing,
    /// The URL or title, or the error text of reading it.
    Read(Result<String, String>),
    /// The outcome of the script evaluation.
    Evaluated(Result<JsonValue, String>),
    /// The window's state; a flag that could not be read is `false`.
    WindowState { visible: bool, maximized: bool, fullscreen: bool, focused: bool },
}

pub enum ResourceReportModel {
    WindowMissing,
    Read(Result<Seq<char>, Seq<char>>),
    Evaluated(Result<JsonModel, Seq<char>>),
    WindowState(bool, bool, bool, bool),
}

pub open spec fn resource_report_model(r: ResourceReport) -> ResourceReportModel {
    match r {
        ResourceReport::WindowMissing => ResourceReportModel::WindowMissing,
        ResourceReport::Read(Ok(s)) => ResourceReportModel::Read(Ok(s@)),
        ResourceReport::Read(Err(e)) => ResourceReportModel::Read(Err(e@)),
        ResourceReport::Evaluated(Ok(v)) => ResourceReportModel::Evaluated(Ok(v@)),
        ResourceReport::Evaluated(Err(e)) => ResourceReportModel::Evaluated(Err(e@)),
        ResourceReport::WindowState { visible, maximized, fullscreen, focused } =>
            ResourceReportModel::WindowState(visible, maximized, fullscreen, focused),
    }
}

/// The content of a resource: text as it is, or a JSON value to be written
/// out as compact JSON text.
#[derive(Debug)]
pub enum ResourceContent {
    Text(String),
    Json(JsonValue),
}

pub enum ContentModel {
    Text(Seq<char>),
    Json(JsonModel),
}

pub open spec fn content_model(c: ResourceContent) -> ContentModel {
    match c {
        ResourceContent::Text(s) => ContentModel::Text(s@),
        ResourceContent::Json(v) => ContentModel::Json(v@),
    }
}

pub open spec fn content_result_model(r: Result<ResourceContent, String>) -> Result<ContentModel, Seq<char>> {
    match r {
        Ok(c) => Ok(content_model(c)),
        Err(e) => Err(e@),
    }
}

/// The window state as JSON.
pub open spec fn window_state_spec(visible: bool, maximized: bool, fullscreen: bool, focused: bool) -> JsonModel {
    JsonModel::Object(
        seq![
            ("visible"@, JsonModel::Bool(visible)),
            ("maximized"@, JsonModel::Bool(maximized)),
            ("fullscreen"@, JsonModel::Bool(fullscreen)),
            ("focused"@, JsonModel::Bool(focused)),
        ],
    )
}

/// A script's value as resource content: a string as it is, anything else as
/// JSON text.
pub open spec fn evaluated_content(v: JsonModel) -> ContentModel {
    match v {
        JsonModel::Str(s) => ContentModel::Text(s),
        other => ContentModel::Json(other),
    }
}

/// What reading the resource of `kind` gives once its plan has run and given
/// `report`. A report that does not answer the plan is taken as a missing
/// window.
pub open spec fn resource_result_spec(kind: ResourceKind, report: ResourceReportModel) -> Result<ContentModel, Seq<char>> {
    match report {
        ResourceReportModel::Read(res) => match kind {
            ResourceKind::CurrentUrl => match res {
                Ok(u) => Ok(ContentModel::Text(u)),
                Err(e) => Err("Failed to get URL: "@ + e),
            },
            ResourceKind::Title => match res {
                Ok(t) => Ok(ContentModel::Text(t)),
                Err(e) => Err("Failed to get title: "@ + e),
            },
            _ => Err("Window not found"@),
        },
        ResourceReportModel::Evaluated(res) => match kind {
            ResourceKind::Content => match res {
                Ok(v) => Ok(evaluated_content(v)),
                Err(e) => Err("Failed to get content: "@ + e),
            },
            ResourceKind::Text => match res {
                Ok(v) => Ok(evaluated_content(v)),
                Err(e) => Err("Failed to get text: "@ + e),
            },
            _ => Err("Window not found"@),
        },
        ResourceReportModel::WindowState(a, b, c, d) => match kind {
            ResourceKind::WindowState => Ok(ContentModel::Json(window_state_spec(a, b, c, d))),
            _ => Err("Window not found"@),
        },
        ResourceReportModel::WindowMissing => Err("Window not found"@),
    }
}

fn content_of(v: JsonValue) -> (r: ResourceContent)
    ensures
        content_model(r) == evaluated_content(v@),
{
    match v {
        JsonValue::String(s) => ResourceContent::Text(s),
        other => ResourceContent::Json(other),
    }
}

/// The content of the resource of `kind` once its plan has run and given
/// `report`.
pub fn finish_resource_read(kind: ResourceKind, report: ResourceReport) -> (r: Result<ResourceContent, String>)
    ensures
        content_result_model(r) == resource_result_spec(kind, resource_report_model(report)),
{
    match report {
        ResourceReport::Read(res) => match kind {
            ResourceKind::CurrentUrl => match res {
                Ok(u) => Ok(ResourceContent::Text(u)),
                Err(e) => Err(join2("Failed to get URL: ", e.as_str())),
            },
            ResourceKind::Title => match res {
                Ok(t) => Ok(ResourceContent::Text(t)),
                Err(e) => Err(join2("Failed to get title: ", e.as_str())),
            },
            _ => Err("Window not found".to_owned()),
        },
        ResourceReport::Evaluated(res) => match kind {
            ResourceKind::Content => match res {
                Ok(v) => Ok(content_of(v)),
                Err(e) => Err(join2("Failed to get content: ", e.as_str())),
            },
            ResourceKind::Text => match res {
                Ok(v) => Ok(content_of(v)),
                Err(e) => Err(join2("Failed to get text: ", e.as_str())),
            },
            _ => Err("Window not found".to_owned()),
        },
        ResourceReport::WindowState { visible, maximized, fullscreen, focused } => match kind {
            ResourceKind::WindowState => Ok(
                ResourceContent::Json(
                    object4(
                        "visible",
                        JsonValue::Bool(visible),
                        "maximized",
                        JsonValue::Bool(maximized),
                        "fullscreen",
                        JsonValue::Bool(fullscreen),
                        "focused",
                        JsonValue::Bool(focused),
                    ),
                ),
            ),
            _ => Err("Window not found".to_owned()),
        },
        ResourceReport::WindowMissing => Err("Window not found".to_owned()),
    }
}

} // verus!

verus! {

/// In `rs`, the first resource with the URI of the one at `i` is that one,
/// when no earlier resource has its URI.
pub proof fn lemma_find_resource_at(rs: Seq<ResourceModel>, i: int)
    requires
        0 <= i < rs.len(),
        forall|j: int| 0 <= j < i ==> #[trigger] rs[j].uri != rs[i].uri,
    ensures
        find_resource(rs, rs[i].uri) == Some(rs[i]),
    decreases i,
{
    if i > 0 {
        let rest = rs.drop_first();
        assert forall|j: int| 0 <= j < i - 1 implies #[trigger] rest[j].uri != rest[i - 1].uri by {
            assert(rest[j] == rs[j + 1]);
        }
        lemma_find_resource_at(rest, i - 1);
    }
}

/// Every resource of the server is found by its URI: a `resources/read` of
/// it runs its reader and no other.
pub proof fn lemma_registered_resource_found(k: ResourceKind)
    ensures
        find_resource(resource_catalog(), resource_spec(k).uri) == Some(resource_spec(k)),
{
    let c = resource_catalog();
    let i = resource_index(k);
    lemma_catalog_uris_distinct();
    assert(c[i] == resource_spec(k));
    assert forall|j: int| 0 <= j < i implies #[trigger] c[j].uri != c[i].uri by {}
    lemma_find_resource_at(c, i);
}

/// The place of each resource in the registration order.
spec fn resource_index(k: ResourceKind) -> int {
    match k {
        ResourceKind::CurrentUrl => 0,
        ResourceKind::Title => 1,
        ResourceKind::Content => 2,
        ResourceKind::Text => 3,
        ResourceKind::WindowState => 4,
    }
}

/// The URIs of the resources have pairwise different lengths.
proof fn lemma_uri_lengths()
    ensures
        resource_spec(ResourceKind::CurrentUrl).uri.len() == 21,
        resource_spec(ResourceKind::Title).uri.len() == 15,
        resource_spec(ResourceKind::Content).uri.len() == 17,
        resource_spec(ResourceKind::Text).uri.len() == 14,
        resource_spec(ResourceKind::WindowState).uri.len() == 22,
{
    reveal_strlit("browser://current-url");
    reveal_strlit("browser://title");
    reveal_strlit("browser://content");
    reveal_strlit("browser://text");
    reveal_strlit("browser://window-state");
}

/// No two resources of the server share a URI.
pub proof fn lemma_resource_uris_distinct(k1: ResourceKind, k2: ResourceKind)
    ensures
        resource_spec(k1).uri == resource_spec(k2).uri ==> k1 == k2,
{
    lemma_uri_lengths();
}

} // verus!

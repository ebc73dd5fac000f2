use vstd::prelude::*;
use crate::json::{json_str, object1, object2, JsonModel, JsonValue};
use crate::memory::MemoryContinueParams;
use crate::text::{join2, str_eq};

verus! {

/// Arguments of downloading a file from a URL into the download directory.
#[derive(Debug)]
pub struct DownloadFileParams {
    pub url: String,
    pub filename: String,
    pub language: Option<String>,
}

/// Arguments of saving bytes as a file in the download directory.
#[derive(Debug)]
pub struct BinaryDownloadParams {
    pub filename: String,
    pub binary: Vec<u8>,
    pub language: Option<String>,
}

/// Arguments of showing a desktop notification.
#[derive(Debug)]
pub struct NotificationParams {
    pub title: String,
    pub body: String,
    pub icon: String,
}

/// Which download message a toast shows.
#[derive(Debug, Clone, Copy, PartialEq, Eq, Structural)]
pub enum MessageType {
    Start,
    Success,
    Failure,
}

/// What happened at the last step of a download.
#[derive(Debug)]
pub enum DownloadEvent {
    /// There is no main window.
    WindowMissing,
    /// The main window was found.
    WindowFound,
    /// The download directory could not be found.
    DownloadDirFailed(String),
    /// The download directory was found.
    DownloadDirFound,
    /// The output path is not valid UTF-8.
    PathNotUtf8,
    /// The output path is ready.
    PathReady,
    /// The HTTP client could not be built.
    ClientFailed(String),
    /// The HTTP client is ready.
    ClientReady,
    /// The URL does not parse.
    UrlInvalid(String),
    /// The URL parses.
    UrlValid,
    /// The request failed.
    RequestFailed(String),
    /// A response came back.
    ResponseReceived,
    /// The output file could not be created.
    FileCreateFailed(String),
    /// Reading a chunk of the body failed.
    ChunkReadFailed(String),
    /// Writing a chunk to the file failed.
    ChunkWriteFailed(String),
    /// The whole body is in the file.
    BodyWritten,
    /// Writing the bytes to the file failed.
    WriteFailed(String),
    /// The bytes are in the file.
    Written,
}

/// What to do after an event: show a toast (if any), then either go on to
/// the next step or finish with the result.
#[derive(Debug)]
pub struct DownloadStep {
    pub toast: Option<MessageType>,
    pub finish: Option<Result<(), String>>,
}

pub enum EventModel {
    WindowMissing,
    WindowFound,
    DownloadDirFailed(Seq<char>),
    DownloadDirFound,
    PathNotUtf8,
    PathReady,
    ClientFailed(Seq<char>),
    ClientReady,
    UrlInvalid(Seq<char>),
    UrlValid,
    RequestFailed(Seq<char>),
    ResponseReceived,
    FileCreateFailed(Seq<char>),
    ChunkReadFailed(Seq<char>),
    ChunkWriteFailed(Seq<char>),
    BodyWritten,
    WriteFailed(Seq<char>),
    Written,
}

pub open spec fn event_model(e: DownloadEvent) -> EventModel {
    match e {
        DownloadEvent::WindowMissing => EventModel::WindowMissing,
        DownloadEvent::WindowFound => EventModel::WindowFound,
        DownloadEvent::DownloadDirFailed(s) => EventModel::DownloadDirFailed(s@),
        DownloadEvent::DownloadDirFound => EventModel::DownloadDirFound,
        DownloadEvent::PathNotUtf8 => EventModel::PathNotUtf8,
        DownloadEvent::PathReady => EventModel::PathReady,
        DownloadEvent::ClientFailed(s) => EventModel::ClientFailed(s@),
        DownloadEvent::ClientReady => EventModel::ClientReady,
        DownloadEvent::UrlInvalid(s) => EventModel::UrlInvalid(s@),
        DownloadEvent::UrlValid => EventModel::UrlValid,
        DownloadEvent::RequestFailed(s) => EventModel::RequestFailed(s@),
        DownloadEvent::ResponseReceived => EventModel::ResponseReceived,
        DownloadEvent::FileCreateFailed(s) => EventModel::FileCreateFailed(s@),
        DownloadEvent::ChunkReadFailed(s) => EventModel::ChunkReadFailed(s@),
        DownloadEvent::ChunkWriteFailed(s) => EventModel::ChunkWriteFailed(s@),
        DownloadEvent::BodyWritten => EventModel::BodyWritten,
        DownloadEvent::WriteFailed(s) => EventModel::WriteFailed(s@),
        DownloadEvent::Written => EventModel::Written,
    }
}

pub open spec fn step_model(s: DownloadStep) -> (Option<MessageType>, Option<Result<(), Seq<char>>>) {
    (
        s.toast,
        match s.finish {
            Some(Ok(())) => Some(Ok(())),
            Some(Err(e)) => Some(Err(e@)),
            None => None,
        },
    )
}

/// Go on without a toast.
pub open spec fn proceed() -> (Option<MessageType>, Option<Result<(), Seq<char>>>) {
    (None, None)
}

/// Stop with an error and no toast.
pub open spec fn fail(e: Seq<char>) -> (Option<MessageType>, Option<Result<(), Seq<char>>>) {
    (None, Some(Err(e)))
}

/// The download's decision after each event: a start toast once the window
/// is found; a failure toast and the bare error when the request or the
/// write fails; a success toast and `Ok` when the file is complete; any
/// other failure stops with its message and no toast.
pub open spec fn download_step_spec(e: EventModel) -> (Option<MessageType>, Option<Result<(), Seq<char>>>) {
    match e {
        EventModel::WindowMissing => fail("Window not found"@),
        EventModel::WindowFound => (Some(MessageType::Start), None),
        EventModel::DownloadDirFailed(s) => fail("Failed to get download dir: "@ + s),
        EventModel::DownloadDirFound => proceed(),
        EventModel::PathNotUtf8 => fail("Invalid output path"@),
        EventModel::PathReady => proceed(),
        EventModel::ClientFailed(s) => fail("Failed to build client: "@ + s),
        EventModel::ClientReady => proceed(),
        EventModel::UrlInvalid(s) => fail("Invalid URL: "@ + s),
        EventModel::UrlValid => proceed(),
        EventModel::RequestFailed(s) => (Some(MessageType::Failure), Some(Err(s))),
        EventModel::ResponseReceived => proceed(),
        EventModel::FileCreateFailed(s) => fail("Failed to create file: "@ + s),
        EventModel::ChunkReadFailed(s) => fail("Failed to get chunk: "@ + s),
        EventModel::ChunkWriteFailed(s) => fail("Failed to write chunk: "@ + s),
        EventModel::BodyWritten => (Some(MessageType::Success), Some(Ok(()))),
        EventModel::WriteFailed(s) => (Some(MessageType::Failure), Some(Err(s))),
        EventModel::Written => (Some(MessageType::Success), Some(Ok(()))),
    }
}

fn go_on() -> (r: DownloadStep)
    ensures
        step_model(r) == proceed(),
{
    DownloadStep { toast: None, finish: None }
}

fn stop(prefix: &str, detail: &str) -> (r: DownloadStep)
    ensures
        step_model(r) == fail(prefix@ + detail@),
{
    DownloadStep { toast: None, finish: Some(Err(join2(prefix, detail))) }
}

/// Decides what a download does after `event`.
pub fn download_step(event: DownloadEvent) -> (r: DownloadStep)
    ensures
        step_model(r) == download_step_spec(event_model(event)),
{
    match event {
        DownloadEvent::WindowMissing => DownloadStep {
            toast: None,
            finish: Some(Err("Window not found".to_owned())),
        },
        DownloadEvent::WindowFound => DownloadStep { toast: Some(MessageType::Start), finish: None },
        DownloadEvent::DownloadDirFailed(s) => stop("Failed to get download dir: ", s.as_str()),
        DownloadEvent::DownloadDirFound => go_on(),
        DownloadEvent::PathNotUtf8 => DownloadStep {
            toast: None,
            finish: Some(Err("Invalid output path".to_owned())),
        },
        DownloadEvent::PathReady => go_on(),
        DownloadEvent::ClientFailed(s) => stop("Failed to build client: ", s.as_str()),
        DownloadEvent::ClientReady => go_on(),
        DownloadEvent::UrlInvalid(s) => stop("Invalid URL: ", s.as_str()),
        DownloadEvent::UrlValid => go_on(),
        DownloadEvent::RequestFailed(s) => DownloadStep {
            toast: Some(MessageType::Failure),
            finish: Some(Err(s)),
        },
        DownloadEvent::ResponseReceived => go_on(),
        DownloadEvent::FileCreateFailed(s) => stop("Failed to create file: ", s.as_str()),
        DownloadEvent::ChunkReadFailed(s) => stop("Failed to get chunk: ", s.as_str()),
        DownloadEvent::ChunkWriteFailed(s) => stop("Failed to write chunk: ", s.as_str()),
        DownloadEvent::BodyWritten => DownloadStep {
            toast: Some(MessageType::Success),
            finish: Some(Ok(())),
        },
        DownloadEvent::WriteFailed(s) => DownloadStep {
            toast: Some(MessageType::Failure),
            finish: Some(Err(s)),
        },
        DownloadEvent::Written => DownloadStep {
            toast: Some(MessageType::Success),
            finish: Some(Ok(())),
        },
    }
}

/// The window theme.
#[derive(Debug, Clone, Copy, PartialEq, Eq, Structural)]
pub enum Theme {
    Dark,
    Light,
}

/// The theme for a mode name: `dark` is dark, anything else light.
pub fn theme_for_mode(mode: &str) -> (r: Theme)
    ensures
        r == (if mode@ == "dark"@ {
            Theme::Dark
        } else {
            Theme::Light
        }),
{
    if str_eq(mode, "dark") {
        Theme::Dark
    } else {
        Theme::Light
    }
}

/// What clearing the cache ends in, given whether the main window was found
/// (`None` if not) and how clearing its browsing data went: `Ok` means
/// restart the application.
pub fn clear_cache_outcome(cleared: Option<Result<(), String>>) -> (r: Result<(), String>)
    ensures
        match cleared {
            None => r matches Err(m) && m@ == "Main window not found"@,
            Some(Ok(())) => r is Ok,
            Some(Err(e)) => r matches Err(m) && m@ == "Failed to clear browsing data: "@ + e@,
        },
{
    match cleared {
        None => Err("Main window not found".to_owned()),
        Some(Ok(())) => Ok(()),
        Some(Err(e)) => Err(join2("Failed to clear browsing data: ", e.as_str())),
    }
}

/// The error of a notification that could not be shown.
pub fn notification_failed(e: &str) -> (r: String)
    ensures
        r@ == "Failed to show notification: "@ + e@,
{
    join2("Failed to show notification: ", e)
}

/// The event that makes a project the active one in the chat window.
pub const SET_PROJECT_EVENT: &'static str = "memory_set_project";

/// The event that hands a context pack to the chat window.
pub const CONTEXT_PACK_EVENT: &'static str = "memory_context_pack";

/// `{"project_id": project_id}`
pub open spec fn set_project_payload_spec(project_id: Seq<char>) -> JsonModel {
    JsonModel::Object(seq![("project_id"@, JsonModel::Str(project_id))])
}

/// The payload of the set-project event.
pub fn set_project_payload(project_id: &str) -> (r: JsonValue)
    ensures
        r@ == set_project_payload_spec(project_id@),
{
    object1("project_id", json_str(project_id))
}

/// The error of a set-project event that could not be sent.
pub fn set_project_emit_failed(e: &str) -> (r: String)
    ensures
        r@ == "Emit set project failed: "@ + e@,
{
    join2("Emit set project failed: ", e)
}

/// An operation on the main window while continuing a project.
#[derive(Debug)]
pub enum ContinueOp {
    /// Send the event with this name and payload to the window.
    Emit(String, JsonValue),
    /// Show the window.
    Show,
    /// Give the window the focus.
    Focus,
}

/// One step of continuing a project: the operation and, where its failure
/// stops the command, the text put in front of the error; a step without
/// one goes on whatever comes of it.
#[derive(Debug)]
pub struct ContinueStep {
    pub op: ContinueOp,
    pub failure_prefix: Option<String>,
}

pub enum ContinueOpModel {
    Emit(Seq<char>, JsonModel),
    Show,
    Focus,
}

pub open spec fn continue_op_model(op: ContinueOp) -> ContinueOpModel {
    match op {
        ContinueOp::Emit(e, v) => ContinueOpModel::Emit(e@, v@),
        ContinueOp::Show => ContinueOpModel::Show,
        ContinueOp::Focus => ContinueOpModel::Focus,
    }
}

pub open spec fn continue_steps_model(steps: Seq<ContinueStep>) -> Seq<(ContinueOpModel, Option<Seq<char>>)> {
    steps.map_values(
        |st: ContinueStep|
            (
                continue_op_model(st.op),
                match st.failure_prefix {
                    Some(p) => Some(p@),
                    None => None,
                },
            ),
    )
}

/// `{"text": pack, "forceNewChat": open_new, true when not given}`
pub open spec fn context_pack_payload_spec(pack: Seq<char>, open_new: Option<bool>) -> JsonModel {
    let force = match open_new {
        Some(b) => b,
        None => true,
    };
    JsonModel::Object(seq![("text"@, JsonModel::Str(pack)), ("forceNewChat"@, JsonModel::Bool(force))])
}

/// What continuing a project does with the main window once its context
/// pack `pack` is built: nothing when there is no window; otherwise, in
/// this order, make the named project the active one (if a project is
/// named), show the window, focus it, and hand it the context pack. Only a
/// failure to hand over the pack stops the command, with
/// "Emit context pack failed: " in front of the error.
pub open spec fn continue_steps_spec(
    project_id: Option<Seq<char>>,
    open_new: Option<bool>,
    pack: Seq<char>,
    window_found: bool,
) -> Seq<(ContinueOpModel, Option<Seq<char>>)> {
    if !window_found {
        Seq::empty()
    } else {
        let set_project = match project_id {
            Some(p) => seq![
                (ContinueOpModel::Emit(SET_PROJECT_EVENT@, set_project_payload_spec(p)), None),
            ],
            None => Seq::empty(),
        };
        set_project + seq![
            (ContinueOpModel::Show, None),
            (ContinueOpModel::Focus, None),
            (
                ContinueOpModel::Emit(CONTEXT_PACK_EVENT@, context_pack_payload_spec(pack, open_new)),
                Some("Emit context pack failed: "@),
            ),
        ]
    }
}

pub open spec fn opt_string_model(o: Option<String>) -> Option<Seq<char>> {
    match o {
        Some(s) => Some(s@),
        None => None,
    }
}

/// Decides what continuing a project does with the main window, given
/// whether there is one and the context pack `pack`.
pub fn continue_project_plan(params: &MemoryContinueParams, pack: &str, window_found: bool) -> (r: Vec<ContinueStep>)
    ensures
        continue_steps_model(r@) == continue_steps_spec(
            opt_string_model(params.project_id),
            params.open_new,
            pack@,
            window_found,
        ),
{
    let mut steps: Vec<ContinueStep> = Vec::new();
    if !window_found {
        assert(continue_steps_model(steps@) =~= Seq::<(ContinueOpModel, Option<Seq<char>>)>::empty());
        return steps;
    }
    match &params.project_id {
        Some(p) => {
            steps.push(ContinueStep {
                op: ContinueOp::Emit(SET_PROJECT_EVENT.to_owned(), set_project_payload(p.as_str())),
                failure_prefix: None,
            });
        },
        None => {},
    }
    let ghost n0 = steps@.len();
    steps.push(ContinueStep { op: ContinueOp::Show, failure_prefix: None });
    steps.push(ContinueStep { op: ContinueOp::Focus, failure_prefix: None });
    let force = match params.open_new {
        Some(b) => b,
        None => true,
    };
    let payload = object2("text", json_str(pack), "forceNewChat", JsonValue::Bool(force));
    steps.push(ContinueStep {
        op: ContinueOp::Emit(CONTEXT_PACK_EVENT.to_owned(), payload),
        failure_prefix: Some("Emit context pack failed: ".to_owned()),
    });
    assert(continue_steps_model(steps@) =~= continue_steps_spec(
        opt_string_model(params.project_id),
        params.open_new,
        pack@,
        window_found,
    ));
    steps
}

/// What to do after running `step` with `outcome`: `Some(error)` stops the
/// command with that error; `None` goes on.
pub fn continue_step_failure(step: &ContinueStep, outcome: Result<(), String>) -> (r: Option<String>)
    ensures
        match outcome {
            Ok(_) => r is None,
            Err(e) => match step.failure_prefix {
                Some(p) => r matches Some(m) && m@ == p@ + e@,
                None => r is None,
            },
        },
{
    match outcome {
        Ok(_) => None,
        Err(e) => match &step.failure_prefix {
            Some(p) => Some(join2(p.as_str(), e.as_str())),
            None => None,
        },
    }
}

/// What continuing a project answers: the context pack, unless a step
/// stopped it with `failure`.
pub fn finish_continue(pack: String, failure: Option<String>) -> (r: Result<String, String>)
    ensures
        match failure {
            None => r matches Ok(t) && t@ == pack@,
            Some(e) => r matches Err(m) && m@ == e@,
        },
{
    match failure {
        None => Ok(pack),
        Some(e) => Err(e),
    }
}

} // verus!

verus! {

/// A download ends in `Ok` exactly when the success toast shows; the
/// failure toast comes only with an error; the start toast never ends it.
pub proof fn lemma_download_toasts(e: EventModel)
    ensures
        (download_step_spec(e).1 == Some(Ok::<(), Seq<char>>(()))) <==> (download_step_spec(e).0
            == Some(MessageType::Success)),
        download_step_spec(e).0 == Some(MessageType::Failure) ==> download_step_spec(
            e,
        ).1 matches Some(Err(_)),
        download_step_spec(e).0 == Some(MessageType::Start) ==> download_step_spec(e).1 is None,
{
}

} // verus!

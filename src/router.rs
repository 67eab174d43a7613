//! HTTP Endpoint Router decisions: which script each operation runs, and how
//! an outcome becomes a response envelope and a status code.
use vstd::prelude::*;
use crate::json::{json_array, json_quote, texts};
use crate::script::{
    accessor_for, build_diagnose_script, build_dom_script, build_inspect_script,
    build_query_script, build_resize_script, build_validate_classes_script, dom_script,
    inspect_script, query_script, resize_sentinel, returning, root_literal,
    validate_classes_script, DEFAULT_DOM_DEPTH, DEFAULT_DOM_NODES, DIAGNOSE_SCRIPT,
};
use crate::text::uptime_text;
use crate::text::format_uptime;
use crate::types::{
    EvalRequest, EvalResponse, InspectRequest, QueryRequest, ResizeRequest, ResizeResponse,
    ScreenshotRequest, ScreenshotResponse, StatusResponse, ValidateClassesRequest,
};

verus! {

/// Query parameters of the DOM walk.
pub struct DomQuery {
    /// Levels to descend; `None` means the default.
    pub depth: Option<u32>,
    /// Nodes to visit at most; `None` means the default.
    pub max_nodes: Option<u32>,
    /// Root element; `None` means the document body.
    pub selector: Option<String>,
}

impl Default for DomQuery {
    fn default() -> (r: Self)
        ensures
            r.depth is None,
            r.max_nodes is None,
            r.selector is None,
    {
        DomQuery { depth: None, max_nodes: None, selector: None }
    }
}

/// An operation that runs a script on the UI side.
pub enum Operation {
    /// Run the client's script as it is.
    Eval(EvalRequest),
    /// Read a property of an element.
    Query(QueryRequest),
    /// Serialize a simplified DOM tree.
    Dom(DomQuery),
    /// Visibility diagnostics of an element.
    Inspect(InspectRequest),
    /// Check which classes the stylesheets define.
    ValidateClasses(ValidateClassesRequest),
    /// The built-in health probe.
    Diagnose,
    /// Ask the UI side to resize the window.
    Resize(ResizeRequest),
}

/// The property a query reads: the one named, or `"text"`.
pub open spec fn property_name(property: Option<String>) -> Seq<char> {
    match property {
        Some(p) => p@,
        None => "text"@,
    }
}

/// `v`, or `d` when absent.
pub open spec fn or_default(v: Option<u32>, d: u32) -> nat {
    match v {
        Some(x) => x as nat,
        None => d as nat,
    }
}

/// The script that an operation runs.
pub open spec fn operation_script(op: Operation) -> Seq<char> {
    match op {
        Operation::Eval(r) => r.script@,
        Operation::Query(q) => query_script(json_quote(q.selector@), accessor_for(property_name(q.property))),
        Operation::Dom(d) => dom_script(
            or_default(d.depth, DEFAULT_DOM_DEPTH),
            or_default(d.max_nodes, DEFAULT_DOM_NODES),
            root_literal(d.selector),
        ),
        Operation::Inspect(i) => inspect_script(json_quote(i.selector@)),
        Operation::ValidateClasses(v) => validate_classes_script(json_array(texts(v.classes@))),
        Operation::Diagnose => DIAGNOSE_SCRIPT@,
        Operation::Resize(r) => returning(resize_sentinel(r.width as nat, r.height as nat)),
    }
}

/// The script that `op` runs on the UI side.
pub fn build_script(op: &Operation) -> (r: String)
    ensures
        r@ == operation_script(*op),
{
    match op {
        Operation::Eval(r) => r.script.clone(),
        Operation::Query(q) => {
            match &q.property {
                Some(p) => build_query_script(q.selector.as_str(), p.as_str()),
                None => build_query_script(q.selector.as_str(), "text"),
            }
        },
        Operation::Dom(d) => {
            let depth = match d.depth {
                Some(x) => x,
                None => DEFAULT_DOM_DEPTH,
            };
            let max_nodes = match d.max_nodes {
                Some(x) => x,
                None => DEFAULT_DOM_NODES,
            };
            build_dom_script(depth, max_nodes, &d.selector)
        },
        Operation::Inspect(i) => build_inspect_script(i.selector.as_str()),
        Operation::ValidateClasses(v) => build_validate_classes_script(&v.classes),
        Operation::Diagnose => build_diagnose_script(),
        Operation::Resize(r) => build_resize_script(r.width, r.height),
    }
}

/// Why an operation produced no outcome.
#[derive(Debug, PartialEq, Eq, Structural)]
pub enum RelayError {
    /// The UI side is gone; the command was never queued.
    Unavailable,
    /// The command was queued but its reply slot was dropped unanswered.
    ReplyLost,
}

/// The outcome once the wait for a reply has ended: the reply, or
/// `ReplyLost` when the slot was dropped unanswered.
pub fn reply_outcome(reply: Option<EvalResponse>) -> (r: Result<EvalResponse, RelayError>)
    ensures
        reply matches Some(v) ==> r == Ok::<EvalResponse, RelayError>(v),
        reply is None ==> r == Err::<EvalResponse, RelayError>(RelayError::ReplyLost),
{
    match reply {
        Some(v) => Ok(v),
        None => Err(RelayError::ReplyLost),
    }
}

/// HTTP status of a finished operation: 200 for every outcome, failed
/// scripts included; 503 when the relay is unavailable; 500 when the reply
/// was lost.
pub fn http_status<T>(outcome: &Result<T, RelayError>) -> (code: u16)
    ensures
        outcome is Ok ==> code == 200,
        *outcome == Err::<T, RelayError>(RelayError::Unavailable) ==> code == 503,
        *outcome == Err::<T, RelayError>(RelayError::ReplyLost) ==> code == 500,
{
    match outcome {
        Ok(_) => 200,
        Err(RelayError::Unavailable) => 503,
        Err(RelayError::ReplyLost) => 500,
    }
}

/// The resize envelope for the UI side's answer: it echoes the requested
/// size, succeeds when the answer does, and carries the answer's error
/// otherwise.
pub fn resize_response(req: &ResizeRequest, outcome: EvalResponse) -> (r: ResizeResponse)
    ensures
        r.success == outcome.success,
        r.width == req.width,
        r.height == req.height,
        r.error == (if outcome.success { None } else { outcome.error }),
{
    if outcome.success {
        ResizeResponse { success: true, width: req.width, height: req.height, error: None }
    } else {
        ResizeResponse { success: false, width: req.width, height: req.height, error: outcome.error }
    }
}

/// The status report, answered without the UI side.
pub fn status_response(app: &str, pid: u32, uptime_secs: u64) -> (r: StatusResponse)
    ensures
        r.status@ == "ok"@,
        r.app@ == app@,
        r.pid == pid,
        r.uptime_secs == uptime_secs,
        r.uptime_human@ == uptime_text(uptime_secs as nat),
{
    StatusResponse {
        status: String::from_str("ok"),
        app: String::from_str(app),
        pid,
        uptime_secs,
        uptime_human: format_uptime(uptime_secs),
    }
}

/// Where a screenshot goes when the request names no path.
pub const DEFAULT_SCREENSHOT_PATH: &'static str = "/tmp/dioxus-screenshot.png";

/// The path a screenshot request writes to.
pub fn screenshot_path(req: &ScreenshotRequest) -> (r: String)
    ensures
        r@ == (match req.path {
            Some(p) => p@,
            None => DEFAULT_SCREENSHOT_PATH@,
        }),
{
    match &req.path {
        Some(p) => p.clone(),
        None => String::from_str(DEFAULT_SCREENSHOT_PATH),
    }
}

/// The screenshot envelope: the path on success, the capture's message on
/// failure.
pub fn screenshot_response(path: String, outcome: Result<(), String>) -> (r: ScreenshotResponse)
    ensures
        r.success == outcome is Ok,
        outcome is Ok ==> r.path == Some(path) && r.error is None,
        outcome matches Err(e) ==> r.path is None && r.error == Some(e),
{
    match outcome {
        Ok(()) => ScreenshotResponse { success: true, path: Some(path), error: None },
        Err(e) => ScreenshotResponse { success: false, path: None, error: Some(e) },
    }
}

} // verus!

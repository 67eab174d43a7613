//! Request and response records exchanged with debugging clients.
use vstd::prelude::*;

verus! {

/// Request to evaluate a script in the webview.
pub struct EvalRequest {
    /// The script to run; it should `return` a value.
    pub script: String,
}

/// Outcome of one script evaluation.
///
/// Exactly one of `result` and `error` is present: `result` when `success`
/// holds, `error` otherwise (see [`EvalResponse::well_formed`]).
#[derive(Clone, Debug)]
pub struct EvalResponse {
    /// Whether the evaluation succeeded.
    pub success: bool,
    /// The value produced by the script, on success.
    pub result: Option<String>,
    /// The error message, on failure.
    pub error: Option<String>,
}

impl EvalResponse {
    /// The tagged-outcome invariant: a success carries a result and no error,
    /// a failure carries an error and no result.
    pub open spec fn well_formed(&self) -> bool {
        if self.success {
            self.result is Some && self.error is None
        } else {
            self.result is None && self.error is Some
        }
    }

    /// A successful outcome carrying `result`.
    pub fn success(result: &str) -> (r: Self)
        ensures
            r.success,
            r.result matches Some(v) && v@ == result@,
            r.error is None,
            r.well_formed(),
    {
        EvalResponse { success: true, result: Some(String::from_str(result)), error: None }
    }

    /// A failed outcome carrying `message`.
    pub fn error(message: &str) -> (r: Self)
        ensures
            !r.success,
            r.result is None,
            r.error matches Some(v) && v@ == message@,
            r.well_formed(),
    {
        EvalResponse { success: false, result: None, error: Some(String::from_str(message)) }
    }
}

/// Request to read one property of the first element matching a selector.
pub struct QueryRequest {
    /// CSS selector of the element.
    pub selector: String,
    /// Property to read; `None` means `"text"`.
    pub property: Option<String>,
}

/// Health report answered locally, without the UI thread.
pub struct StatusResponse {
    /// Always `"ok"`.
    pub status: String,
    /// The application name given at start-up.
    pub app: String,
    /// Process id of the application.
    pub pid: u32,
    /// Seconds since the bridge started.
    pub uptime_secs: u64,
    /// The same duration in words, such as `"2m 5s"`.
    pub uptime_human: String,
}

/// Request for visibility diagnostics of one element.
pub struct InspectRequest {
    /// CSS selector of the element.
    pub selector: String,
}

/// Request to check which CSS classes the loaded stylesheets define.
pub struct ValidateClassesRequest {
    /// Class names to check.
    pub classes: Vec<String>,
}

/// Request for a window screenshot.
pub struct ScreenshotRequest {
    /// Where to write the image; `None` means the default path.
    pub path: Option<String>,
}

impl Default for ScreenshotRequest {
    fn default() -> (r: Self)
        ensures
            r.path is None,
    {
        ScreenshotRequest { path: None }
    }
}

/// Outcome of a screenshot request.
pub struct ScreenshotResponse {
    /// Whether the image was written.
    pub success: bool,
    /// Where it was written, on success.
    pub path: Option<String>,
    /// Why it was not, on failure.
    pub error: Option<String>,
}

/// Request to resize the application window.
pub struct ResizeRequest {
    /// Target width in pixels.
    pub width: u32,
    /// Target height in pixels.
    pub height: u32,
}

/// Outcome of a resize request.
pub struct ResizeResponse {
    /// Whether the UI side applied the resize.
    pub success: bool,
    /// The requested width.
    pub width: u32,
    /// The requested height.
    pub height: u32,
    /// Why the resize failed, on failure.
    pub error: Option<String>,
}

} // verus!

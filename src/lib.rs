//! HTTP debugging bridge for desktop webview applications.
//!
//! A debugging client asks for an operation (evaluate a script, query an
//! element, walk the DOM, ...); the bridge turns it into a script, hands the
//! script to the application's UI thread through a bounded relay, and returns
//! the outcome that the UI thread sends back.
pub mod json;
pub mod relay;
pub mod router;
pub mod script;
pub mod screenshot;
pub mod sentinel;
pub mod text;
pub mod tools;
pub mod types;

pub use json::{json_string_array, json_string_literal};
pub use relay::{
    new_command, settle_attempt, Enqueue, EvalCommand, Relay, ReplyError, ReplySlot, SendAttempt,
    MAX_RELAY_CAPACITY, RELAY_CAPACITY,
};
pub use router::{
    build_script, http_status, reply_outcome, resize_response, screenshot_path,
    screenshot_response, status_response, DomQuery, Operation, RelayError,
    DEFAULT_SCREENSHOT_PATH,
};
pub use script::{
    build_diagnose_script, build_dom_script, build_inspect_script, build_query_script,
    build_resize_script, build_validate_classes_script, resize_sentinel_text, same_text,
    QueryProperty, DEFAULT_DOM_DEPTH, DEFAULT_DOM_NODES,
};
pub use screenshot::{capture_screenshot, CAPTURE_UNSUPPORTED};
pub use sentinel::parse_resize_sentinel;
pub use text::{decimal_string, format_uptime};
pub use tools::{
    build_click_script, build_query_all_script, build_type_text_script, connected_message,
    extract_result, method_not_found_message, missing_argument_message, resize_message,
    screenshot_message, unavailable_message, unknown_tool_message, RpcMethod, Tool,
    METHOD_NOT_FOUND, TOOL_FAILED,
};
pub use types::{
    EvalRequest, EvalResponse, InspectRequest, QueryRequest, ResizeRequest, ResizeResponse,
    ScreenshotRequest, ScreenshotResponse, StatusResponse, ValidateClassesRequest,
};

//! Decisions of the tool front end: which tool or protocol method a request
//! names, the scripts of the tools that run their own, and the text each
//! tool call answers with.
use vstd::prelude::*;
use crate::json::{json_quote, json_string_literal};
use crate::script::same_text;
use crate::text::{decimal, decimal_string};
use crate::types::{EvalResponse, ResizeResponse, ScreenshotResponse};

verus! {

/// A tool that the front end offers.
#[derive(Debug, PartialEq, Eq, Structural)]
pub enum Tool {
    /// Whether the bridge answers.
    Status,
    /// The simplified DOM tree.
    GetDom,
    /// Text of an element.
    QueryText,
    /// Inner markup of an element.
    QueryHtml,
    /// Every element matching a selector.
    QueryAll,
    /// Click an element.
    Click,
    /// Type text into an input.
    TypeText,
    /// Run a script.
    Eval,
    /// Visibility diagnostics of an element.
    Inspect,
    /// The health probe.
    Diagnose,
    /// Capture the window.
    Screenshot,
    /// Resize the window.
    Resize,
}

/// The tool of the given name, if there is one.
pub open spec fn tool_named(name: Seq<char>) -> Option<Tool> {
    if name == "status"@ {
        Some(Tool::Status)
    } else if name == "get_dom"@ {
        Some(Tool::GetDom)
    } else if name == "query_text"@ {
        Some(Tool::QueryText)
    } else if name == "query_html"@ {
        Some(Tool::QueryHtml)
    } else if name == "query_all"@ {
        Some(Tool::QueryAll)
    } else if name == "click"@ {
        Some(Tool::Click)
    } else if name == "type_text"@ {
        Some(Tool::TypeText)
    } else if name == "eval"@ {
        Some(Tool::Eval)
    } else if name == "inspect"@ {
        Some(Tool::Inspect)
    } else if name == "diagnose"@ {
        Some(Tool::Diagnose)
    } else if name == "screenshot"@ {
        Some(Tool::Screenshot)
    } else if name == "resize"@ {
        Some(Tool::Resize)
    } else {
        None
    }
}

impl Tool {
    /// The tool a client names, if there is one.
    pub fn from_name(name: &str) -> (r: Option<Tool>)
        ensures
            r == tool_named(name@),
    {
        if same_text(name, "status") {
            Some(Tool::Status)
        } else if same_text(name, "get_dom") {
            Some(Tool::GetDom)
        } else if same_text(name, "query_text") {
            Some(Tool::QueryText)
        } else if same_text(name, "query_html") {
            Some(Tool::QueryHtml)
        } else if same_text(name, "query_all") {
            Some(Tool::QueryAll)
        } else if same_text(name, "click") {
            Some(Tool::Click)
        } else if same_text(name, "type_text") {
            Some(Tool::TypeText)
        } else if same_text(name, "eval") {
            Some(Tool::Eval)
        } else if same_text(name, "inspect") {
            Some(Tool::Inspect)
        } else if same_text(name, "diagnose") {
            Some(Tool::Diagnose)
        } else if same_text(name, "screenshot") {
            Some(Tool::Screenshot)
        } else if same_text(name, "resize") {
            Some(Tool::Resize)
        } else {
            None
        }
    }
}

/// A method of the remote-procedure protocol that the front end answers.
#[derive(Debug, PartialEq, Eq, Structural)]
pub enum RpcMethod {
    /// Handshake.
    Initialize,
    /// Handshake acknowledgement.
    Initialized,
    /// List the tools.
    ToolsList,
    /// Call a tool.
    ToolsCall,
}

/// The protocol method of the given name, if the front end answers it.
pub open spec fn rpc_method_named(name: Seq<char>) -> Option<RpcMethod> {
    if name == "initialize"@ {
        Some(RpcMethod::Initialize)
    } else if name == "initialized"@ {
        Some(RpcMethod::Initialized)
    } else if name == "tools/list"@ {
        Some(RpcMethod::ToolsList)
    } else if name == "tools/call"@ {
        Some(RpcMethod::ToolsCall)
    } else {
        None
    }
}

impl RpcMethod {
    /// The protocol method a request names, if the front end answers it.
    pub fn from_name(name: &str) -> (r: Option<RpcMethod>)
        ensures
            r == rpc_method_named(name@),
    {
        if same_text(name, "initialize") {
            Some(RpcMethod::Initialize)
        } else if same_text(name, "initialized") {
            Some(RpcMethod::Initialized)
        } else if same_text(name, "tools/list") {
            Some(RpcMethod::ToolsList)
        } else if same_text(name, "tools/call") {
            Some(RpcMethod::ToolsCall)
        } else {
            None
        }
    }
}

/// Protocol error code of a failed tool call.
pub const TOOL_FAILED: i32 = -32000;

/// Protocol error code of an unknown method.
pub const METHOD_NOT_FOUND: i32 = -32601;

/// `prefix`, then `middle`, then `suffix`.
fn framed(prefix: &str, middle: &str, suffix: &str) -> (r: String)
    ensures
        r@ == prefix@ + middle@ + suffix@,
{
    let mut r = String::from_str(prefix);
    r.append(middle);
    r.append(suffix);
    r
}

/// `prefix`, then `rest`.
fn prefixed(prefix: &str, rest: &str) -> (r: String)
    ensures
        r@ == prefix@ + rest@,
{
    let mut r = String::from_str(prefix);
    r.append(rest);
    r
}

/// Message for a method the front end does not answer.
pub fn method_not_found_message(method: &str) -> (r: String)
    ensures
        r@ == "Method not found: "@ + method@,
{
    prefixed("Method not found: ", method)
}

/// Message for a tool name that names no tool.
pub fn unknown_tool_message(name: &str) -> (r: String)
    ensures
        r@ == "Unknown tool: "@ + name@,
{
    prefixed("Unknown tool: ", name)
}

/// Message for a required tool argument that is absent or of the wrong type.
pub fn missing_argument_message(key: &str) -> (r: String)
    ensures
        r@ == "Missing '"@ + key@ + "' argument"@,
{
    framed("Missing '", key, "' argument")
}

/// Answer of the status tool when the bridge answered.
pub fn connected_message(app: &str, status: &str) -> (r: String)
    ensures
        r@ == "Connected: "@ + app@ + " ("@ + status@ + ")"@,
{
    let mut r = framed("Connected: ", app, " (");
    r.append(status);
    r.append(")");
    r
}

/// Answer of the status tool when the bridge could not be reached; this is
/// an answer, not an error.
pub fn unavailable_message(reason: &str) -> (r: String)
    ensures
        r@ == "Bridge not available: "@ + reason@ + ". Start app with inspector enabled."@,
{
    framed("Bridge not available: ", reason, ". Start app with inspector enabled.")
}

/// The text of an evaluation outcome: its result (`"null"` when it has
/// none) on success, its error (`"Unknown error"` when it has none) on
/// failure.
pub fn extract_result(resp: EvalResponse) -> (r: Result<String, String>)
    ensures
        resp.success ==> r is Ok && r->Ok_0@ == (match resp.result {
            Some(v) => v@,
            None => "null"@,
        }),
        !resp.success ==> r is Err && r->Err_0@ == (match resp.error {
            Some(e) => e@,
            None => "Unknown error"@,
        }),
{
    if resp.success {
        match resp.result {
            Some(v) => Ok(v),
            None => Ok(String::from_str("null")),
        }
    } else {
        match resp.error {
            Some(e) => Err(e),
            None => Err(String::from_str("Unknown error")),
        }
    }
}

/// The text of a screenshot outcome.
pub fn screenshot_message(resp: ScreenshotResponse) -> (r: Result<String, String>)
    ensures
        resp.success ==> r is Ok && r->Ok_0@ == "Screenshot saved: "@ + (match resp.path {
            Some(p) => p@,
            None => Seq::<char>::empty(),
        }),
        !resp.success ==> r is Err && r->Err_0@ == (match resp.error {
            Some(e) => e@,
            None => "Unknown error"@,
        }),
{
    if resp.success {
        match resp.path {
            Some(p) => Ok(prefixed("Screenshot saved: ", p.as_str())),
            None => {
                let r = String::from_str("Screenshot saved: ");
                assert(r@ =~= "Screenshot saved: "@ + Seq::<char>::empty());
                Ok(r)
            },
        }
    } else {
        match resp.error {
            Some(e) => Err(e),
            None => Err(String::from_str("Unknown error")),
        }
    }
}

/// The text of a resize outcome.
pub fn resize_message(resp: ResizeResponse) -> (r: Result<String, String>)
    ensures
        resp.success ==> r is Ok && r->Ok_0@ == "Window resized to "@ + decimal(resp.width as nat) + "x"@
            + decimal(resp.height as nat),
        !resp.success ==> r is Err && r->Err_0@ == (match resp.error {
            Some(e) => e@,
            None => "Unknown error"@,
        }),
{
    if resp.success {
        let w = decimal_string(resp.width as u64);
        let h = decimal_string(resp.height as u64);
        let mut r = framed("Window resized to ", w.as_str(), "x");
        r.append(h.as_str());
        Ok(r)
    } else {
        match resp.error {
            Some(e) => Err(e),
            None => Err(String::from_str("Unknown error")),
        }
    }
}

/// Script that lists every element matching the selector literal `lit`.
pub open spec fn query_all_script(lit: Seq<char>) -> Seq<char> {
    "return (() => {\n    const els = document.querySelectorAll("@ + lit
        + ");\n    return JSON.stringify(Array.from(els).map((el, i) => ({\n        index: i,\n        tag: el.tagName.toLowerCase(),\n        id: el.id || null,\n        class: el.className || null,\n        text: el.textContent?.trim().substring(0, 100) || null\n    })));\n})()"@
}

/// Script that lists index, tag, id, class and text of every element
/// matching `selector`.
pub fn build_query_all_script(selector: &str) -> (r: String)
    ensures
        r@ == query_all_script(json_quote(selector@)),
{
    let lit = json_string_literal(selector);
    framed(
        "return (() => {\n    const els = document.querySelectorAll(",
        lit.as_str(),
        ");\n    return JSON.stringify(Array.from(els).map((el, i) => ({\n        index: i,\n        tag: el.tagName.toLowerCase(),\n        id: el.id || null,\n        class: el.className || null,\n        text: el.textContent?.trim().substring(0, 100) || null\n    })));\n})()",
    )
}

/// Script that clicks the first element matching the selector literal `lit`.
pub open spec fn click_script(lit: Seq<char>) -> Seq<char> {
    "return (() => {\n    const el = document.querySelector("@ + lit
        + ");\n    if (el) { el.click(); return 'clicked'; }\n    return 'element not found';\n})()"@
}

/// Script that clicks the first element matching `selector`.
pub fn build_click_script(selector: &str) -> (r: String)
    ensures
        r@ == click_script(json_quote(selector@)),
{
    let lit = json_string_literal(selector);
    framed(
        "return (() => {\n    const el = document.querySelector(",
        lit.as_str(),
        ");\n    if (el) { el.click(); return 'clicked'; }\n    return 'element not found';\n})()",
    )
}

/// Script that sets the value of the first element matching the selector
/// literal `lit` to the text literal `text` and signals an input event.
pub open spec fn type_text_script(lit: Seq<char>, text: Seq<char>) -> Seq<char> {
    "return (() => {\n    const el = document.querySelector("@ + lit + ");\n    if (el) {\n        el.value = "@
        + text
        + ";\n        el.dispatchEvent(new Event('input', { bubbles: true }));\n        return 'typed';\n    }\n    return 'element not found';\n})()"@
}

/// Script that types `text` into the first element matching `selector`.
pub fn build_type_text_script(selector: &str, text: &str) -> (r: String)
    ensures
        r@ == type_text_script(json_quote(selector@), json_quote(text@)),
{
    let lit = json_string_literal(selector);
    let value = json_string_literal(text);
    let mut r = framed(
        "return (() => {\n    const el = document.querySelector(",
        lit.as_str(),
        ");\n    if (el) {\n        el.value = ",
    );
    r.append(value.as_str());
    r.append(
        ";\n        el.dispatchEvent(new Event('input', { bubbles: true }));\n        return 'typed';\n    }\n    return 'element not found';\n})()",
    );
    r
}

} // verus!

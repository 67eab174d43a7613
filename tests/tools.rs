use dioxus_inspector::{
    build_click_script, build_query_all_script, build_type_text_script, connected_message,
    extract_result, method_not_found_message, missing_argument_message, resize_message,
    screenshot_message, unavailable_message, unknown_tool_message, EvalResponse,
    ResizeResponse, RpcMethod, ScreenshotResponse, Tool,
};

#[test]
fn test_extract_result_success() {
    let resp = EvalResponse { success: true, result: Some("42".to_string()), error: None };
    let result = extract_result(resp).unwrap();
    assert_eq!(result, "42");
}

#[test]
fn test_extract_result_error() {
    let resp = EvalResponse { success: false, result: None, error: Some("failed".to_string()) };
    let result = extract_result(resp);
    assert!(result.is_err());
}

#[test]
fn extract_result_defaults() {
    let resp = EvalResponse { success: true, result: None, error: None };
    assert_eq!(extract_result(resp), Ok("null".to_string()));
    let resp = EvalResponse { success: false, result: None, error: None };
    assert_eq!(extract_result(resp), Err("Unknown error".to_string()));
    let resp = EvalResponse { success: false, result: None, error: Some("failed".to_string()) };
    assert_eq!(extract_result(resp), Err("failed".to_string()));
}

#[test]
fn tool_names() {
    assert_eq!(Tool::from_name("status"), Some(Tool::Status));
    assert_eq!(Tool::from_name("get_dom"), Some(Tool::GetDom));
    assert_eq!(Tool::from_name("query_text"), Some(Tool::QueryText));
    assert_eq!(Tool::from_name("query_html"), Some(Tool::QueryHtml));
    assert_eq!(Tool::from_name("query_all"), Some(Tool::QueryAll));
    assert_eq!(Tool::from_name("click"), Some(Tool::Click));
    assert_eq!(Tool::from_name("type_text"), Some(Tool::TypeText));
    assert_eq!(Tool::from_name("eval"), Some(Tool::Eval));
    assert_eq!(Tool::from_name("inspect"), Some(Tool::Inspect));
    assert_eq!(Tool::from_name("diagnose"), Some(Tool::Diagnose));
    assert_eq!(Tool::from_name("screenshot"), Some(Tool::Screenshot));
    assert_eq!(Tool::from_name("resize"), Some(Tool::Resize));
    assert_eq!(Tool::from_name("Status"), None);
    assert_eq!(Tool::from_name(""), None);
}

#[test]
fn rpc_method_names() {
    assert_eq!(RpcMethod::from_name("initialize"), Some(RpcMethod::Initialize));
    assert_eq!(RpcMethod::from_name("initialized"), Some(RpcMethod::Initialized));
    assert_eq!(RpcMethod::from_name("tools/list"), Some(RpcMethod::ToolsList));
    assert_eq!(RpcMethod::from_name("tools/call"), Some(RpcMethod::ToolsCall));
    assert_eq!(RpcMethod::from_name("tools/other"), None);
}

#[test]
fn front_end_messages() {
    assert_eq!(method_not_found_message("ping"), "Method not found: ping");
    assert_eq!(unknown_tool_message("fly"), "Unknown tool: fly");
    assert_eq!(missing_argument_message("selector"), "Missing 'selector' argument");
    assert_eq!(connected_message("my-app", "ok"), "Connected: my-app (ok)");
    assert_eq!(
        unavailable_message("connection refused"),
        "Bridge not available: connection refused. Start app with inspector enabled."
    );
}

#[test]
fn screenshot_and_resize_messages() {
    let ok = ScreenshotResponse { success: true, path: Some("/tmp/a.png".to_string()), error: None };
    assert_eq!(screenshot_message(ok), Ok("Screenshot saved: /tmp/a.png".to_string()));
    let ok = ScreenshotResponse { success: true, path: None, error: None };
    assert_eq!(screenshot_message(ok), Ok("Screenshot saved: ".to_string()));
    let failed = ScreenshotResponse { success: false, path: None, error: None };
    assert_eq!(screenshot_message(failed), Err("Unknown error".to_string()));
    let ok = ResizeResponse { success: true, width: 1024, height: 768, error: None };
    assert_eq!(resize_message(ok), Ok("Window resized to 1024x768".to_string()));
    let failed = ResizeResponse {
        success: false,
        width: 1024,
        height: 768,
        error: Some("Window not found".to_string()),
    };
    assert_eq!(resize_message(failed), Err("Window not found".to_string()));
}

#[test]
fn front_end_scripts_embed_literals() {
    let all = build_query_all_script("li.item");
    assert!(all.contains("document.querySelectorAll(\"li.item\")"));
    let click = build_click_script("#go");
    assert!(click.contains("document.querySelector(\"#go\")"));
    assert!(click.contains("el.click()"));
    let typed = build_type_text_script("#name", "say \"hi\"");
    assert!(typed.contains("document.querySelector(\"#name\")"));
    assert!(typed.contains("el.value = \"say \\\"hi\\\"\";"));
}

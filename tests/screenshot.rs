use dioxus_inspector::{capture_screenshot, screenshot_path, screenshot_response, ScreenshotRequest};

#[test]
fn test_capture_unsupported() {
    let result = capture_screenshot("test", "/tmp/test.png");
    assert!(result.is_err());
    assert!(result.unwrap_err().contains("only supported on macOS"));
}

#[test]
fn screenshot_default_path() {
    let req = ScreenshotRequest { path: None };
    assert_eq!(screenshot_path(&req), "/tmp/dioxus-screenshot.png");
    let req = ScreenshotRequest { path: Some("/tmp/a.png".to_string()) };
    assert_eq!(screenshot_path(&req), "/tmp/a.png");
}

#[test]
fn screenshot_envelopes() {
    let ok = screenshot_response("/tmp/a.png".to_string(), Ok(()));
    assert!(ok.success);
    assert_eq!(ok.path, Some("/tmp/a.png".to_string()));
    assert!(ok.error.is_none());
    let failed = screenshot_response("/tmp/a.png".to_string(), Err("no window".to_string()));
    assert!(!failed.success);
    assert!(failed.path.is_none());
    assert_eq!(failed.error, Some("no window".to_string()));
}

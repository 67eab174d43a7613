//! Window screenshot entry point.
use vstd::prelude::*;

verus! {

/// Message of a capture on a platform without window capture.
pub const CAPTURE_UNSUPPORTED: &'static str = "Screenshot capture only supported on macOS";

/// Capture the window of `app_name` into `output_path`.
///
/// Window capture goes through the macOS window server; this build has no
/// such capture and always reports that it is unsupported.
pub fn capture_screenshot(app_name: &str, output_path: &str) -> (r: Result<(), String>)
    ensures
        r is Err,
        r->Err_0@ == CAPTURE_UNSUPPORTED@,
{
    Err(String::from_str(CAPTURE_UNSUPPORTED))
}

} // verus!

//! The macOS back end on any other system: every call fails and says that
//! wrec records on macOS only.

use vstd::prelude::*;
use crate::settings::{CaptureTarget, RecorderError, RecorderSettings, RecordingSession, ScreenRecordingPermissionStatus};

verus! {

/// The error of the macOS back end elsewhere.
pub open spec fn is_macos_only(e: RecorderError) -> bool {
    e matches RecorderError::Backend(m) && m@ == "wrec only supports macOS"@
}

fn macos_only() -> (r: RecorderError)
    ensures
        is_macos_only(r),
{
    RecorderError::Backend("wrec only supports macOS".to_string())
}

/// The permission status cannot be read.
pub fn screen_recording_permission_status() -> (r: Result<ScreenRecordingPermissionStatus, RecorderError>)
    ensures
        r matches Err(e) && is_macos_only(e),
{
    Err(macos_only())
}

/// The permission cannot be requested.
pub fn request_screen_recording_permission() -> (r: Result<ScreenRecordingPermissionStatus, RecorderError>)
    ensures
        r matches Err(e) && is_macos_only(e),
{
    Err(macos_only())
}

/// No targets can be listed.
pub fn list_targets() -> (r: Result<Vec<CaptureTarget>, RecorderError>)
    ensures
        r matches Err(e) && is_macos_only(e),
{
    Err(macos_only())
}

/// No recording can start.
pub fn start_recording(session_id: u64, target: CaptureTarget, settings: RecorderSettings, output_path: String) -> (r: Result<RecordingSession, RecorderError>)
    ensures
        r matches Err(e) && is_macos_only(e),
{
    Err(macos_only())
}

/// No recording can be stopped.
pub fn stop_recording() -> (r: Result<(), RecorderError>)
    ensures
        r matches Err(e) && is_macos_only(e),
{
    Err(macos_only())
}

} // verus!

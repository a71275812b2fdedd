//! The Windows back end on any other system: every call fails and says
//! that the Windows recorder records on Windows only.

use vstd::prelude::*;
use crate::settings::{CaptureTarget, RecorderError, RecorderSettings, RecordingSession};

verus! {

/// The error of the Windows back end elsewhere.
pub open spec fn is_windows_only(e: RecorderError) -> bool {
    e matches RecorderError::Backend(m) && m@ == "wrec Windows recorder only supports Windows"@
}

fn windows_only() -> (r: RecorderError)
    ensures
        is_windows_only(r),
{
    RecorderError::Backend("wrec Windows recorder only supports Windows".to_string())
}

/// No targets can be listed.
pub fn list_targets() -> (r: Result<Vec<CaptureTarget>, RecorderError>)
    ensures
        r matches Err(e) && is_windows_only(e),
{
    Err(windows_only())
}

/// No recording can start.
pub fn start_recording(session_id: u64, target: CaptureTarget, settings: RecorderSettings, output_path: String) -> (r: Result<RecordingSession, RecorderError>)
    ensures
        r matches Err(e) && is_windows_only(e),
{
    Err(windows_only())
}

/// No recording can be stopped.
pub fn stop_recording() -> (r: Result<(), RecorderError>)
    ensures
        r matches Err(e) && is_windows_only(e),
{
    Err(windows_only())
}

/// No recording can be paused.
pub fn pause_recording() -> (r: Result<(), RecorderError>)
    ensures
        r matches Err(e) && is_windows_only(e),
{
    Err(windows_only())
}

/// No recording can be resumed.
pub fn resume_recording() -> (r: Result<(), RecorderError>)
    ensures
        r matches Err(e) && is_windows_only(e),
{
    Err(windows_only())
}

} // verus!

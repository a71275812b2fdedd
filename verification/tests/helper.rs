use wrec::helper::{settle_stop, StopWait};
use wrec::helper::{start_cleanup, start_error, StartWait};
use wrec::helper::{
    is_permission_error, line_is_failure, line_is_recording_started, parse_permission_output, HelperExit, HelperKind,
    StartupSignal, StderrWatch,
};
use wrec::settings::{RecorderError, RecorderEvent, ScreenRecordingPermissionStatus};

#[test]
fn helper_lines_are_classified() {
    let mac = HelperKind::MacosHelper;
    let engine = HelperKind::CaptureEngine;
    assert!(line_is_recording_started(mac, &"wrec-helper: recording started native=1x1".to_string()));
    assert!(!line_is_recording_started(engine, &"wrec-helper: recording started".to_string()));
    assert!(line_is_failure(mac, &"wrec-helper: error: boom".to_string()));
    assert!(line_is_failure(engine, &"capture-engine: unsupported os".to_string()));
    assert!(line_is_failure(mac, &"permission denied".to_string()));
    assert!(!line_is_failure(engine, &"permission denied".to_string()));
    assert!(is_permission_error(&"Screen Recording access was refused".to_string()));
}

#[test]
fn permission_output_is_read() {
    assert_eq!(parse_permission_output(&" granted\n".to_string()), Ok(ScreenRecordingPermissionStatus::Granted));
    assert_eq!(parse_permission_output(&"missing".to_string()), Ok(ScreenRecordingPermissionStatus::Missing));
    assert_eq!(
        parse_permission_output(&"maybe".to_string()),
        Err(RecorderError::Backend("unknown screen recording permission status: maybe".to_string()))
    );
}

#[test]
fn startup_is_signalled_once_and_failures_after_start_are_reported() {
    let mut watch = StderrWatch::new(HelperKind::MacosHelper, 5);
    let (signal, event) = watch.on_line("wrec-helper: recording started".to_string());
    assert!(matches!(signal, Some(StartupSignal::Started)));
    assert!(matches!(event, RecorderEvent::Log { session_id: Some(5), .. }));

    let (signal, _) = watch.on_line("wrec-helper: recording started".to_string());
    assert!(signal.is_none());

    let (signal, event) = watch.on_line("wrec-helper: error: disk full".to_string());
    assert!(signal.is_none());
    assert!(matches!(event, RecorderEvent::Failed { session_id: Some(5), .. }));

    let (signal, event) = watch.on_close(HelperExit::Exited { success: false, status: "exit status: 1".to_string() });
    assert!(signal.is_none());
    assert!(matches!(event, Some(RecorderEvent::Exited { session_id: 5, success: false, .. })));
}

#[test]
fn helper_that_dies_before_starting_reports_its_first_failure() {
    let mut watch = StderrWatch::new(HelperKind::CaptureEngine, 9);
    let (_, event) = watch.on_line("capture-engine: error: no display 3".to_string());
    assert!(matches!(event, RecorderEvent::Log { .. }));
    watch.on_line("later noise".to_string());
    let (signal, event) = watch.on_close(HelperExit::Exited { success: false, status: "1".to_string() });
    match signal {
        Some(StartupSignal::Failed(message)) => assert_eq!(message, "capture-engine: error: no display 3"),
        _ => panic!("expected a failed start"),
    }
    assert!(event.is_none());
}

#[test]
fn closed_stream_without_exit_fails_the_start() {
    let mut watch = StderrWatch::new(HelperKind::CaptureEngine, 1);
    match watch.on_close(HelperExit::Unknown).0 {
        Some(StartupSignal::Failed(message)) => assert_eq!(message, "capture engine stderr closed before recording started"),
        _ => panic!("expected a failed start"),
    }
    let mut watch = StderrWatch::new(HelperKind::MacosHelper, 1);
    match watch.on_close(HelperExit::Exited { success: true, status: "exit status: 0".to_string() }).0 {
        Some(StartupSignal::Failed(message)) => {
            assert_eq!(message, "helper exited before recording started: exit status: 0")
        }
        _ => panic!("expected a failed start"),
    }
}

#[test]
fn unconfirmed_starts_are_cleaned_up_and_reported() {
    let started = StartWait::Signalled(StartupSignal::Started);
    let c = start_cleanup(HelperKind::CaptureEngine, &started);
    assert!(!c.kill_helper && !c.remove_output);
    assert!(start_error(HelperKind::CaptureEngine, started, &String::new()).is_none());

    let failed = StartWait::Signalled(StartupSignal::Failed("no display 3".to_string()));
    let c = start_cleanup(HelperKind::MacosHelper, &failed);
    assert!(!c.kill_helper && c.remove_output);
    assert_eq!(
        start_error(HelperKind::MacosHelper, failed, &String::new()),
        Some(RecorderError::Backend("recording helper failed to start: no display 3".to_string()))
    );

    let c = start_cleanup(HelperKind::CaptureEngine, &StartWait::Closed);
    assert!(c.kill_helper && c.remove_output);
    assert_eq!(
        start_error(HelperKind::CaptureEngine, StartWait::TimedOut, &"; killed capture engine with exit code: 1".to_string()),
        Some(RecorderError::Backend(
            "capture engine did not report start within 5s; killed capture engine with exit code: 1".to_string()
        ))
    );
    assert_eq!(
        start_error(HelperKind::MacosHelper, StartWait::Closed, &String::new()),
        Some(RecorderError::Backend("recording helper startup channel closed before recording started".to_string()))
    );
}

#[test]
fn stopping_reports_how_the_helper_ended() {
    let (event, result) =
        settle_stop(HelperKind::CaptureEngine, 4, StopWait::Exited { success: true, status: "exit code: 0".to_string() });
    assert!(matches!(event, Some(RecorderEvent::Exited { session_id: 4, success: true, .. })));
    assert!(result.is_ok());

    let (event, result) =
        settle_stop(HelperKind::MacosHelper, 4, StopWait::Exited { success: false, status: "exit status: 2".to_string() });
    assert!(event.is_none());
    assert_eq!(result, Err(RecorderError::Backend("recording helper exited with exit status: 2".to_string())));

    let (event, result) = settle_stop(HelperKind::CaptureEngine, 4, StopWait::Killed("exit code: 1".to_string()));
    assert!(matches!(event, Some(RecorderEvent::Exited { success: false, .. })));
    assert_eq!(
        result,
        Err(RecorderError::Backend(
            "capture engine did not stop recording within 20s and was killed with exit code: 1".to_string()
        ))
    );

    let (event, result) = settle_stop(HelperKind::CaptureEngine, 4, StopWait::PollFailed("denied".to_string()));
    assert!(matches!(event, Some(RecorderEvent::Failed { session_id: Some(4), .. })));
    assert_eq!(result, Err(RecorderError::Backend("failed polling capture engine: denied".to_string())));

    let (_, result) = settle_stop(HelperKind::MacosHelper, 4, StopWait::KillFailed("gone".to_string()));
    assert_eq!(result, Err(RecorderError::Backend("failed killing stuck helper: gone".to_string())));
}

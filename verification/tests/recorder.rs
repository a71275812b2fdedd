use wrec::recorder::{
    capture_engine_candidates, capture_engine_not_found, helper_candidates, helper_not_found, mov_output_path,
};
use wrec::recorder::{capture_engine_args, helper_args};
use wrec::engine::parse_engine_args;
use wrec::recorder::{macos_targets, parse_target_list, windows_targets};
use wrec::settings::{Codec, FrameRate, Quality, Resolution};
use std::path::Path;
use wrec::recorder::{recording_output_path, windows_permission_status, RecorderCore, RecorderEngine, UnsupportedRecorder, UnsupportedRuntime};
use wrec::settings::{
    CaptureSourceKind, CaptureTarget, RecorderError, RecorderEvent, RecorderSettings, RecordingSession,
    ScreenRecordingPermissionStatus,
};
use wrec::store::now_ms;

fn default_settings() -> RecorderSettings {
    RecorderSettings::with_output_dir("/tmp/Wrec".to_string())
}

#[test]
fn new_recorder_does_not_own_an_active_session() {
    let recorder = RecorderCore::new();

    assert!(!recorder.owns_active_session());
}

#[test]
fn windows_output_uses_mp4_container_extension() {
    let settings = RecorderSettings { output_dir: "C:\\captures".to_string(), ..default_settings() };

    let path = recording_output_path(&settings, 42);
    assert_eq!(Path::new(&path).extension().and_then(|ext| ext.to_str()), Some("mp4"));
}

#[test]
fn recording_output_path_is_unique_per_session() {
    let settings = default_settings();

    assert_ne!(recording_output_path(&settings, 41), recording_output_path(&settings, 42));
}

#[test]
fn output_path_is_the_session_file_in_the_output_dir() {
    let settings = RecorderSettings { output_dir: "/tmp/captures".to_string(), ..default_settings() };
    assert_eq!(recording_output_path(&settings, 7), "/tmp/captures/wrec-7.mp4");
}

#[test]
fn started_session_becomes_active_until_stopped() {
    let mut core = RecorderCore::new();
    let (result, event) = core.after_start(3, Ok(RecordingSession { id: 3, output_path: "/tmp/x.mp4".to_string() }));
    assert!(result.is_ok());
    match event {
        RecorderEvent::Log { session_id, message } => {
            assert_eq!(session_id, Some(3));
            assert_eq!(message, "recording output: /tmp/x.mp4");
        }
        _ => panic!("expected a log line"),
    }
    assert!(core.owns_active_session());
    assert_eq!(core.active_id(), Some(3));

    let (result, event) = core.after_stop(Ok(()));
    assert!(result.is_ok());
    assert!(matches!(event, Some(RecorderEvent::Log { session_id: Some(3), .. })));
    assert!(!core.owns_active_session());
}

#[test]
fn failed_start_is_reported_and_leaves_no_session() {
    let mut core = RecorderCore::new();
    let (result, event) = core.after_start(9, Err(RecorderError::NoCaptureTarget));
    assert_eq!(result, Err(RecorderError::NoCaptureTarget));
    match event {
        RecorderEvent::Failed { session_id, message } => {
            assert_eq!(session_id, Some(9));
            assert_eq!(message, "no capture target selected");
        }
        _ => panic!("expected a failure"),
    }
    assert!(!core.owns_active_session());
}

#[test]
fn unsupported_platform_refuses_to_record() {
    let runtime = UnsupportedRuntime;
    let err = runtime.list_targets().unwrap_err();
    assert_eq!(err.code, "unsupported_platform");
    let mut engine: UnsupportedRecorder = runtime.new_engine();
    let target = CaptureTarget { id: 1, name: "Main".to_string(), kind: CaptureSourceKind::Display };
    let started = engine.start(target, default_settings());
    assert_eq!(started.unwrap_err(), RecorderError::Backend("wrec only supports macOS and Windows".to_string()));
    assert_eq!(windows_permission_status(), Ok(ScreenRecordingPermissionStatus::Granted));
}

#[test]
fn now_ms_returns_positive_timestamp() {
    assert!(now_ms() > 0);
}

#[test]
fn engine_arguments_read_back_what_was_sent() {

    let target = CaptureTarget { id: 12, name: "Notes".to_string(), kind: CaptureSourceKind::Window };
    let settings = RecorderSettings {
        fps: FrameRate::Fps60,
        codec: Codec::Hevc,
        quality: Quality::High,
        resolution: Resolution::R2k,
        include_cursor: false,
        include_system_audio: true,
        hide_wrec: false,
        ..default_settings()
    };
    let args = capture_engine_args(&"C:\\out\\wrec-1.mp4".to_string(), &target, &settings);
    assert_eq!(
        args,
        vec!["C:\\out\\wrec-1.mp4", "60", "false", "window", "12", "hevc", "high", "2k", "true", "false"]
    );
    assert_eq!(helper_args(&"/o.mov".to_string(), &target, &settings).len(), 8);

    let mut line = vec!["capture-engine".to_string()];
    line.extend(args);
    let parsed = parse_engine_args(&line, None).unwrap();
    assert_eq!(parsed.output_path, "C:\\out\\wrec-1.mp4");
    assert_eq!(parsed.fps, 60);
    assert!(!parsed.include_cursor);
    assert_eq!(parsed.target_kind, "window");
    assert_eq!(parsed.target_id, 12);
    assert_eq!(parsed.codec, "hevc");
    assert_eq!(parsed.quality, "high");
    assert_eq!(parsed.resolution, "2k");
    assert!(parsed.include_system_audio);
    assert!(!parsed.hide_wrec);
}

#[test]
fn target_listings_are_read_line_by_line() {
    let listed = parse_target_list(&"display\t0\tBuilt-in\r\nwindow\t42\tNotes\tDraft\nspace\t1\tX\nwindow\tx\tBad\ndisplay\t3\n\n".to_string());
    assert_eq!(
        listed,
        vec![
            CaptureTarget { id: 0, name: "Built-in".to_string(), kind: CaptureSourceKind::Display },
            CaptureTarget { id: 42, name: "Notes\tDraft".to_string(), kind: CaptureSourceKind::Window },
            CaptureTarget { id: 3, name: "Unknown".to_string(), kind: CaptureSourceKind::Display },
        ]
    );
    assert_eq!(windows_targets(listed.clone()).unwrap().len(), 3);
    assert_eq!(
        windows_targets(Vec::new()).unwrap_err(),
        RecorderError::Backend("Windows Graphics Capture did not return any displays or windows".to_string())
    );
    assert_eq!(
        macos_targets(Vec::new()),
        vec![CaptureTarget { id: 0, name: "Main Display".to_string(), kind: CaptureSourceKind::Display }]
    );
    assert_eq!(macos_targets(listed.clone()), listed);
}

#[test]
fn macos_recordings_are_named_by_their_start_second() {
    let settings = RecorderSettings { output_dir: "/Users/me/Movies".to_string(), ..default_settings() };
    assert_eq!(mov_output_path(&settings, 1_700_000_000), "/Users/me/Movies/wrec-1700000000.mov");
}

#[test]
fn capture_engine_is_looked_for_in_order() {
    let exe = Some("/w/target/debug/deps/daemon-1a".to_string());
    assert_eq!(
        capture_engine_candidates(Some("/opt/engine".to_string()), &exe, None, false),
        vec![
            "/opt/engine".to_string(),
            "/w/target/debug/deps/capture-engine".to_string(),
            "/w/target/debug/capture-engine".to_string(),
        ]
    );
    let exe = Some("/Apps/Wrec/daemon".to_string());
    assert_eq!(
        capture_engine_candidates(None, &exe, Some("/build/capture-engine".to_string()), true),
        vec![
            "/Apps/Wrec/capture-engine.exe".to_string(),
            "/build/capture-engine".to_string(),
            "/Apps/Wrec/capture-engine.exe".to_string(),
        ]
    );
    assert!(capture_engine_candidates(None, &None, None, false).is_empty());
    assert_eq!(
        capture_engine_not_found(true),
        RecorderError::Backend(
            "capture-engine.exe was not found next to the daemon executable or in Cargo build output".to_string()
        )
    );
}

#[test]
fn macos_helper_is_looked_for_in_order() {
    let exe = Some("/Applications/Wrec.app/Contents/MacOS/daemon".to_string());
    assert_eq!(
        helper_candidates(None, &exe, None),
        vec!["/Applications/Wrec.app/Contents/MacOS/wrec-helper".to_string()]
    );
    assert_eq!(helper_candidates(Some("/h".to_string()), &None, Some("/b".to_string())), vec!["/h".to_string(), "/b".to_string()]);
    assert_eq!(
        helper_not_found(),
        RecorderError::Backend("wrec-helper was not found next to the app executable or in Cargo build output".to_string())
    );
}

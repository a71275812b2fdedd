use wrec::backend::{
    build_settings, build_settings_report, parse_capture_dimensions, parse_target_key, recorder_event_source,
    resolve_target, selected_target_id, BackendEvent, RecordingOverrides, StoreWrite, WrecBackend,
};
use wrec::settings::{CaptureSourceKind, CaptureTarget, FrameRate, Quality, RecorderEvent, RecorderSettings, Resolution};
use wrec::store::{EventSource, RecordingStatus};

fn default_settings() -> RecorderSettings {
    RecorderSettings::with_output_dir("/tmp/Wrec".to_string())
}

fn chars(s: &str) -> Vec<char> {
    s.chars().collect()
}

fn display(id: u64, name: &str) -> CaptureTarget {
    CaptureTarget { id, name: name.to_string(), kind: CaptureSourceKind::Display }
}

#[test]
fn overrides_keep_saved_output_dir_by_default() {
    let saved = RecorderSettings { output_dir: "/tmp/chosen".to_string(), ..default_settings() };

    assert_eq!(build_settings(&saved, &RecordingOverrides::default()).output_dir, "/tmp/chosen".to_string());
}

#[test]
fn build_settings_enforces_preset_limits_for_cli_overrides() {
    let overrides = RecordingOverrides {
        quality: Some(Quality::Efficient),
        fps: Some(FrameRate::Fps60),
        resolution: Some(Resolution::Native),
        ..RecordingOverrides::default()
    };
    let settings = build_settings(&default_settings(), &overrides);

    assert_eq!(settings.quality, Quality::Efficient);
    assert_eq!(settings.fps, FrameRate::Fps30);
    assert_eq!(settings.resolution, Resolution::R720p);
}

#[test]
fn build_settings_report_describes_preset_limits() {
    let overrides = RecordingOverrides {
        quality: Some(Quality::Efficient),
        fps: Some(FrameRate::Fps60),
        resolution: Some(Resolution::Native),
        ..RecordingOverrides::default()
    };
    let (_, warning) = build_settings_report(&default_settings(), &overrides);

    assert_eq!(
        warning.as_deref(),
        Some(
            "preset limits applied: efficient caps fps 60 -> 30, resolution native -> 720p. Use --quality high to allow native/60 FPS."
        )
    );
}

#[test]
fn build_settings_report_is_silent_within_limits() {
    let (settings, warning) = build_settings_report(&default_settings(), &RecordingOverrides::default());
    assert_eq!(warning, None);
    assert_eq!(settings.resolution, Resolution::R1080p);
}

#[test]
fn explicit_target_beats_saved_target() {
    let targets = vec![display(1, "Saved"), display(2, "Explicit")];

    let target = resolve_target(&targets, CaptureSourceKind::Display, Some(2), Some(1)).unwrap();
    assert_eq!(target.id, 2);
}

#[test]
fn missing_explicit_target_error_is_actionable() {
    let err = resolve_target(&Vec::new(), CaptureSourceKind::Display, Some(99), None).unwrap_err();

    assert_eq!(
        err,
        "no display with id 99. Run `wrec targets --json` and pass one of the listed `display` ids."
    );
}

#[test]
fn no_target_of_kind_error_points_at_permission() {
    let err = resolve_target(&vec![display(1, "Main")], CaptureSourceKind::Window, None, None).unwrap_err();
    assert_eq!(
        err,
        "no window capture targets available. Run `wrec targets --json` to inspect targets; if it fails, grant Screen Recording permission."
    );
}

#[test]
fn parses_capture_dimensions_from_helper_log() {
    let dimensions =
        parse_capture_dimensions(&chars("wrec-helper: recording started native=3024x1964 size=1512x982")).unwrap();

    assert_eq!(dimensions.native_width, 3024);
    assert_eq!(dimensions.native_height, 1964);
    assert_eq!(dimensions.output_width, 1512);
    assert_eq!(dimensions.output_height, 982);
}

#[test]
fn capture_dimensions_need_both_sizes() {
    assert!(parse_capture_dimensions(&chars("wrec-helper: recording started native=3024x1964")).is_none());
    assert!(parse_capture_dimensions(&chars("size=1512x982 native=axb")).is_none());
}

#[test]
fn prior_failure_keeps_successful_exit_failed() {
    let target = display(1, "Display");
    let mut backend = WrecBackend::new();

    backend.handle_recorder_event(
        &RecorderEvent::Starting {
            session_id: 7,
            target,
            settings: default_settings(),
            output_path: "/tmp/wrec.mov".to_string(),
        },
        1_000,
    );
    backend.handle_recorder_event(
        &RecorderEvent::Failed { session_id: Some(7), message: "writer failed".to_string() },
        2_000,
    );

    let (event, writes) = backend.handle_recorder_event(
        &RecorderEvent::Exited { session_id: 7, success: true, status: "exit status: 0".to_string() },
        3_000,
    );

    assert!(matches!(event, BackendEvent::Exited { success: false, .. }));
    assert!(!writes.iter().any(|w| matches!(w, StoreWrite::MarkCompleted { .. } | StoreWrite::MarkFailed { .. })));
}

#[test]
fn successful_exit_completes_the_recording() {
    let mut backend = WrecBackend::new();
    let (_, writes) = backend.handle_recorder_event(
        &RecorderEvent::Starting {
            session_id: 3,
            target: display(1, "Display"),
            settings: default_settings(),
            output_path: "/tmp/a.mp4".to_string(),
        },
        10,
    );
    assert!(matches!(writes[0], StoreWrite::UpsertRecording(_)));
    assert_eq!(backend.active_session_id(), Some(3));
    assert_eq!(backend.active_output_path(), Some("/tmp/a.mp4".to_string()));

    let (event, writes) =
        backend.handle_recorder_event(&RecorderEvent::Exited { session_id: 3, success: true, status: "ok".to_string() }, 20);
    match event {
        BackendEvent::Exited { success, output_path, .. } => {
            assert!(success);
            assert_eq!(output_path, Some("/tmp/a.mp4".to_string()));
        }
        _ => panic!("expected an exit"),
    }
    assert!(writes.iter().any(|w| matches!(w, StoreWrite::MarkCompleted { id: 3, stopped_at_ms: 20, .. })));
    assert_eq!(backend.active_session_id(), None);
}

#[test]
fn restarted_session_forgets_an_earlier_failure() {
    let mut backend = WrecBackend::new();
    let start = || RecorderEvent::Starting {
        session_id: 5,
        target: display(1, "Display"),
        settings: RecorderSettings::with_output_dir("/tmp".to_string()),
        output_path: "/tmp/b.mp4".to_string(),
    };
    backend.handle_recorder_event(&start(), 1);
    backend.handle_recorder_event(&RecorderEvent::Failed { session_id: Some(5), message: "boom".to_string() }, 2);
    backend.handle_recorder_event(&start(), 3);
    let (event, _) =
        backend.handle_recorder_event(&RecorderEvent::Exited { session_id: 5, success: true, status: "ok".to_string() }, 4);
    assert!(matches!(event, BackendEvent::Exited { success: true, .. }));
}

#[test]
fn saved_target_keys_read_back() {
    assert_eq!(parse_target_key(&chars("display:3")), Some((CaptureSourceKind::Display, 3)));
    assert_eq!(parse_target_key(&chars("window:12")), Some((CaptureSourceKind::Window, 12)));
    assert_eq!(parse_target_key(&chars("space:1")), None);
    assert_eq!(parse_target_key(&chars("display:x")), None);
    assert_eq!(selected_target_id(&Some("window:9".to_string()), CaptureSourceKind::Window), Some(9));
    assert_eq!(selected_target_id(&Some("window:9".to_string()), CaptureSourceKind::Display), None);
}

#[test]
fn helper_lines_are_attributed_to_the_helper() {
    assert_eq!(recorder_event_source(&chars("wrec-helper: started")), EventSource::Helper);
    assert_eq!(recorder_event_source(&chars("something else")), EventSource::Backend);
    assert_eq!(RecordingStatus::Completed.as_str(), "completed");
}

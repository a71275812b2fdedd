use wrec::protocol::{AgentError, TargetSelector};
use wrec::resolution::{permission_error, resolve_record_target, settings_for_target, unsupported_platform_error};
use wrec::settings::{CaptureSourceKind, CaptureTarget, RecorderError, RecorderSettings, Resolution};

fn display(id: u64, name: &str) -> CaptureTarget {
    CaptureTarget { id, name: name.into(), kind: CaptureSourceKind::Display }
}

fn window(id: u64, name: &str) -> CaptureTarget {
    CaptureTarget { id, name: name.into(), kind: CaptureSourceKind::Window }
}

fn default_settings() -> RecorderSettings {
    RecorderSettings::with_output_dir("/tmp/Wrec".to_string())
}

fn resolve(targets: &[CaptureTarget], selector: Option<TargetSelector>) -> Result<CaptureTarget, AgentError> {
    resolve_record_target(&targets.to_vec(), CaptureSourceKind::Display, selector.as_ref(), None)
}

#[test]
fn id_selector_resolves_matching_target() {
    let targets = [display(1, "Built-in"), window(7, "Notes")];

    let resolved = resolve(&targets, Some(TargetSelector::Id { kind: CaptureSourceKind::Window, id: 7 })).unwrap();

    assert_eq!(resolved.id, 7);
    assert_eq!(resolved.kind, CaptureSourceKind::Window);
}

#[test]
fn id_selector_with_unknown_id_fails_as_target_not_found() {
    let targets = [display(1, "Built-in")];

    let error = resolve(&targets, Some(TargetSelector::Id { kind: CaptureSourceKind::Display, id: 99 })).unwrap_err();

    assert_eq!(error.code, "target_not_found");
    assert!(error.recoverable);
}

#[test]
fn name_selector_prefers_exact_match_over_prefix_match() {
    let targets = [window(1, "Notes"), window(2, "Notes Beta")];

    let resolved = resolve(&targets, Some(TargetSelector::Name { kind: None, query: "notes".into() })).unwrap();

    assert_eq!(resolved.id, 1);
}

#[test]
fn name_selector_prefers_prefix_match_over_contains_match() {
    let targets = [window(1, "My Notes"), window(2, "Notebook")];

    let resolved = resolve(&targets, Some(TargetSelector::Name { kind: None, query: "note".into() })).unwrap();

    assert_eq!(resolved.id, 2);
}

#[test]
fn name_selector_falls_back_to_contains_match() {
    let targets = [window(1, "My Notes"), window(2, "Terminal")];

    let resolved = resolve(&targets, Some(TargetSelector::Name { kind: None, query: "note".into() })).unwrap();

    assert_eq!(resolved.id, 1);
}

#[test]
fn name_selector_normalizes_case_and_whitespace() {
    let targets = [display(1, "Built-in Retina Display")];

    let resolved = resolve(
        &targets,
        Some(TargetSelector::Name { kind: None, query: "  BUILT-IN RETINA DISPLAY  ".into() }),
    )
    .unwrap();

    assert_eq!(resolved.id, 1);
}

#[test]
fn name_selector_filters_candidates_by_kind() {
    let targets = [display(1, "Main"), window(2, "Main")];

    let resolved = resolve(
        &targets,
        Some(TargetSelector::Name { kind: Some(CaptureSourceKind::Window), query: "main".into() }),
    )
    .unwrap();

    assert_eq!(resolved.id, 2);
}

#[test]
fn ambiguous_name_match_lists_candidate_ids() {
    let targets = [window(1, "Notes"), window(2, "notes")];

    let error = resolve(&targets, Some(TargetSelector::Name { kind: None, query: "notes".into() })).unwrap_err();

    assert_eq!(error.code, "ambiguous_target");
    assert!(error.message.contains("window:1"));
    assert!(error.message.contains("window:2"));
}

#[test]
fn blank_name_query_fails() {
    let targets = [display(1, "Built-in")];

    let error = resolve(&targets, Some(TargetSelector::Name { kind: None, query: "   ".into() })).unwrap_err();

    assert_eq!(error.code, "empty_target_query");
}

#[test]
fn unmatched_name_query_fails_as_target_not_found() {
    let targets = [display(1, "Built-in")];

    let error = resolve(&targets, Some(TargetSelector::Name { kind: None, query: "zelda".into() })).unwrap_err();

    assert_eq!(error.code, "target_not_found");
}

#[test]
fn app_selector_matches_app_name_before_separator() {
    let targets = [window(1, "Safari \u{2014} Apple"), window(2, "Notes \u{2014} Draft")];

    let resolved = resolve(&targets, Some(TargetSelector::App { query: "safari".into() })).unwrap();

    assert_eq!(resolved.id, 1);
}

#[test]
fn app_selector_uses_full_name_when_title_has_no_separator() {
    let targets = [window(1, "Terminal")];

    let resolved = resolve(&targets, Some(TargetSelector::App { query: "terminal".into() })).unwrap();

    assert_eq!(resolved.id, 1);
}

#[test]
fn app_selector_ignores_displays() {
    let targets = [display(1, "Safari"), window(2, "Safari \u{2014} Apple")];

    let resolved = resolve(&targets, Some(TargetSelector::App { query: "safari".into() })).unwrap();

    assert_eq!(resolved.id, 2);
}

#[test]
fn blank_app_query_fails() {
    let targets = [window(1, "Safari \u{2014} Apple")];

    let error = resolve(&targets, Some(TargetSelector::App { query: "".into() })).unwrap_err();

    assert_eq!(error.code, "empty_app_query");
}

#[test]
fn unmatched_app_query_fails_as_app_not_found() {
    let targets = [window(1, "Safari \u{2014} Apple")];

    let error = resolve(&targets, Some(TargetSelector::App { query: "zelda".into() })).unwrap_err();

    assert_eq!(error.code, "app_not_found");
}

#[test]
fn no_selector_uses_saved_target_id() {
    let targets = vec![display(1, "Built-in"), display(2, "External")];

    let resolved = resolve_record_target(&targets, CaptureSourceKind::Display, None, Some(2)).unwrap();

    assert_eq!(resolved.id, 2);
}

#[test]
fn no_selector_falls_back_to_first_target_when_saved_id_is_stale() {
    let targets = vec![display(1, "Built-in"), display(2, "External")];

    let resolved = resolve_record_target(&targets, CaptureSourceKind::Display, None, Some(99)).unwrap();

    assert_eq!(resolved.id, 1);
}

#[test]
fn no_selector_without_targets_of_kind_fails() {
    let targets = [window(1, "Notes")];

    let error = resolve(&targets, None).unwrap_err();

    assert_eq!(error.code, "target_not_found");
}

#[test]
fn settings_source_follows_resolved_target() {
    let target = CaptureTarget { id: 42, name: "Notes - Draft".into(), kind: CaptureSourceKind::Window };
    let settings = settings_for_target(default_settings(), &target);

    assert_eq!(settings.source, CaptureSourceKind::Window);
}

#[test]
fn selected_resolution_survives_target_resolution() {
    let target = CaptureTarget { id: 1, name: "Display".into(), kind: CaptureSourceKind::Display };
    let settings = RecorderSettings { resolution: Resolution::R720p, ..default_settings() };

    assert_eq!(settings_for_target(settings, &target).resolution, Resolution::R720p);
}

#[test]
fn missing_permission_maps_to_permission_missing_code() {
    let error = permission_error(RecorderError::MissingScreenRecordingPermission);

    assert_eq!(error.code, "screen_recording_permission_missing");
    assert!(error.recoverable);
}

#[test]
fn capture_engine_backend_errors_map_to_capture_engine_missing() {
    let error = permission_error(RecorderError::Backend("capture-engine binary not found".into()));

    assert_eq!(error.code, "capture_engine_missing");
    assert!(error.message.contains("capture-engine binary not found"));
}

#[test]
fn other_errors_map_to_permission_failed() {
    let error = permission_error(RecorderError::Backend("boom".into()));

    assert_eq!(error.code, "screen_recording_permission_failed");
    assert_eq!(error.message, "backend error: boom");
}

#[test]
fn recorder_error_messages_name_the_failure() {
    assert_eq!(RecorderError::NoCaptureTarget.message(), "no capture target selected");
    assert_eq!(
        RecorderError::MissingScreenRecordingPermission.message(),
        "screen recording permission is not granted"
    );
    let unsupported = unsupported_platform_error();
    assert_eq!(unsupported.code, "unsupported_platform");
    assert_eq!(unsupported.message, "wrec only supports macOS and Windows");
    assert!(!unsupported.recoverable);
}

use std::collections::VecDeque;
use wrec::desktop::{
    fps_options_for, is_permission_message, latest_error_message, push_log_entry, resolution_from_label,
    resolution_label, selected_target, target_key, AppAction, AppEvent, AppSession, RecorderState, MAX_LOGS,
};
use wrec::jobs::{JobEvent, JobMetrics, JobSnapshot};
use wrec::protocol::{EventLevel, JobStatus};
use wrec::settings::{CaptureSourceKind, CaptureTarget, FrameRate, Quality, Resolution, ScreenRecordingPermissionStatus};

fn snapshot(id: u64, status: JobStatus, output_path: Option<&str>, events: Vec<JobEvent>) -> JobSnapshot {
    JobSnapshot {
        id,
        status,
        selector: None,
        target: Some(CaptureTarget { id: 1, name: "Main".to_string(), kind: CaptureSourceKind::Display }),
        settings: None,
        output_path: output_path.map(|p| p.to_string()),
        queued_position: None,
        warnings: Vec::new(),
        events,
        created_at_ms: 0,
        updated_at_ms: 0,
        started_at_ms: None,
        finished_at_ms: None,
    }
}

fn target() -> CaptureTarget {
    CaptureTarget { id: 1, name: "Main".to_string(), kind: CaptureSourceKind::Display }
}

fn granted_session() -> AppSession {
    let mut app = AppSession::new("Idle".to_string());
    app.handle_app_event(AppEvent::PermissionChecked {
        result: Ok(ScreenRecordingPermissionStatus::Granted),
        refresh_targets_after_granted: false,
    });
    app
}

#[test]
fn recording_without_permission_is_refused() {
    let mut app = AppSession::new("Idle".to_string());
    let actions = app.toggle_recording(Some(target()), true);
    assert_eq!(app.status, "Screen Recording permission is required");
    assert!(actions.iter().any(|a| matches!(a, AppAction::Alert(m) if m == "Screen Recording permission is required")));
    assert_eq!(app.recorder_state, RecorderState::Idle);
}

#[test]
fn a_recording_goes_from_start_to_saved() {
    let mut app = granted_session();
    assert_eq!(app.status, "Ready");

    let actions = app.toggle_recording(Some(target()), true);
    assert_eq!(app.recorder_state, RecorderState::Starting);
    assert!(actions.iter().any(|a| matches!(a, AppAction::ExcludeFromCapture(true))));
    assert!(actions.iter().any(|a| matches!(a, AppAction::StartJob(t) if t.id == 1)));

    let actions = app.handle_app_event(AppEvent::Started(Ok(snapshot(4, JobStatus::Recording, Some("/tmp/a.mp4"), Vec::new()))));
    assert_eq!(app.recorder_state, RecorderState::Recording);
    assert_eq!(app.active_job_id, Some(4));
    assert_eq!(app.status, "Recording to /tmp/a.mp4");
    assert!(actions.iter().any(|a| matches!(a, AppAction::StartJobPoll)));

    let actions = app.toggle_recording(None, true);
    assert_eq!(app.recorder_state, RecorderState::Stopping);
    assert!(actions.iter().any(|a| matches!(a, AppAction::StopJob(4))));

    let actions = app.handle_app_event(AppEvent::Stopped(Ok(snapshot(4, JobStatus::Completed, Some("/tmp/a.mp4"), Vec::new()))));
    assert_eq!(app.recorder_state, RecorderState::Idle);
    assert_eq!(app.active_job_id, None);
    assert_eq!(app.status, "Saved to /tmp/a.mp4");
    assert!(actions.iter().any(|a| matches!(a, AppAction::OpenLastRecordingFolder)));
}

#[test]
fn replies_about_other_jobs_change_nothing() {
    let mut app = granted_session();
    app.toggle_recording(Some(target()), false);
    app.handle_app_event(AppEvent::Started(Ok(snapshot(4, JobStatus::Recording, None, Vec::new()))));
    let actions = app.handle_app_event(AppEvent::JobPolled(Ok(snapshot(9, JobStatus::Completed, None, Vec::new()))));
    assert!(actions.is_empty());
    assert_eq!(app.recorder_state, RecorderState::Recording);
    assert_eq!(app.active_job_id, Some(4));
}

#[test]
fn failed_job_shows_its_last_error() {
    let mut app = granted_session();
    app.toggle_recording(Some(target()), false);
    app.handle_app_event(AppEvent::Started(Ok(snapshot(4, JobStatus::Recording, None, Vec::new()))));
    let events = vec![
        JobEvent { timestamp_ms: 1, level: EventLevel::Error, message: "first".to_string(), metrics: None },
        JobEvent { timestamp_ms: 2, level: EventLevel::Info, message: "note".to_string(), metrics: None },
        JobEvent { timestamp_ms: 3, level: EventLevel::Error, message: "screen recording permission is not granted".to_string(), metrics: None },
    ];
    assert_eq!(latest_error_message(&events), Some("screen recording permission is not granted".to_string()));
    app.handle_app_event(AppEvent::JobPolled(Ok(snapshot(4, JobStatus::Failed, None, events))));
    assert_eq!(app.recorder_state, RecorderState::Failed);
    assert_eq!(app.status, "screen recording permission is not granted");
    assert_eq!(app.permission_status, ScreenRecordingPermissionStatus::Missing);
    assert_eq!(app.active_job_id, None);
}

#[test]
fn quitting_during_a_recording_waits_for_the_save() {
    let mut app = granted_session();
    app.toggle_recording(Some(target()), false);
    app.handle_app_event(AppEvent::Started(Ok(snapshot(4, JobStatus::Recording, None, Vec::new()))));
    let (quit_now, actions) = app.request_quit(false);
    assert!(!quit_now);
    assert!(actions.iter().any(|a| matches!(a, AppAction::ShowQuitDialog)));
    let actions = app.stop_recording_and_quit();
    assert!(app.quit_after_stop);
    assert!(actions.iter().any(|a| matches!(a, AppAction::StopJob(4))));
    let actions = app.handle_app_event(AppEvent::Stopped(Ok(snapshot(4, JobStatus::Completed, None, Vec::new()))));
    assert!(actions.iter().any(|a| matches!(a, AppAction::Quit)));
    assert!(!app.quit_after_stop);
}

#[test]
fn late_start_reply_is_only_logged() {
    let mut app = granted_session();
    let actions = app.handle_app_event(AppEvent::Started(Ok(snapshot(6, JobStatus::Recording, None, Vec::new()))));
    assert_eq!(app.recorder_state, RecorderState::Idle);
    assert!(actions.iter().any(|a| matches!(a, AppAction::Log(m) if m == "ignored late start for job 6")));
}

#[test]
fn targets_loaded_reports_the_count() {
    let mut app = granted_session();
    app.refresh_targets();
    assert_eq!(app.recorder_state, RecorderState::LoadingTargets);
    let actions = app.handle_app_event(AppEvent::TargetsLoaded(Ok(3)));
    assert_eq!(app.recorder_state, RecorderState::Idle);
    assert!(actions.iter().any(|a| matches!(a, AppAction::Notify(m) if m == "3 capture targets loaded")));
}

#[test]
fn log_keeps_only_the_newest_lines() {
    let mut logs = VecDeque::new();
    for i in 0..(MAX_LOGS + 5) {
        push_log_entry(&mut logs, format!("line {i}"));
    }
    assert_eq!(logs.len(), MAX_LOGS);
    assert_eq!(logs.front().unwrap(), "line 5");
    assert_eq!(logs.back().unwrap(), &format!("line {}", MAX_LOGS + 4));
}

#[test]
fn target_selection_prefers_the_saved_key() {
    let targets = vec![
        CaptureTarget { id: 1, name: "Main".to_string(), kind: CaptureSourceKind::Display },
        CaptureTarget { id: 2, name: "Side".to_string(), kind: CaptureSourceKind::Display },
        CaptureTarget { id: 3, name: "Notes".to_string(), kind: CaptureSourceKind::Window },
    ];
    assert_eq!(target_key(&targets[2]), "window:3");
    assert_eq!(selected_target(&targets, &Some("display:2".to_string()), CaptureSourceKind::Display).unwrap().id, 2);
    assert_eq!(selected_target(&targets, &None, CaptureSourceKind::Window).unwrap().id, 3);
    assert_eq!(selected_target(&targets, &Some("display:9".to_string()), CaptureSourceKind::Display).unwrap().id, 1);
}

#[test]
fn labels_read_back_and_limits_disable_options() {
    assert_eq!(resolution_label(Resolution::Native), "Original");
    assert_eq!(resolution_from_label(&"4K".to_string()), Resolution::R4k);
    let options = fps_options_for(Quality::Efficient);
    assert!(options.iter().any(|o| o.disabled));
    assert_eq!(FrameRate::Fps30.as_u32(), 30);
    assert!(is_permission_message(&"Screen Recording permission is required".to_string()));
}

fn metrics_event(elapsed_secs: u64) -> JobEvent {
    JobEvent {
        timestamp_ms: elapsed_secs,
        level: EventLevel::Info,
        message: format!("{elapsed_secs}s"),
        metrics: Some(JobMetrics { elapsed_secs, output_bytes: elapsed_secs * 1000 }),
    }
}

#[test]
fn job_metrics_refresh_the_control_window_when_time_moves_on() {
    let mut app = granted_session();
    app.toggle_recording(Some(target()), true);
    app.handle_app_event(AppEvent::Started(Ok(snapshot(4, JobStatus::Recording, Some("/tmp/rec/a.mp4"), Vec::new()))));

    let actions = app.apply_job_snapshot(&snapshot(4, JobStatus::Recording, Some("/tmp/rec/a.mp4"), vec![metrics_event(1)]));
    assert_eq!(app.metrics_elapsed_secs, Some(1));
    assert!(actions.iter().any(|a| matches!(a, AppAction::ShowMetrics(m) if m.elapsed_secs == 1 && m.output_bytes == 1000)));
    assert!(actions.iter().any(|a| matches!(a, AppAction::RememberRecordingFolder(Some(d)) if d == "/tmp/rec")));

    let events = vec![metrics_event(1), JobEvent { timestamp_ms: 9, level: EventLevel::Info, message: "note".to_string(), metrics: None }];
    let actions = app.apply_job_snapshot(&snapshot(4, JobStatus::Recording, Some("/tmp/rec/a.mp4"), events));
    assert!(!actions.iter().any(|a| matches!(a, AppAction::ShowMetrics(_))));

    let actions = app.apply_job_snapshot(&snapshot(4, JobStatus::Recording, None, vec![metrics_event(1), metrics_event(6)]));
    assert_eq!(app.metrics_elapsed_secs, Some(6));
    assert!(actions.iter().any(|a| matches!(a, AppAction::ShowMetrics(m) if m.elapsed_secs == 6)));
    assert!(actions.iter().any(|a| matches!(a, AppAction::UpdateControlWindow)));
    assert!(!actions.iter().any(|a| matches!(a, AppAction::RememberRecordingFolder(_))));
}

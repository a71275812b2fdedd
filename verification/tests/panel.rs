use wrec::desktop::{AppEvent, AppSession, AppTab, RecorderState};
use wrec::panel::{cli_install_status_of, timer_label, ButtonIcon, CliInstallStatus, ControlRequest, ControlWindowState};
use wrec::settings::ScreenRecordingPermissionStatus;

#[test]
fn record_button_needs_the_permission() {
    let app = AppSession::new("Idle".to_string());
    let panel = app.control_panel(AppTab::General, false);
    assert_eq!(panel.record_label, "Record");
    assert_eq!(panel.record_icon, ButtonIcon::FilmReel);
    assert!(panel.record_disabled);
    assert!(!panel.show_pause_button);
    assert_eq!(panel.status_label, "Ready");
}

#[test]
fn record_button_stops_an_active_session() {
    let mut app = AppSession::new("Idle".to_string());
    app.handle_app_event(AppEvent::PermissionChecked {
        result: Ok(ScreenRecordingPermissionStatus::Granted),
        refresh_targets_after_granted: false,
    });
    assert!(!app.control_panel(AppTab::General, false).record_disabled);
    app.recorder_state = RecorderState::Paused;
    app.active_job_id = Some(3);
    let panel = app.control_panel(AppTab::General, false);
    assert_eq!(panel.record_label, "Stop");
    assert_eq!(panel.record_tip, "Stop recording");
    assert!(!panel.record_is_idle);
    assert!(panel.show_pause_button);
    assert_eq!(panel.pause_icon, ButtonIcon::Play);
    assert_eq!(panel.pause_label, "Resume");
    assert!(panel.controls_disabled);
    assert!(panel.shows_live_metrics);
    assert_eq!(panel.status_label, "Paused");
    app.recorder_state = RecorderState::Stopping;
    let panel = app.control_panel(AppTab::General, false);
    assert!(panel.record_disabled);
    assert!(panel.pause_disabled);
}

#[test]
fn detailed_log_tab_needs_the_detailed_log() {
    let app = AppSession::new("Idle".to_string());
    assert_eq!(app.control_panel(AppTab::Nerd, false).shown_tab, AppTab::Settings);
    assert_eq!(app.control_panel(AppTab::Nerd, true).shown_tab, AppTab::Nerd);
    assert_eq!(app.control_panel(AppTab::About, false).shown_tab, AppTab::About);
}

#[test]
fn timer_shows_minutes_and_seconds() {
    assert_eq!(timer_label(0), "00:00");
    assert_eq!(timer_label(65), "01:05");
    assert_eq!(timer_label(600), "10:00");
    assert_eq!(timer_label(6005), "100:05");
}

#[test]
fn control_window_buttons_act_on_the_job() {
    let waiting = ControlWindowState { paused: false, elapsed_secs: 0, job_id: None };
    assert!(waiting.buttons_disabled());
    assert_eq!(waiting.on_pause_click(), None);
    assert_eq!(waiting.on_stop_click(), None);
    let running = ControlWindowState { paused: false, elapsed_secs: 12, job_id: Some(8) };
    assert_eq!(running.pause_icon(), ButtonIcon::Pause);
    assert_eq!(running.on_pause_click(), Some(ControlRequest::Pause(8)));
    let paused = ControlWindowState { paused: true, ..running };
    assert_eq!(paused.on_pause_click(), Some(ControlRequest::Resume(8)));
    assert_eq!(paused.on_stop_click(), Some(ControlRequest::Stop(8)));
}

#[test]
fn control_window_follows_the_session() {
    assert_eq!(ControlWindowState::opened(Some(2)), ControlWindowState { paused: false, elapsed_secs: 0, job_id: Some(2) });
    let mut app = AppSession::new("Idle".to_string());
    app.recorder_state = RecorderState::Paused;
    app.active_job_id = Some(2);
    app.metrics_elapsed_secs = Some(42);
    assert_eq!(app.control_window_state(), ControlWindowState { paused: true, elapsed_secs: 42, job_id: Some(2) });
    app.recorder_state = RecorderState::Recording;
    app.metrics_elapsed_secs = None;
    assert_eq!(app.control_window_state(), ControlWindowState { paused: false, elapsed_secs: 0, job_id: Some(2) });
}

#[test]
fn cli_install_status_reads_the_installed_files() {
    assert_eq!(cli_install_status_of(false, true, true), CliInstallStatus::NotInstalled);
    assert_eq!(cli_install_status_of(true, false, true), CliInstallStatus::Conflict);
    assert_eq!(cli_install_status_of(true, true, true), CliInstallStatus::Installed);
    assert_eq!(cli_install_status_of(true, true, false), CliInstallStatus::NeedsUpdate);
    assert_eq!(CliInstallStatus::NeedsUpdate.label(), "Update available");
    assert_eq!(CliInstallStatus::Conflict.label(), "Path conflict");
}

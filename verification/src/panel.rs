//! What the desktop app's windows show and allow: the record and pause
//! buttons of the main window, the tab it shows, and the small control
//! window with its timer while recording.

use vstd::prelude::*;
use crate::desktop::{is_active_state, is_busy_state, AppSession, AppTab, DesktopState, RecorderState};
use crate::digits::{decimal, decimal_chars};
use crate::settings::ScreenRecordingPermissionStatus;
use crate::text::{push_chars, push_str, string_of};

verus! {

/// The icons of the recording buttons.
#[derive(Clone, Copy, Debug, PartialEq, Eq, Structural)]
pub enum ButtonIcon {
    FilmReel,
    Stop,
    Pause,
    Play,
}

/// The record and pause buttons, the settings controls and the tab the
/// main window shows.
pub struct ControlPanel {
    pub record_icon: ButtonIcon,
    pub record_label: &'static str,
    pub record_tip: &'static str,
    pub record_is_idle: bool,
    pub record_disabled: bool,
    pub show_pause_button: bool,
    pub pause_icon: ButtonIcon,
    pub pause_label: &'static str,
    pub pause_tip: &'static str,
    pub pause_disabled: bool,
    pub controls_disabled: bool,
    pub status_label: &'static str,
    pub shows_live_metrics: bool,
    pub shown_tab: AppTab,
}

/// `ControlPanel` with its text as characters.
pub struct ControlPanelView {
    pub record_icon: ButtonIcon,
    pub record_label: Seq<char>,
    pub record_tip: Seq<char>,
    pub record_is_idle: bool,
    pub record_disabled: bool,
    pub show_pause_button: bool,
    pub pause_icon: ButtonIcon,
    pub pause_label: Seq<char>,
    pub pause_tip: Seq<char>,
    pub pause_disabled: bool,
    pub controls_disabled: bool,
    pub status_label: Seq<char>,
    pub shows_live_metrics: bool,
    pub shown_tab: AppTab,
}

impl View for ControlPanel {
    type V = ControlPanelView;

    open spec fn view(&self) -> ControlPanelView {
        ControlPanelView {
            record_icon: self.record_icon,
            record_label: self.record_label@,
            record_tip: self.record_tip@,
            record_is_idle: self.record_is_idle,
            record_disabled: self.record_disabled,
            show_pause_button: self.show_pause_button,
            pause_icon: self.pause_icon,
            pause_label: self.pause_label@,
            pause_tip: self.pause_tip@,
            pause_disabled: self.pause_disabled,
            controls_disabled: self.controls_disabled,
            status_label: self.status_label@,
            shows_live_metrics: self.shows_live_metrics,
            shown_tab: self.shown_tab,
        }
    }
}

/// The recorder waits for the daemon to start, pause, resume or stop.
pub open spec fn is_changing(s: RecorderState) -> bool {
    s == RecorderState::Starting || s == RecorderState::Pausing || s == RecorderState::Resuming
        || s == RecorderState::Stopping
}

/// The main window for state `st`, on tab `tab`, with the detailed log
/// shown or not. During a session the record button stops it; outside
/// one it starts a recording once the permission is granted. The pause
/// button resumes a paused recording. Settings are locked while the
/// recorder waits or records. The detailed log tab falls back to the
/// settings tab when the detailed log is hidden.
pub open spec fn control_panel_spec(st: DesktopState, tab: AppTab, show_nerd_logs: bool) -> ControlPanelView {
    let active = is_active_state(st.recorder_state);
    let paused = st.recorder_state == RecorderState::Paused;
    ControlPanelView {
        record_icon: if active { ButtonIcon::Stop } else { ButtonIcon::FilmReel },
        record_label: if active { "Stop"@ } else { "Record"@ },
        record_tip: if active { "Stop recording"@ } else { "Start recording"@ },
        record_is_idle: !active,
        record_disabled: is_changing(st.recorder_state)
            || (!active && (st.permission_busy || st.permission_status != ScreenRecordingPermissionStatus::Granted)),
        show_pause_button: active,
        pause_icon: if paused { ButtonIcon::Play } else { ButtonIcon::Pause },
        pause_label: if paused { "Resume"@ } else { "Pause"@ },
        pause_tip: if paused { "Resume recording"@ } else { "Pause recording"@ },
        pause_disabled: st.recorder_state == RecorderState::Pausing || st.recorder_state == RecorderState::Resuming
            || st.recorder_state == RecorderState::Stopping,
        controls_disabled: is_busy_state(st.recorder_state) || st.permission_busy || active,
        status_label: if st.recorder_state == RecorderState::Recording {
            "Recording"@
        } else if paused {
            "Paused"@
        } else {
            "Ready"@
        },
        shows_live_metrics: active,
        shown_tab: if tab == AppTab::Nerd && !show_nerd_logs { AppTab::Settings } else { tab },
    }
}

impl AppSession {
    /// What the main window shows for this state.
    pub fn control_panel(&self, tab: AppTab, show_nerd_logs: bool) -> (r: ControlPanel)
        ensures
            r@ == control_panel_spec(self@, tab, show_nerd_logs),
    {
        proof {
            reveal_strlit("Stop");
            reveal_strlit("Record");
        }
        let state = self.recorder_state;
        let active = state.is_active_session();
        let paused = state.is_paused();
        let changing = match state {
            RecorderState::Starting | RecorderState::Pausing | RecorderState::Resuming | RecorderState::Stopping => true,
            _ => false,
        };
        let granted = self.permission_status.is_granted();
        let pause_disabled = match state {
            RecorderState::Pausing | RecorderState::Resuming | RecorderState::Stopping => true,
            _ => false,
        };
        let shown_tab = match tab {
            AppTab::Nerd => if show_nerd_logs { AppTab::Nerd } else { AppTab::Settings },
            other => other,
        };
        ControlPanel {
            record_icon: if active { ButtonIcon::Stop } else { ButtonIcon::FilmReel },
            record_label: if active { "Stop" } else { "Record" },
            record_tip: if active { "Stop recording" } else { "Start recording" },
            record_is_idle: !active,
            record_disabled: changing || (!active && (self.permission_busy || !granted)),
            show_pause_button: active,
            pause_icon: if paused { ButtonIcon::Play } else { ButtonIcon::Pause },
            pause_label: if paused { "Resume" } else { "Pause" },
            pause_tip: if paused { "Resume recording" } else { "Pause recording" },
            pause_disabled,
            controls_disabled: state.is_busy() || self.permission_busy || active,
            status_label: if state.is_recording() { "Recording" } else if paused { "Paused" } else { "Ready" },
            shows_live_metrics: active,
            shown_tab,
        }
    }
}

/// A number as at least two digits, with a leading zero below ten.
pub open spec fn two_digits(n: nat) -> Seq<char> {
    if n < 10 { "0"@ + decimal(n) } else { decimal(n) }
}

/// The timer of the control window: minutes and seconds, `MM:SS`.
pub open spec fn timer_text(elapsed_secs: u64) -> Seq<char> {
    two_digits((elapsed_secs / 60) as nat) + ":"@ + two_digits((elapsed_secs % 60) as nat)
}

fn push_two_digits(out: &mut Vec<char>, n: u64)
    ensures
        final(out)@ == old(out)@ + two_digits(n as nat),
{
    if n < 10 {
        push_str(out, "0");
    }
    push_chars(out, &decimal_chars(n));
    proof {
        if n < 10 {
            assert(old(out)@ + "0"@ + decimal(n as nat) == old(out)@ + ("0"@ + decimal(n as nat)));
        }
    }
}

/// The timer text of the control window for `elapsed_secs` seconds.
pub fn timer_label(elapsed_secs: u64) -> (r: String)
    ensures
        r@ == timer_text(elapsed_secs),
{
    let mut out: Vec<char> = Vec::new();
    push_two_digits(&mut out, elapsed_secs / 60);
    push_str(&mut out, ":");
    push_two_digits(&mut out, elapsed_secs % 60);
    assert(out@ =~= timer_text(elapsed_secs));
    string_of(&out)
}

/// What the control window shows while recording.
#[derive(Clone, Copy, Debug, PartialEq, Eq, Structural)]
pub struct ControlWindowState {
    pub paused: bool,
    pub elapsed_secs: u64,
    pub job_id: Option<u64>,
}

/// A request the control window's buttons send to the daemon.
#[derive(Clone, Copy, Debug, PartialEq, Eq, Structural)]
pub enum ControlRequest {
    Pause(u64),
    Resume(u64),
    Stop(u64),
}

impl ControlWindowState {
    /// The control window as it opens for the active job.
    pub fn opened(job_id: Option<u64>) -> (r: ControlWindowState)
        ensures
            r == (ControlWindowState { paused: false, elapsed_secs: 0, job_id }),
    {
        ControlWindowState { paused: false, elapsed_secs: 0, job_id }
    }

    /// The buttons do nothing until the window knows its job.
    pub fn buttons_disabled(&self) -> (r: bool)
        ensures
            r == (self.job_id is None),
    {
        self.job_id.is_none()
    }

    /// The icon of the pause button: play while paused.
    pub fn pause_icon(&self) -> (r: ButtonIcon)
        ensures
            r == (if self.paused { ButtonIcon::Play } else { ButtonIcon::Pause }),
    {
        if self.paused { ButtonIcon::Play } else { ButtonIcon::Pause }
    }

    /// The pause button resumes a paused job and pauses a running one.
    pub fn on_pause_click(&self) -> (r: Option<ControlRequest>)
        ensures
            r == (match self.job_id {
                Some(id) => Some(if self.paused { ControlRequest::Resume(id) } else { ControlRequest::Pause(id) }),
                None => None,
            }),
    {
        match self.job_id {
            Some(id) => Some(if self.paused { ControlRequest::Resume(id) } else { ControlRequest::Pause(id) }),
            None => None,
        }
    }

    /// The stop button stops the job.
    pub fn on_stop_click(&self) -> (r: Option<ControlRequest>)
        ensures
            r == (match self.job_id {
                Some(id) => Some(ControlRequest::Stop(id)),
                None => None,
            }),
    {
        match self.job_id {
            Some(id) => Some(ControlRequest::Stop(id)),
            None => None,
        }
    }
}

impl AppSession {
    /// What the control window shows for this session: whether it is
    /// paused, the elapsed time of the last metrics reported (zero before
    /// any), and the active job.
    pub fn control_window_state(&self) -> (r: ControlWindowState)
        ensures
            r == (ControlWindowState {
                paused: self.recorder_state == RecorderState::Paused,
                elapsed_secs: match self.metrics_elapsed_secs {
                    Some(e) => e,
                    None => 0,
                },
                job_id: self.active_job_id,
            }),
    {
        ControlWindowState {
            paused: self.recorder_state.is_paused(),
            elapsed_secs: match self.metrics_elapsed_secs {
                Some(e) => e,
                None => 0,
            },
            job_id: self.active_job_id,
        }
    }
}


/// Where the `wrec` command line installed from the app stands.
#[derive(Clone, Copy, Debug, PartialEq, Eq, Structural)]
pub enum CliInstallStatus {
    NotInstalled,
    Installed,
    NeedsUpdate,
    Conflict,
}

impl CliInstallStatus {
    /// How the status reads in the window.
    pub fn label(self) -> (r: &'static str)
        ensures
            r@ == match self {
                CliInstallStatus::NotInstalled => "Not installed"@,
                CliInstallStatus::Installed => "Installed"@,
                CliInstallStatus::NeedsUpdate => "Update available"@,
                CliInstallStatus::Conflict => "Path conflict"@,
            },
    {
        match self {
            CliInstallStatus::NotInstalled => "Not installed",
            CliInstallStatus::Installed => "Installed",
            CliInstallStatus::NeedsUpdate => "Update available",
            CliInstallStatus::Conflict => "Path conflict",
        }
    }
}

/// The status of the installed command line: not installed without a
/// `wrec` on the path, a conflict when that one is not the app's, else
/// installed when the command line, daemon and capture engine are all in
/// place, and in need of an update otherwise.
pub fn cli_install_status_of(bin_exists: bool, bin_is_managed: bool, runtime_complete: bool) -> (r: CliInstallStatus)
    ensures
        r == (if !bin_exists {
            CliInstallStatus::NotInstalled
        } else if !bin_is_managed {
            CliInstallStatus::Conflict
        } else if runtime_complete {
            CliInstallStatus::Installed
        } else {
            CliInstallStatus::NeedsUpdate
        }),
{
    if !bin_exists {
        CliInstallStatus::NotInstalled
    } else if !bin_is_managed {
        CliInstallStatus::Conflict
    } else if runtime_complete {
        CliInstallStatus::Installed
    } else {
        CliInstallStatus::NeedsUpdate
    }
}

} // verus!

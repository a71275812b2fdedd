//! The decisions of the desktop app: how its recorder state, permission
//! status, active job and status line follow the user's clicks and the
//! daemon's replies, and what the window has to do in turn.
//!
//! Each decision takes the state and one input and gives the next state and
//! the actions, in order; the window performs them.

use vstd::prelude::*;
use crate::digits::{decimal, decimal_chars};
use crate::jobs::{events_view, JobEvent, JobEventView, JobMetrics, JobSnapshot};
use crate::paths::{parent_of, path_parent};
use crate::protocol::{EventLevel, JobStatus};
use crate::backend::{parse_target_key_spec, kind_arg};
use crate::protocol::AgentError;
use crate::settings::{
    fps_min, fps_value, resolution_min, spec_max_fps, spec_max_resolution, CaptureSourceKind, CaptureTarget,
    CaptureTargetView, Codec, FrameRate, Quality, RecorderSettings, Resolution, ScreenRecordingPermissionStatus,
};
use crate::text::{chars_of, contains, contains_seq, push_chars, push_str, string_of};
use std::collections::VecDeque;

verus! {

/// Where the desktop app's recorder stands.
#[derive(Clone, Copy, Debug, PartialEq, Eq, Structural)]
pub enum RecorderState {
    Idle,
    LoadingTargets,
    Starting,
    Recording,
    Pausing,
    Paused,
    Resuming,
    Stopping,
    Failed,
}

/// A recording session is under way: recording, paused, or changing
/// between these, or stopping.
pub open spec fn is_active_state(s: RecorderState) -> bool {
    s == RecorderState::Recording || s == RecorderState::Pausing || s == RecorderState::Paused
        || s == RecorderState::Resuming || s == RecorderState::Stopping
}

/// The recorder waits for the daemon.
pub open spec fn is_busy_state(s: RecorderState) -> bool {
    s == RecorderState::LoadingTargets || s == RecorderState::Starting || s == RecorderState::Pausing
        || s == RecorderState::Resuming || s == RecorderState::Stopping
}

impl RecorderState {
    /// Frames are being recorded.
    pub fn is_recording(&self) -> (r: bool)
        ensures
            r == (*self == RecorderState::Recording),
    {
        match self {
            RecorderState::Recording => true,
            _ => false,
        }
    }

    /// The recording is paused.
    pub fn is_paused(&self) -> (r: bool)
        ensures
            r == (*self == RecorderState::Paused),
    {
        match self {
            RecorderState::Paused => true,
            _ => false,
        }
    }

    /// A recording session is under way.
    pub fn is_active_session(&self) -> (r: bool)
        ensures
            r == is_active_state(*self),
    {
        match self {
            RecorderState::Recording | RecorderState::Pausing | RecorderState::Paused
            | RecorderState::Resuming | RecorderState::Stopping => true,
            _ => false,
        }
    }

    /// The recorder waits for the daemon.
    pub fn is_busy(&self) -> (r: bool)
        ensures
            r == is_busy_state(*self),
    {
        match self {
            RecorderState::LoadingTargets | RecorderState::Starting | RecorderState::Pausing
            | RecorderState::Resuming | RecorderState::Stopping => true,
            _ => false,
        }
    }
}

/// Something the window does for a decision.
pub enum AppAction {
    /// Adds a line to the log.
    Log(String),
    /// Shows a notification that hides itself.
    Notify(String),
    /// Shows a notification that stays until it is closed.
    Alert(String),
    /// Draws the window again.
    Redraw,
    /// Asks the daemon for the permission status, then reports it.
    CheckPermission { refresh_targets_after_granted: bool },
    /// Asks the daemon to request the permission, then reports the status.
    RequestPermission,
    /// Asks the daemon for the capture targets, then reports them.
    ListTargets,
    /// Forgets the capture targets and updates the target list.
    ClearTargets,
    /// Updates the target list from the targets last loaded.
    SyncTargetSelect,
    /// Forgets the metrics of the last recording.
    ClearMetrics,
    /// Keeps the app's own windows out of the recording, or not.
    ExcludeFromCapture(bool),
    /// Asks the daemon to record the target, then reports the job.
    StartJob(CaptureTarget),
    /// Starts polling the active job.
    StartJobPoll,
    /// Asks the daemon to stop the job, then reports it.
    StopJob(u64),
    /// Asks the daemon to pause the job, then reports it.
    PauseJob(u64),
    /// Asks the daemon to resume the job, then reports it.
    ResumeJob(u64),
    OpenControlWindow,
    UpdateControlWindow,
    CloseControlWindow,
    /// Brings the app to the front.
    ActivateWindow,
    /// Opens the folder of the last recording.
    OpenLastRecordingFolder,
    /// Remembers this folder, if there is one, as the last recording's.
    RememberRecordingFolder(Option<String>),
    /// Shows these metrics of the recording in the metrics label.
    ShowMetrics(JobMetrics),
    /// Asks whether to stop the recording and quit.
    ShowQuitDialog,
    /// Quits the app.
    Quit,
}

/// `AppAction` with its text as characters.
pub enum AppActionView {
    Log(Seq<char>),
    Notify(Seq<char>),
    Alert(Seq<char>),
    Redraw,
    CheckPermission { refresh_targets_after_granted: bool },
    RequestPermission,
    ListTargets,
    ClearTargets,
    SyncTargetSelect,
    ClearMetrics,
    ExcludeFromCapture(bool),
    StartJob(CaptureTargetView),
    StartJobPoll,
    StopJob(u64),
    PauseJob(u64),
    ResumeJob(u64),
    OpenControlWindow,
    UpdateControlWindow,
    CloseControlWindow,
    ActivateWindow,
    OpenLastRecordingFolder,
    RememberRecordingFolder(Option<Seq<char>>),
    ShowMetrics(JobMetrics),
    ShowQuitDialog,
    Quit,
}

impl View for AppAction {
    type V = AppActionView;

    open spec fn view(&self) -> AppActionView {
        match self {
            AppAction::Log(m) => AppActionView::Log(m@),
            AppAction::Notify(m) => AppActionView::Notify(m@),
            AppAction::Alert(m) => AppActionView::Alert(m@),
            AppAction::Redraw => AppActionView::Redraw,
            AppAction::CheckPermission { refresh_targets_after_granted } => AppActionView::CheckPermission {
                refresh_targets_after_granted: *refresh_targets_after_granted,
            },
            AppAction::RequestPermission => AppActionView::RequestPermission,
            AppAction::ListTargets => AppActionView::ListTargets,
            AppAction::ClearTargets => AppActionView::ClearTargets,
            AppAction::SyncTargetSelect => AppActionView::SyncTargetSelect,
            AppAction::ClearMetrics => AppActionView::ClearMetrics,
            AppAction::ExcludeFromCapture(b) => AppActionView::ExcludeFromCapture(*b),
            AppAction::StartJob(t) => AppActionView::StartJob(t@),
            AppAction::StartJobPoll => AppActionView::StartJobPoll,
            AppAction::StopJob(id) => AppActionView::StopJob(*id),
            AppAction::PauseJob(id) => AppActionView::PauseJob(*id),
            AppAction::ResumeJob(id) => AppActionView::ResumeJob(*id),
            AppAction::OpenControlWindow => AppActionView::OpenControlWindow,
            AppAction::UpdateControlWindow => AppActionView::UpdateControlWindow,
            AppAction::CloseControlWindow => AppActionView::CloseControlWindow,
            AppAction::ActivateWindow => AppActionView::ActivateWindow,
            AppAction::OpenLastRecordingFolder => AppActionView::OpenLastRecordingFolder,
            AppAction::RememberRecordingFolder(p) => AppActionView::RememberRecordingFolder(opt_text(*p)),
            AppAction::ShowMetrics(m) => AppActionView::ShowMetrics(*m),
            AppAction::ShowQuitDialog => AppActionView::ShowQuitDialog,
            AppAction::Quit => AppActionView::Quit,
        }
    }
}

/// A list of actions, each as its view.
pub open spec fn actions_view(a: Seq<AppAction>) -> Seq<AppActionView> {
    a.map_values(|x: AppAction| x@)
}

/// The desktop app's state as the decisions see it.
pub struct DesktopState {
    pub recorder_state: RecorderState,
    pub permission_status: ScreenRecordingPermissionStatus,
    pub permission_busy: bool,
    pub active_job_id: Option<u64>,
    pub active_job_event_count: nat,
    pub active_output_path: Option<Seq<char>>,
    pub quit_after_stop: bool,
    pub status: Seq<char>,
    pub metrics_elapsed_secs: Option<u64>,
}

/// The part of the desktop app's state that its decisions read and change.
pub struct AppSession {
    pub recorder_state: RecorderState,
    pub permission_status: ScreenRecordingPermissionStatus,
    pub permission_busy: bool,
    pub active_job_id: Option<u64>,
    pub active_job_event_count: usize,
    pub active_output_path: Option<String>,
    pub quit_after_stop: bool,
    pub status: String,
    /// The elapsed time of the last metrics the recording reported.
    pub metrics_elapsed_secs: Option<u64>,
}

/// Optional text as characters.
pub open spec fn opt_text(o: Option<String>) -> Option<Seq<char>> {
    match o {
        Some(s) => Some(s@),
        None => None,
    }
}

impl View for AppSession {
    type V = DesktopState;

    open spec fn view(&self) -> DesktopState {
        DesktopState {
            recorder_state: self.recorder_state,
            permission_status: self.permission_status,
            permission_busy: self.permission_busy,
            active_job_id: self.active_job_id,
            active_job_event_count: self.active_job_event_count as nat,
            active_output_path: opt_text(self.active_output_path),
            quit_after_stop: self.quit_after_stop,
            status: self.status@,
            metrics_elapsed_secs: self.metrics_elapsed_secs,
        }
    }
}

/// A decision's outcome: the next state and the actions, in order.
pub type Outcome = (DesktopState, Seq<AppActionView>);

/// An error shown to the user: it becomes the status line, is logged, and
/// is shown in a notification that stays.
pub open spec fn show_error_spec(st: DesktopState, message: Seq<char>) -> Outcome {
    (
        DesktopState { status: message, ..st },
        seq![AppActionView::Log("error: "@ + message), AppActionView::Alert(message)],
    )
}

/// A stop request for job `id` is sent.
pub open spec fn submit_stop_spec(st: DesktopState, id: u64, log: Seq<char>) -> Outcome {
    (
        DesktopState { recorder_state: RecorderState::Stopping, status: "Stopping"@, ..st },
        seq![AppActionView::Log(log), AppActionView::StopJob(id), AppActionView::Redraw],
    )
}

/// The user asks for the permission status; the targets are loaded after
/// if it is granted and `refresh` is set.
pub open spec fn refresh_permission_spec(st: DesktopState, refresh: bool) -> Outcome {
    if st.permission_busy {
        (st, seq![])
    } else {
        (
            DesktopState { permission_busy: true, status: "Checking Screen Recording permission"@, ..st },
            seq![
                AppActionView::Log("checking Screen Recording permission"@),
                AppActionView::CheckPermission { refresh_targets_after_granted: refresh },
                AppActionView::Redraw,
            ],
        )
    }
}

/// The user asks for the screen recording permission.
pub open spec fn request_permission_spec(st: DesktopState) -> Outcome {
    if st.permission_busy {
        (st, seq![])
    } else {
        (
            DesktopState { permission_busy: true, status: "Requesting Screen Recording permission"@, ..st },
            seq![
                AppActionView::Log("requesting Screen Recording permission"@),
                AppActionView::RequestPermission,
                AppActionView::Redraw,
            ],
        )
    }
}

/// The capture targets are loaded again, unless the recorder is busy or
/// recording, or the permission is missing.
pub open spec fn refresh_targets_spec(st: DesktopState) -> Outcome {
    if is_busy_state(st.recorder_state) || st.recorder_state == RecorderState::Recording {
        (st, seq![])
    } else if st.permission_status != ScreenRecordingPermissionStatus::Granted {
        (st, seq![AppActionView::Log("target refresh skipped: Screen Recording permission missing"@)])
    } else {
        (
            DesktopState { recorder_state: RecorderState::LoadingTargets, status: "Loading capture targets"@, ..st },
            seq![AppActionView::Log("loading capture targets"@), AppActionView::ListTargets, AppActionView::Redraw],
        )
    }
}

/// A recording of `target` is requested: the previous job is forgotten and
/// the app's windows are kept out of the recording when `hide` is set.
pub open spec fn start_recording_spec(st: DesktopState, target: CaptureTargetView, hide: bool) -> Outcome {
    (
        DesktopState {
            recorder_state: RecorderState::Starting,
            status: "Starting "@ + target.name,
            active_job_id: None,
            active_job_event_count: 0,
            active_output_path: None,
            metrics_elapsed_secs: None,
            ..st
        },
        seq![AppActionView::ClearMetrics, AppActionView::Log("target: "@ + target.name)]
            + (if hide {
                seq![AppActionView::Log("hiding Wrec from recording"@), AppActionView::ExcludeFromCapture(true)]
            } else {
                seq![AppActionView::ExcludeFromCapture(false)]
            })
            + seq![AppActionView::StartJob(target), AppActionView::Redraw],
    )
}

/// The record button: it stops the active session, or starts recording the
/// selected target.
pub open spec fn toggle_recording_spec(st: DesktopState, target: Option<CaptureTargetView>, hide: bool) -> Outcome {
    if is_busy_state(st.recorder_state) && !is_active_state(st.recorder_state) {
        (st, seq![AppActionView::Log("recorder is busy"@)])
    } else if is_active_state(st.recorder_state) {
        if is_busy_state(st.recorder_state) {
            (st, seq![AppActionView::Log("recorder is busy"@)])
        } else {
            match st.active_job_id {
                None => show_error_spec(st, "No active daemon job to stop"@),
                Some(id) => submit_stop_spec(st, id, "stopping recording"@),
            }
        }
    } else if st.permission_status != ScreenRecordingPermissionStatus::Granted {
        show_error_spec(st, "Screen Recording permission is required"@)
    } else {
        match target {
            None => show_error_spec(st, "No capture target selected"@),
            Some(t) => start_recording_spec(st, t, hide),
        }
    }
}

/// The pause button: it pauses a recording or resumes a paused one.
pub open spec fn toggle_pause_spec(st: DesktopState) -> Outcome {
    match st.recorder_state {
        RecorderState::Recording => match st.active_job_id {
            None => show_error_spec(st, "No active daemon job to pause"@),
            Some(id) => (
                DesktopState { recorder_state: RecorderState::Pausing, status: "Pausing"@, ..st },
                seq![AppActionView::Log("pausing recording"@), AppActionView::PauseJob(id), AppActionView::Redraw],
            ),
        },
        RecorderState::Paused => match st.active_job_id {
            None => show_error_spec(st, "No active daemon job to resume"@),
            Some(id) => (
                DesktopState { recorder_state: RecorderState::Resuming, status: "Resuming"@, ..st },
                seq![AppActionView::Log("resuming recording"@), AppActionView::ResumeJob(id), AppActionView::Redraw],
            ),
        },
        _ => show_error_spec(st, "Recording is not ready to pause or resume"@),
    }
}

/// An action that asks the daemon to do something to a recording job.
pub open spec fn is_job_request(a: AppActionView) -> bool {
    a is StartJob || a is StopJob || a is PauseJob || a is ResumeJob
}

/// The pause button resumes a paused job and pauses a running one: from
/// `Paused` with an active job it sends that job exactly one request,
/// `ResumeJob`, and shows `Resuming`; from `Recording` exactly one,
/// `PauseJob`, and shows `Pausing`. Without an active job, or in any other
/// state, it sends no job request and leaves the recorder state as it was.
pub proof fn the_pause_button_resumes_a_paused_job_and_pauses_a_running_one(st: DesktopState)
    ensures
        ({
            let (next, acts) = toggle_pause_spec(st);
            &&& (st.recorder_state == RecorderState::Paused && st.active_job_id is Some) ==> {
                &&& next.recorder_state == RecorderState::Resuming
                &&& acts.contains(AppActionView::ResumeJob(st.active_job_id->0))
                &&& forall|i: int| 0 <= i < acts.len() && is_job_request(#[trigger] acts[i])
                        ==> acts[i] == AppActionView::ResumeJob(st.active_job_id->0)
                &&& forall|i: int, j: int| 0 <= i < acts.len() && 0 <= j < acts.len()
                        && is_job_request(#[trigger] acts[i]) && is_job_request(#[trigger] acts[j]) ==> i == j
            }
            &&& (st.recorder_state == RecorderState::Recording && st.active_job_id is Some) ==> {
                &&& next.recorder_state == RecorderState::Pausing
                &&& acts.contains(AppActionView::PauseJob(st.active_job_id->0))
                &&& forall|i: int| 0 <= i < acts.len() && is_job_request(#[trigger] acts[i])
                        ==> acts[i] == AppActionView::PauseJob(st.active_job_id->0)
                &&& forall|i: int, j: int| 0 <= i < acts.len() && 0 <= j < acts.len()
                        && is_job_request(#[trigger] acts[i]) && is_job_request(#[trigger] acts[j]) ==> i == j
            }
            &&& !((st.recorder_state == RecorderState::Paused || st.recorder_state == RecorderState::Recording)
                    && st.active_job_id is Some) ==> {
                &&& next.recorder_state == st.recorder_state
                &&& forall|i: int| 0 <= i < acts.len() ==> !is_job_request(#[trigger] acts[i])
            }
        }),
{
    let (next, acts) = toggle_pause_spec(st);
    if (st.recorder_state == RecorderState::Paused || st.recorder_state == RecorderState::Recording)
        && st.active_job_id is Some {
        assert(acts.len() == 3);
        assert(acts[1] == (if st.recorder_state == RecorderState::Paused {
            AppActionView::ResumeJob(st.active_job_id->0)
        } else {
            AppActionView::PauseJob(st.active_job_id->0)
        }));
        assert(!is_job_request(acts[0]) && !is_job_request(acts[2]));
    } else {
        assert(acts.len() == 2);
        assert(!is_job_request(acts[0]) && !is_job_request(acts[1]));
    }
}

/// The user asks to quit: the app quits at once unless a session is under
/// way or starting; then it waits for the stop, or asks first.
pub open spec fn request_quit_spec(st: DesktopState, dialog_open: bool) -> (bool, DesktopState, Seq<AppActionView>) {
    if !is_active_state(st.recorder_state) && st.recorder_state != RecorderState::Starting {
        (true, st, seq![AppActionView::Quit])
    } else if st.quit_after_stop || st.recorder_state == RecorderState::Stopping {
        (
            false,
            DesktopState { quit_after_stop: true, ..st },
            seq![AppActionView::Log("waiting for recording to stop before quitting"@), AppActionView::Redraw],
        )
    } else if !dialog_open {
        (false, st, seq![AppActionView::ShowQuitDialog])
    } else {
        (false, st, seq![])
    }
}

/// The user confirms stopping and quitting.
pub open spec fn stop_and_quit_spec(st: DesktopState) -> Outcome {
    if st.recorder_state == RecorderState::Starting {
        (
            DesktopState { quit_after_stop: true, status: "Will quit after recording starts"@, ..st },
            seq![AppActionView::Log("waiting for recording to start before quitting"@), AppActionView::Redraw],
        )
    } else if st.recorder_state == RecorderState::Stopping {
        (
            DesktopState { quit_after_stop: true, ..st },
            seq![AppActionView::Log("waiting for recording to stop before quitting"@), AppActionView::Redraw],
        )
    } else if is_busy_state(st.recorder_state) {
        show_error_spec(st, "Recording is busy. Try quitting again in a moment."@)
    } else {
        match st.active_job_id {
            None => show_error_spec(st, "No active daemon job to stop"@),
            Some(id) => submit_stop_spec(DesktopState { quit_after_stop: true, ..st }, id, "stopping recording before quit"@),
        }
    }
}

fn emit(actions: &mut Vec<AppAction>, a: AppAction)
    ensures
        actions_view(final(actions)@) == actions_view(old(actions)@).push(a@),
{
    let ghost before = actions@;
    actions.push(a);
    assert(actions_view(actions@) =~= actions_view(before).push(a@));
}

fn text(s: &str) -> (r: String)
    ensures
        r@ == s@,
{
    s.to_string()
}

fn prefixed(prefix: &str, s: &String) -> (r: String)
    ensures
        r@ == prefix@ + s@,
{
    let mut m: Vec<char> = Vec::new();
    push_str(&mut m, prefix);
    push_chars(&mut m, &chars_of(s.as_str()));
    assert(Seq::<char>::empty() + prefix@ == prefix@);
    string_of(&m)
}

fn copy_text(s: &String) -> (r: String)
    ensures
        r@ == s@,
{
    s.clone()
}

impl AppSession {
    /// The state of a freshly opened app, with the status line `status`.
    pub fn new(status: String) -> (r: AppSession)
        ensures
            r@ == (DesktopState {
                recorder_state: RecorderState::Idle,
                permission_status: ScreenRecordingPermissionStatus::Unknown,
                permission_busy: false,
                active_job_id: None,
                active_job_event_count: 0,
                active_output_path: None,
                quit_after_stop: false,
                status: status@,
                metrics_elapsed_secs: None,
            }),
    {
        AppSession {
            recorder_state: RecorderState::Idle,
            permission_status: ScreenRecordingPermissionStatus::Unknown,
            permission_busy: false,
            active_job_id: None,
            active_job_event_count: 0,
            active_output_path: None,
            quit_after_stop: false,
            status,
            metrics_elapsed_secs: None,
        }
    }

    fn show_error(&mut self, message: String, actions: &mut Vec<AppAction>)
        ensures
            final(self)@ == show_error_spec(old(self)@, message@).0,
            actions_view(final(actions)@) == actions_view(old(actions)@) + show_error_spec(old(self)@, message@).1,
    {
        let ghost a0 = actions_view(actions@);
        emit(actions, AppAction::Log(prefixed("error: ", &message)));
        emit(actions, AppAction::Alert(copy_text(&message)));
        self.status = message;
        assert(actions_view(actions@) =~= a0 + show_error_spec(old(self)@, message@).1);
    }

    fn submit_stop_job(&mut self, job_id: u64, log_message: &str, actions: &mut Vec<AppAction>)
        ensures
            final(self)@ == submit_stop_spec(old(self)@, job_id, log_message@).0,
            actions_view(final(actions)@) == actions_view(old(actions)@) + submit_stop_spec(old(self)@, job_id, log_message@).1,
    {
        let ghost a0 = actions_view(actions@);
        self.recorder_state = RecorderState::Stopping;
        self.status = text("Stopping");
        emit(actions, AppAction::Log(text(log_message)));
        emit(actions, AppAction::StopJob(job_id));
        emit(actions, AppAction::Redraw);
        assert(actions_view(actions@) =~= a0 + submit_stop_spec(old(self)@, job_id, log_message@).1);
    }

    /// Whether a reply about job `job_id` belongs to the active job.
    pub fn should_accept_job(&self, job_id: u64) -> (r: bool)
        ensures
            r == (self.active_job_id == Some(job_id)),
    {
        match self.active_job_id {
            Some(id) => id == job_id,
            None => false,
        }
    }

    /// The user asks for the permission status.
    pub fn refresh_permission_status(&mut self, refresh_targets_after_granted: bool) -> (r: Vec<AppAction>)
        ensures
            (final(self)@, actions_view(r@)) == refresh_permission_spec(old(self)@, refresh_targets_after_granted),
    {
        let mut actions: Vec<AppAction> = Vec::new();
        if self.permission_busy {
            assert(actions_view(actions@) =~= Seq::<AppActionView>::empty());
            return actions;
        }
        self.permission_busy = true;
        self.status = text("Checking Screen Recording permission");
        emit(&mut actions, AppAction::Log(text("checking Screen Recording permission")));
        emit(&mut actions, AppAction::CheckPermission { refresh_targets_after_granted });
        emit(&mut actions, AppAction::Redraw);
        assert(actions_view(actions@) =~= refresh_permission_spec(old(self)@, refresh_targets_after_granted).1);
        actions
    }

    /// The user asks for the screen recording permission.
    pub fn request_screen_recording_permission(&mut self) -> (r: Vec<AppAction>)
        ensures
            (final(self)@, actions_view(r@)) == request_permission_spec(old(self)@),
    {
        let mut actions: Vec<AppAction> = Vec::new();
        if self.permission_busy {
            assert(actions_view(actions@) =~= Seq::<AppActionView>::empty());
            return actions;
        }
        self.permission_busy = true;
        self.status = text("Requesting Screen Recording permission");
        emit(&mut actions, AppAction::Log(text("requesting Screen Recording permission")));
        emit(&mut actions, AppAction::RequestPermission);
        emit(&mut actions, AppAction::Redraw);
        assert(actions_view(actions@) =~= request_permission_spec(old(self)@).1);
        actions
    }

    fn refresh_targets_into(&mut self, actions: &mut Vec<AppAction>)
        ensures
            final(self)@ == refresh_targets_spec(old(self)@).0,
            actions_view(final(actions)@) == actions_view(old(actions)@) + refresh_targets_spec(old(self)@).1,
    {
        let ghost a0 = actions_view(actions@);
        if self.recorder_state.is_busy() || self.recorder_state.is_recording() {
            assert(actions_view(actions@) =~= a0 + Seq::<AppActionView>::empty());
            return;
        }
        if !self.permission_status.is_granted() {
            emit(actions, AppAction::Log(text("target refresh skipped: Screen Recording permission missing")));
            assert(actions_view(actions@) =~= a0 + refresh_targets_spec(old(self)@).1);
            return;
        }
        self.recorder_state = RecorderState::LoadingTargets;
        self.status = text("Loading capture targets");
        emit(actions, AppAction::Log(text("loading capture targets")));
        emit(actions, AppAction::ListTargets);
        emit(actions, AppAction::Redraw);
        assert(actions_view(actions@) =~= a0 + refresh_targets_spec(old(self)@).1);
    }

    /// The capture targets are loaded again, where the state allows it.
    pub fn refresh_targets(&mut self) -> (r: Vec<AppAction>)
        ensures
            (final(self)@, actions_view(r@)) == refresh_targets_spec(old(self)@),
    {
        let mut actions: Vec<AppAction> = Vec::new();
        self.refresh_targets_into(&mut actions);
        assert(actions_view(actions@) =~= refresh_targets_spec(old(self)@).1);
        actions
    }

    fn start_recording(&mut self, target: CaptureTarget, hide_wrec: bool, actions: &mut Vec<AppAction>)
        ensures
            final(self)@ == start_recording_spec(old(self)@, target@, hide_wrec).0,
            actions_view(final(actions)@) == actions_view(old(actions)@) + start_recording_spec(old(self)@, target@, hide_wrec).1,
    {
        let ghost a0 = actions_view(actions@);
        self.recorder_state = RecorderState::Starting;
        self.status = prefixed("Starting ", &target.name);
        self.metrics_elapsed_secs = None;
        emit(actions, AppAction::ClearMetrics);
        emit(actions, AppAction::Log(prefixed("target: ", &target.name)));
        if hide_wrec {
            emit(actions, AppAction::Log(text("hiding Wrec from recording")));
            emit(actions, AppAction::ExcludeFromCapture(true));
        } else {
            emit(actions, AppAction::ExcludeFromCapture(false));
        }
        self.active_job_id = None;
        self.active_job_event_count = 0;
        self.active_output_path = None;
        emit(actions, AppAction::StartJob(target));
        emit(actions, AppAction::Redraw);
        assert(actions_view(actions@) =~= a0 + start_recording_spec(old(self)@, target@, hide_wrec).1);
    }

    /// The record button, with the target selected in the window and the
    /// setting that keeps the app out of the recording.
    pub fn toggle_recording(&mut self, selected_target: Option<CaptureTarget>, hide_wrec: bool) -> (r: Vec<AppAction>)
        ensures
            (final(self)@, actions_view(r@)) == toggle_recording_spec(
                old(self)@,
                match selected_target { Some(t) => Some(t@), None => None },
                hide_wrec,
            ),
    {
        let mut actions: Vec<AppAction> = Vec::new();
        let ghost st = self@;
        if self.recorder_state.is_busy() && !self.recorder_state.is_active_session() {
            emit(&mut actions, AppAction::Log(text("recorder is busy")));
            assert(actions_view(actions@) =~= seq![AppActionView::Log("recorder is busy"@)]);
            return actions;
        }
        if self.recorder_state.is_active_session() {
            if self.recorder_state.is_busy() {
                emit(&mut actions, AppAction::Log(text("recorder is busy")));
                assert(actions_view(actions@) =~= seq![AppActionView::Log("recorder is busy"@)]);
                return actions;
            }
            match self.active_job_id {
                None => self.show_error(text("No active daemon job to stop"), &mut actions),
                Some(job_id) => self.submit_stop_job(job_id, "stopping recording", &mut actions),
            }
            assert(actions_view(actions@) =~= toggle_recording_spec(st, match selected_target { Some(t) => Some(t@), None => None }, hide_wrec).1);
            return actions;
        }
        if !self.permission_status.is_granted() {
            self.show_error(text("Screen Recording permission is required"), &mut actions);
            assert(actions_view(actions@) =~= toggle_recording_spec(st, match selected_target { Some(t) => Some(t@), None => None }, hide_wrec).1);
            return actions;
        }
        match selected_target {
            None => self.show_error(text("No capture target selected"), &mut actions),
            Some(target) => self.start_recording(target, hide_wrec, &mut actions),
        }
        assert(actions_view(actions@) =~= toggle_recording_spec(st, match selected_target { Some(t) => Some(t@), None => None }, hide_wrec).1);
        actions
    }

    /// The pause button.
    pub fn toggle_pause(&mut self) -> (r: Vec<AppAction>)
        ensures
            (final(self)@, actions_view(r@)) == toggle_pause_spec(old(self)@),
    {
        let mut actions: Vec<AppAction> = Vec::new();
        let ghost st = self@;
        match self.recorder_state {
            RecorderState::Recording => match self.active_job_id {
                None => self.show_error(text("No active daemon job to pause"), &mut actions),
                Some(job_id) => {
                    self.recorder_state = RecorderState::Pausing;
                    self.status = text("Pausing");
                    emit(&mut actions, AppAction::Log(text("pausing recording")));
                    emit(&mut actions, AppAction::PauseJob(job_id));
                    emit(&mut actions, AppAction::Redraw);
                },
            },
            RecorderState::Paused => match self.active_job_id {
                None => self.show_error(text("No active daemon job to resume"), &mut actions),
                Some(job_id) => {
                    self.recorder_state = RecorderState::Resuming;
                    self.status = text("Resuming");
                    emit(&mut actions, AppAction::Log(text("resuming recording")));
                    emit(&mut actions, AppAction::ResumeJob(job_id));
                    emit(&mut actions, AppAction::Redraw);
                },
            },
            _ => self.show_error(text("Recording is not ready to pause or resume"), &mut actions),
        }
        assert(actions_view(actions@) =~= toggle_pause_spec(st).1);
        actions
    }

    /// The user asks to quit, with whether a dialog is open already; says
    /// whether the app quits now.
    pub fn request_quit(&mut self, dialog_open: bool) -> (r: (bool, Vec<AppAction>))
        ensures
            (r.0, final(self)@, actions_view(r.1@)) == request_quit_spec(old(self)@, dialog_open),
    {
        let mut actions: Vec<AppAction> = Vec::new();
        if !self.recorder_state.is_active_session() && self.recorder_state != RecorderState::Starting {
            emit(&mut actions, AppAction::Quit);
            assert(actions_view(actions@) =~= seq![AppActionView::Quit]);
            return (true, actions);
        }
        if self.quit_after_stop || self.recorder_state == RecorderState::Stopping {
            self.quit_after_stop = true;
            emit(&mut actions, AppAction::Log(text("waiting for recording to stop before quitting")));
            emit(&mut actions, AppAction::Redraw);
            assert(actions_view(actions@) =~= request_quit_spec(old(self)@, dialog_open).2);
            return (false, actions);
        }
        if !dialog_open {
            emit(&mut actions, AppAction::ShowQuitDialog);
        }
        assert(actions_view(actions@) =~= request_quit_spec(old(self)@, dialog_open).2);
        (false, actions)
    }

    /// The user confirms stopping the recording and quitting.
    pub fn stop_recording_and_quit(&mut self) -> (r: Vec<AppAction>)
        ensures
            (final(self)@, actions_view(r@)) == stop_and_quit_spec(old(self)@),
    {
        let mut actions: Vec<AppAction> = Vec::new();
        let ghost st = self@;
        if self.recorder_state == RecorderState::Starting {
            self.quit_after_stop = true;
            self.status = text("Will quit after recording starts");
            emit(&mut actions, AppAction::Log(text("waiting for recording to start before quitting")));
            emit(&mut actions, AppAction::Redraw);
        } else if self.recorder_state == RecorderState::Stopping {
            self.quit_after_stop = true;
            emit(&mut actions, AppAction::Log(text("waiting for recording to stop before quitting")));
            emit(&mut actions, AppAction::Redraw);
        } else if self.recorder_state.is_busy() {
            self.show_error(text("Recording is busy. Try quitting again in a moment."), &mut actions);
        } else {
            match self.active_job_id {
                None => self.show_error(text("No active daemon job to stop"), &mut actions),
                Some(job_id) => {
                    self.quit_after_stop = true;
                    self.submit_stop_job(job_id, "stopping recording before quit", &mut actions);
                },
            }
        }
        assert(actions_view(actions@) =~= stop_and_quit_spec(st).1);
        actions
    }
}

/// What the decisions read of a job reply.
pub struct JobView {
    pub id: u64,
    pub status: JobStatus,
    pub target_name: Option<Seq<char>>,
    pub output_path: Option<Seq<char>>,
    pub events: Seq<JobEventView>,
}

/// A job reply as the decisions read it.
pub open spec fn job_view(j: JobSnapshot) -> JobView {
    JobView {
        id: j.id,
        status: j.status,
        target_name: match j.target {
            Some(t) => Some(t.name@),
            None => None,
        },
        output_path: opt_text(j.output_path),
        events: events_view(j.events@),
    }
}

/// The message of the last error among the events.
pub open spec fn latest_error(es: Seq<JobEventView>) -> Option<Seq<char>>
    decreases es.len(),
{
    if es.len() == 0 {
        None
    } else if es.last().level == EventLevel::Error {
        Some(es.last().message)
    } else {
        latest_error(es.drop_last())
    }
}

/// A log line for each event from `from` on.
pub open spec fn event_logs(es: Seq<JobEventView>, from: nat) -> Seq<AppActionView> {
    if from < es.len() {
        Seq::new((es.len() - from) as nat, |i: int| AppActionView::Log(es[from + i].message))
    } else {
        seq![]
    }
}

/// A message that tells of the screen recording permission.
pub open spec fn is_permission_text(m: Seq<char>) -> bool {
    contains_seq(m, "Screen Recording"@) || contains_seq(m, "screen recording permission"@)
}

/// What a job's status does to the app, once the job's output file and
/// events have been taken in.
pub open spec fn job_status_spec(s1: DesktopState, j: JobView, quit: bool, was_stopping: bool) -> Outcome {
    match j.status {
        JobStatus::Queued | JobStatus::Starting => (
            DesktopState {
                recorder_state: RecorderState::Starting,
                status: match j.target_name {
                    Some(n) => "Starting "@ + n,
                    None => "Starting"@,
                },
                ..s1
            },
            seq![AppActionView::OpenControlWindow, AppActionView::UpdateControlWindow],
        ),
        JobStatus::Recording => (
            DesktopState {
                recorder_state: RecorderState::Recording,
                status: match j.output_path {
                    Some(p) => "Recording to "@ + p,
                    None => "Recording"@,
                },
                ..s1
            },
            seq![AppActionView::OpenControlWindow, AppActionView::UpdateControlWindow],
        ),
        JobStatus::Paused => (
            DesktopState { recorder_state: RecorderState::Paused, status: "Paused"@, ..s1 },
            seq![AppActionView::UpdateControlWindow],
        ),
        JobStatus::Finishing => (DesktopState { recorder_state: RecorderState::Stopping, status: "Stopping"@, ..s1 }, seq![]),
        JobStatus::Completed => {
            let s3 = DesktopState {
                active_job_id: None,
                active_job_event_count: 0,
                active_output_path: None,
                recorder_state: RecorderState::Idle,
                status: match j.output_path {
                    Some(p) => "Saved to "@ + p,
                    None => "Recording completed"@,
                },
                ..s1
            };
            let closing = seq![AppActionView::CloseControlWindow, AppActionView::ExcludeFromCapture(false)];
            if quit {
                (
                    DesktopState { quit_after_stop: false, ..s3 },
                    closing + seq![AppActionView::Log("recording saved; quitting Wrec"@), AppActionView::Quit],
                )
            } else if was_stopping {
                (
                    s3,
                    closing + seq![
                        AppActionView::ActivateWindow,
                        AppActionView::OpenLastRecordingFolder,
                        AppActionView::Notify("Recording stopped"@),
                    ],
                )
            } else {
                (s3, closing + seq![AppActionView::ActivateWindow])
            }
        },
        JobStatus::Failed | JobStatus::Cancelled => {
            let message = match latest_error(j.events) {
                Some(m) => m,
                None => if j.status == JobStatus::Cancelled { "Recording cancelled"@ } else { "Recording failed"@ },
            };
            let s3 = DesktopState {
                active_job_id: None,
                active_job_event_count: 0,
                active_output_path: None,
                quit_after_stop: false,
                recorder_state: RecorderState::Failed,
                status: message,
                permission_status: if is_permission_text(message) {
                    ScreenRecordingPermissionStatus::Missing
                } else {
                    s1.permission_status
                },
                ..s1
            };
            let shown = show_error_spec(s3, message);
            (
                shown.0,
                seq![AppActionView::CloseControlWindow, AppActionView::ExcludeFromCapture(false), AppActionView::ActivateWindow] + shown.1,
            )
        },
    }
}

/// The metrics of the last event that reports some.
pub open spec fn latest_metrics(es: Seq<JobEventView>) -> Option<JobMetrics>
    decreases es.len(),
{
    if es.len() == 0 {
        None
    } else if es.last().metrics is Some {
        es.last().metrics
    } else {
        latest_metrics(es.drop_last())
    }
}

/// What a reply about the active job does before its status decides: its
/// output file is kept and that file's folder remembered as the last
/// recording's, its new events are logged, and the metrics of its last
/// event that has some are kept, shown and sent to the control window when
/// their elapsed time changed.
pub open spec fn job_intake(st: DesktopState, j: JobView) -> Outcome {
    let lm = latest_metrics(j.events);
    (
        DesktopState {
            active_output_path: match j.output_path {
                Some(p) => Some(p),
                None => st.active_output_path,
            },
            active_job_event_count: j.events.len(),
            metrics_elapsed_secs: match lm {
                Some(m) => Some(m.elapsed_secs),
                None => st.metrics_elapsed_secs,
            },
            ..st
        },
        (match j.output_path {
            Some(p) => seq![AppActionView::RememberRecordingFolder(path_parent(p))],
            None => Seq::<AppActionView>::empty(),
        }) + event_logs(j.events, st.active_job_event_count) + (match lm {
            Some(m) => if st.metrics_elapsed_secs != Some(m.elapsed_secs) {
                seq![AppActionView::ShowMetrics(m), AppActionView::UpdateControlWindow]
            } else {
                Seq::<AppActionView>::empty()
            },
            None => Seq::<AppActionView>::empty(),
        }),
    )
}

/// A job reply is taken in, if it is about the active job: its output file,
/// events and metrics are taken in, and its status decides the rest.
pub open spec fn apply_job_spec(st: DesktopState, j: JobView) -> Outcome {
    if st.active_job_id != Some(j.id) {
        (st, seq![])
    } else {
        let pre = job_intake(st, j);
        let next = job_status_spec(pre.0, j, st.quit_after_stop, st.recorder_state == RecorderState::Stopping);
        (next.0, pre.1 + next.1 + seq![AppActionView::Redraw])
    }
}

proof fn lemma_latest_metrics(es: Seq<JobEventView>, k: int)
    requires
        0 <= k <= es.len(),
        forall|j: int| k <= j < es.len() ==> es[j].metrics is None,
    ensures
        latest_metrics(es) == latest_metrics(es.take(k)),
    decreases es.len() - k,
{
    if k == es.len() {
        assert(es.take(k) =~= es);
    } else {
        let d = es.drop_last();
        assert(d.take(k) =~= es.take(k));
        lemma_latest_metrics(d, k);
    }
}

/// The metrics of the last event of a job that reports some.
pub fn latest_job_metrics(events: &Vec<JobEvent>) -> (r: Option<JobMetrics>)
    ensures
        r == latest_metrics(events_view(events@)),
{
    let ghost es = events_view(events@);
    let mut i: usize = events.len();
    while i > 0
        invariant
            i <= events.len(),
            es == events_view(events@),
            forall|j: int| i <= j < es.len() ==> es[j].metrics is None,
        decreases i,
    {
        i = i - 1;
        match events[i].metrics {
            Some(m) => {
                proof {
                    lemma_latest_metrics(es, i + 1);
                    assert(es.take(i + 1).drop_last() =~= es.take(i as int));
                }
                return Some(m);
            },
            None => {},
        }
    }
    proof {
        lemma_latest_metrics(es, 0);
    }
    None
}

proof fn lemma_latest_error(es: Seq<JobEventView>, k: int)
    requires
        0 <= k <= es.len(),
        forall|j: int| k <= j < es.len() ==> es[j].level != EventLevel::Error,
    ensures
        latest_error(es) == latest_error(es.take(k)),
    decreases es.len() - k,
{
    if k == es.len() {
        assert(es.take(k) =~= es);
    } else {
        let d = es.drop_last();
        assert(d.take(k) =~= es.take(k));
        lemma_latest_error(d, k);
    }
}

/// The message of the last error event of a job.
pub fn latest_error_message(events: &Vec<JobEvent>) -> (r: Option<String>)
    ensures
        opt_text(r) == latest_error(events_view(events@)),
{
    let ghost es = events_view(events@);
    let mut i: usize = events.len();
    while i > 0
        invariant
            i <= events.len(),
            es == events_view(events@),
            forall|j: int| i <= j < es.len() ==> es[j].level != EventLevel::Error,
        decreases i,
    {
        i = i - 1;
        if events[i].level == EventLevel::Error {
            proof {
                lemma_latest_error(es, i + 1);
                assert(es.take(i + 1).drop_last() =~= es.take(i as int));
            }
            return Some(copy_text(&events[i].message));
        }
    }
    proof {
        lemma_latest_error(es, 0);
    }
    None
}

/// Whether a message tells of the screen recording permission.
pub fn is_permission_message(message: &String) -> (r: bool)
    ensures
        r == is_permission_text(message@),
{
    let cs = chars_of(message.as_str());
    contains(&cs, &chars_of("Screen Recording")) || contains(&cs, &chars_of("screen recording permission"))
}

impl AppSession {
    fn log_new_events(&mut self, events: &Vec<JobEvent>, actions: &mut Vec<AppAction>)
        ensures
            final(self)@ == (DesktopState { active_job_event_count: events@.len(), ..old(self)@ }),
            actions_view(final(actions)@) == actions_view(old(actions)@) + event_logs(events_view(events@), old(self)@.active_job_event_count),
    {
        let ghost a0 = actions_view(actions@);
        let ghost es = events_view(events@);
        let ghost from = self.active_job_event_count as nat;
        let mut i: usize = self.active_job_event_count;
        if i < events.len() {
            while i < events.len()
                invariant
                    from <= i <= events.len(),
                    from < es.len(),
                    es == events_view(events@),
                    actions_view(actions@) == a0 + event_logs(es, from).take(i - from),
                decreases events.len() - i,
            {
                emit(actions, AppAction::Log(copy_text(&events[i].message)));
                assert(event_logs(es, from).take(i + 1 - from) =~= event_logs(es, from).take(i - from).push(
                    AppActionView::Log(es[i as int].message),
                ));
                i = i + 1;
            }
            assert(event_logs(es, from).take(es.len() - from) =~= event_logs(es, from));
        } else {
            assert(actions_view(actions@) =~= a0 + event_logs(es, from));
        }
        self.active_job_event_count = events.len();
    }

    #[verifier::rlimit(40)]
    fn apply_job_status(&mut self, job: &JobSnapshot, quit: bool, was_stopping: bool, actions: &mut Vec<AppAction>)
        ensures
            final(self)@ == job_status_spec(old(self)@, job_view(*job), quit, was_stopping).0,
            actions_view(final(actions)@) == actions_view(old(actions)@) + job_status_spec(old(self)@, job_view(*job), quit, was_stopping).1,
    {
        let ghost a0 = actions_view(actions@);
        let ghost st = self@;
        match job.status {
            JobStatus::Queued | JobStatus::Starting => {
                self.recorder_state = RecorderState::Starting;
                self.status = match &job.target {
                    Some(t) => prefixed("Starting ", &t.name),
                    None => text("Starting"),
                };
                emit(actions, AppAction::OpenControlWindow);
                emit(actions, AppAction::UpdateControlWindow);
            },
            JobStatus::Recording => {
                self.recorder_state = RecorderState::Recording;
                self.status = match &job.output_path {
                    Some(p) => prefixed("Recording to ", p),
                    None => text("Recording"),
                };
                emit(actions, AppAction::OpenControlWindow);
                emit(actions, AppAction::UpdateControlWindow);
            },
            JobStatus::Paused => {
                self.recorder_state = RecorderState::Paused;
                self.status = text("Paused");
                emit(actions, AppAction::UpdateControlWindow);
            },
            JobStatus::Finishing => {
                self.recorder_state = RecorderState::Stopping;
                self.status = text("Stopping");
            },
            JobStatus::Completed => {
                emit(actions, AppAction::CloseControlWindow);
                emit(actions, AppAction::ExcludeFromCapture(false));
                self.active_job_id = None;
                self.active_job_event_count = 0;
                self.active_output_path = None;
                self.recorder_state = RecorderState::Idle;
                self.status = match &job.output_path {
                    Some(p) => prefixed("Saved to ", p),
                    None => text("Recording completed"),
                };
                if quit {
                    self.quit_after_stop = false;
                    emit(actions, AppAction::Log(text("recording saved; quitting Wrec")));
                    emit(actions, AppAction::Quit);
                } else if was_stopping {
                    emit(actions, AppAction::ActivateWindow);
                    emit(actions, AppAction::OpenLastRecordingFolder);
                    emit(actions, AppAction::Notify(text("Recording stopped")));
                } else {
                    emit(actions, AppAction::ActivateWindow);
                }
            },
            JobStatus::Failed | JobStatus::Cancelled => {
                emit(actions, AppAction::CloseControlWindow);
                emit(actions, AppAction::ExcludeFromCapture(false));
                let message = match latest_error_message(&job.events) {
                    Some(m) => m,
                    None => if job.status == JobStatus::Cancelled {
                        text("Recording cancelled")
                    } else {
                        text("Recording failed")
                    },
                };
                self.active_job_id = None;
                self.active_job_event_count = 0;
                self.active_output_path = None;
                self.quit_after_stop = false;
                self.recorder_state = RecorderState::Failed;
                self.status = copy_text(&message);
                if is_permission_message(&message) {
                    self.permission_status = ScreenRecordingPermissionStatus::Missing;
                }
                emit(actions, AppAction::ActivateWindow);
                self.show_error(message, actions);
            },
        }
        assert(actions_view(actions@) =~= a0 + job_status_spec(st, job_view(*job), quit, was_stopping).1);
    }

    fn take_in_output_path(&mut self, job: &JobSnapshot, actions: &mut Vec<AppAction>)
        ensures
            final(self)@ == (DesktopState {
                active_output_path: match job_view(*job).output_path {
                    Some(p) => Some(p),
                    None => old(self)@.active_output_path,
                },
                ..old(self)@
            }),
            actions_view(final(actions)@) == actions_view(old(actions)@) + (match job_view(*job).output_path {
                Some(p) => seq![AppActionView::RememberRecordingFolder(path_parent(p))],
                None => Seq::<AppActionView>::empty(),
            }),
    {
        let ghost a0 = actions_view(actions@);
        match &job.output_path {
            Some(p) => {
                self.active_output_path = Some(copy_text(p));
                let folder = parent_of(p);
                emit(actions, AppAction::RememberRecordingFolder(folder));
            },
            None => {},
        }
        assert(actions_view(actions@) =~= a0 + (match job_view(*job).output_path {
            Some(p) => seq![AppActionView::RememberRecordingFolder(path_parent(p))],
            None => Seq::<AppActionView>::empty(),
        }));
    }

    fn take_in_metrics(&mut self, job: &JobSnapshot, actions: &mut Vec<AppAction>)
        ensures
            final(self)@ == (DesktopState {
                metrics_elapsed_secs: match latest_metrics(job_view(*job).events) {
                    Some(m) => Some(m.elapsed_secs),
                    None => old(self)@.metrics_elapsed_secs,
                },
                ..old(self)@
            }),
            actions_view(final(actions)@) == actions_view(old(actions)@) + (match latest_metrics(job_view(*job).events) {
                Some(m) => if old(self)@.metrics_elapsed_secs != Some(m.elapsed_secs) {
                    seq![AppActionView::ShowMetrics(m), AppActionView::UpdateControlWindow]
                } else {
                    Seq::<AppActionView>::empty()
                },
                None => Seq::<AppActionView>::empty(),
            }),
    {
        let ghost a0 = actions_view(actions@);
        match latest_job_metrics(&job.events) {
            Some(m) => {
                let changed = match self.metrics_elapsed_secs {
                    Some(e) => e != m.elapsed_secs,
                    None => true,
                };
                self.metrics_elapsed_secs = Some(m.elapsed_secs);
                if changed {
                    emit(actions, AppAction::ShowMetrics(m));
                    emit(actions, AppAction::UpdateControlWindow);
                    assert(actions_view(actions@) =~= a0 + seq![AppActionView::ShowMetrics(m), AppActionView::UpdateControlWindow]);
                } else {
                    assert(actions_view(actions@) =~= a0 + Seq::<AppActionView>::empty());
                }
            },
            None => {
                assert(actions_view(actions@) =~= a0 + Seq::<AppActionView>::empty());
            },
        }
    }

    fn apply_job_into(&mut self, job: &JobSnapshot, actions: &mut Vec<AppAction>)
        ensures
            final(self)@ == apply_job_spec(old(self)@, job_view(*job)).0,
            actions_view(final(actions)@) == actions_view(old(actions)@) + apply_job_spec(old(self)@, job_view(*job)).1,
    {
        let ghost a0 = actions_view(actions@);
        let ghost st = self@;
        if !self.should_accept_job(job.id) {
            assert(actions_view(actions@) =~= a0 + Seq::<AppActionView>::empty());
            return;
        }
        let quit = self.quit_after_stop;
        let was_stopping = self.recorder_state == RecorderState::Stopping;
        self.take_in_output_path(job, actions);
        self.log_new_events(&job.events, actions);
        self.take_in_metrics(job, actions);
        assert(self@ == job_intake(st, job_view(*job)).0);
        assert(actions_view(actions@) =~= a0 + job_intake(st, job_view(*job)).1);
        self.apply_job_status(job, quit, was_stopping, actions);
        emit(actions, AppAction::Redraw);
        assert(actions_view(actions@) =~= a0 + apply_job_spec(st, job_view(*job)).1);
    }

    /// A job reply is taken in, if it is about the active job.
    pub fn apply_job_snapshot(&mut self, job: &JobSnapshot) -> (r: Vec<AppAction>)
        ensures
            (final(self)@, actions_view(r@)) == apply_job_spec(old(self)@, job_view(*job)),
    {
        let mut actions: Vec<AppAction> = Vec::new();
        self.apply_job_into(job, &mut actions);
        assert(actions_view(actions@) =~= apply_job_spec(old(self)@, job_view(*job)).1);
        actions
    }
}

/// What the daemon reported back to the desktop app.
pub enum AppEvent {
    PermissionChecked { result: Result<ScreenRecordingPermissionStatus, String>, refresh_targets_after_granted: bool },
    PermissionRequested(Result<ScreenRecordingPermissionStatus, String>),
    /// The number of capture targets loaded, which the window keeps, or why
    /// none could be.
    TargetsLoaded(Result<usize, String>),
    Started(Result<JobSnapshot, String>),
    JobPolled(Result<JobSnapshot, String>),
    Paused(Result<JobSnapshot, String>),
    Resumed(Result<JobSnapshot, String>),
    Stopped(Result<JobSnapshot, String>),
}

/// A daemon reply about a job as the decisions read it.
pub open spec fn job_result(r: Result<JobSnapshot, String>) -> Result<JobView, Seq<char>> {
    match r {
        Ok(j) => Ok(job_view(j)),
        Err(m) => Err(m@),
    }
}

/// A daemon reply of a permission status as the decisions read it.
pub open spec fn status_result(r: Result<ScreenRecordingPermissionStatus, String>) -> Result<ScreenRecordingPermissionStatus, Seq<char>> {
    match r {
        Ok(s) => Ok(s),
        Err(m) => Err(m@),
    }
}

/// The permission status has been checked.
pub open spec fn permission_checked_spec(st: DesktopState, result: Result<ScreenRecordingPermissionStatus, Seq<char>>, refresh: bool) -> Outcome {
    match result {
        Ok(s) => {
            let s1 = DesktopState { permission_busy: false, permission_status: s, ..st };
            match s {
                ScreenRecordingPermissionStatus::Granted => {
                    let s2 = DesktopState { status: "Ready"@, ..s1 };
                    let a = seq![AppActionView::Log("Screen Recording permission granted"@)];
                    if refresh {
                        let next = refresh_targets_spec(s2);
                        (next.0, a + next.1)
                    } else {
                        (s2, a + seq![AppActionView::Redraw])
                    }
                },
                ScreenRecordingPermissionStatus::Missing => (
                    DesktopState { status: "Screen Recording permission needed"@, ..s1 },
                    seq![
                        AppActionView::ClearTargets,
                        AppActionView::Log("Screen Recording permission missing"@),
                        AppActionView::Redraw,
                    ],
                ),
                ScreenRecordingPermissionStatus::Unknown => (
                    DesktopState { status: "Screen Recording permission unknown"@, ..s1 },
                    seq![AppActionView::Log("Screen Recording permission unknown"@), AppActionView::Redraw],
                ),
            }
        },
        Err(m) => show_error_spec(
            DesktopState { permission_busy: false, permission_status: ScreenRecordingPermissionStatus::Unknown, ..st },
            m,
        ),
    }
}

/// The permission has been requested.
pub open spec fn permission_requested_spec(st: DesktopState, result: Result<ScreenRecordingPermissionStatus, Seq<char>>) -> Outcome {
    match result {
        Ok(s) => {
            let s1 = DesktopState { permission_busy: false, permission_status: s, ..st };
            match s {
                ScreenRecordingPermissionStatus::Granted => (
                    DesktopState { status: "Ready"@, ..s1 },
                    seq![
                        AppActionView::Log("Screen Recording permission granted"@),
                        AppActionView::Notify("Screen Recording permission granted. Refresh targets to continue."@),
                        AppActionView::Redraw,
                    ],
                ),
                ScreenRecordingPermissionStatus::Missing => (
                    DesktopState { status: "Screen Recording permission needed"@, ..s1 },
                    seq![
                        AppActionView::Log("Screen Recording permission still missing"@),
                        AppActionView::Alert("Screen Recording permission is still missing"@),
                        AppActionView::Redraw,
                    ],
                ),
                ScreenRecordingPermissionStatus::Unknown => (
                    DesktopState { status: "Screen Recording permission unknown"@, ..s1 },
                    seq![AppActionView::Log("Screen Recording permission unknown"@), AppActionView::Redraw],
                ),
            }
        },
        Err(m) => show_error_spec(
            DesktopState { permission_busy: false, permission_status: ScreenRecordingPermissionStatus::Unknown, ..st },
            m,
        ),
    }
}

/// The capture targets have been loaded.
pub open spec fn targets_loaded_spec(st: DesktopState, result: Result<usize, Seq<char>>) -> Outcome {
    match result {
        Ok(n) => {
            let message = decimal(n as nat) + " capture targets loaded"@;
            (
                DesktopState { recorder_state: RecorderState::Idle, status: "Idle"@, ..st },
                seq![AppActionView::SyncTargetSelect, AppActionView::Log(message), AppActionView::Notify(message)],
            )
        },
        Err(m) => show_error_spec(
            DesktopState {
                recorder_state: RecorderState::Failed,
                permission_status: if is_permission_text(m) { ScreenRecordingPermissionStatus::Missing } else { st.permission_status },
                ..st
            },
            m,
        ),
    }
}

/// A recording has been submitted. A reply that comes when the app no
/// longer waits for it is only logged.
pub open spec fn started_spec(st: DesktopState, result: Result<JobView, Seq<char>>) -> Outcome {
    match result {
        Ok(j) => if st.recorder_state != RecorderState::Starting {
            (st, seq![AppActionView::Log("ignored late start for job "@ + decimal(j.id as nat)), AppActionView::Redraw])
        } else {
            let applied = apply_job_spec(DesktopState { active_job_id: Some(j.id), active_job_event_count: 0, ..st }, j);
            let s2 = applied.0;
            let a3 = applied.1 + seq![AppActionView::StartJobPoll];
            if s2.quit_after_stop {
                match s2.active_job_id {
                    Some(id) => {
                        let next = submit_stop_spec(s2, id, "stopping recording before quit"@);
                        (next.0, a3 + next.1)
                    },
                    None => {
                        let next = show_error_spec(DesktopState { quit_after_stop: false, ..s2 }, "No active daemon job to stop"@);
                        (next.0, a3 + next.1)
                    },
                }
            } else {
                (s2, a3 + seq![AppActionView::Notify("Recording submitted"@)])
            }
        },
        Err(m) => if st.recorder_state != RecorderState::Starting {
            (st, seq![AppActionView::Log("ignored late start failure: "@ + m), AppActionView::Redraw])
        } else {
            let next = show_error_spec(
                DesktopState {
                    active_job_id: None,
                    active_job_event_count: 0,
                    active_output_path: None,
                    quit_after_stop: false,
                    recorder_state: RecorderState::Failed,
                    permission_status: if is_permission_text(m) { ScreenRecordingPermissionStatus::Missing } else { st.permission_status },
                    ..st
                },
                m,
            );
            (next.0, seq![AppActionView::ExcludeFromCapture(false), AppActionView::ActivateWindow] + next.1)
        },
    }
}

/// The active job has been polled.
pub open spec fn job_polled_spec(st: DesktopState, result: Result<JobView, Seq<char>>) -> Outcome {
    match result {
        Ok(j) => if st.active_job_id == Some(j.id) { apply_job_spec(st, j) } else { (st, seq![]) },
        Err(m) => if st.active_job_id is Some {
            let next = show_error_spec(
                DesktopState { recorder_state: RecorderState::Failed, active_job_id: None, active_output_path: None, ..st },
                m,
            );
            (next.0, seq![AppActionView::ExcludeFromCapture(false)] + next.1)
        } else {
            (st, seq![])
        },
    }
}

/// A pause or resume reply: on success it is taken in if the app still
/// waits for it; on failure the state goes back from `waiting` to `back`.
pub open spec fn pause_reply_spec(st: DesktopState, result: Result<JobView, Seq<char>>, waiting: RecorderState, back: RecorderState) -> Outcome {
    match result {
        Ok(j) => if st.recorder_state != waiting { (st, seq![AppActionView::Redraw]) } else { apply_job_spec(st, j) },
        Err(m) => show_error_spec(
            if st.recorder_state == waiting { DesktopState { recorder_state: back, ..st } } else { st },
            m,
        ),
    }
}

/// A stop reply.
pub open spec fn stopped_spec(st: DesktopState, result: Result<JobView, Seq<char>>) -> Outcome {
    match result {
        Ok(j) => apply_job_spec(st, j),
        Err(m) => {
            let next = show_error_spec(
                DesktopState {
                    active_job_id: None,
                    active_job_event_count: 0,
                    active_output_path: None,
                    quit_after_stop: false,
                    recorder_state: RecorderState::Failed,
                    ..st
                },
                m,
            );
            (next.0, seq![AppActionView::ExcludeFromCapture(false), AppActionView::ActivateWindow] + next.1)
        },
    }
}

/// One daemon reply.
pub open spec fn handle_app_event_spec(st: DesktopState, e: AppEvent) -> Outcome {
    match e {
        AppEvent::PermissionChecked { result, refresh_targets_after_granted } => permission_checked_spec(
            st,
            status_result(result),
            refresh_targets_after_granted,
        ),
        AppEvent::PermissionRequested(result) => permission_requested_spec(st, status_result(result)),
        AppEvent::TargetsLoaded(result) => targets_loaded_spec(st, match result {
            Ok(n) => Ok(n),
            Err(m) => Err(m@),
        }),
        AppEvent::Started(result) => started_spec(st, job_result(result)),
        AppEvent::JobPolled(result) => job_polled_spec(st, job_result(result)),
        AppEvent::Paused(result) => pause_reply_spec(st, job_result(result), RecorderState::Pausing, RecorderState::Recording),
        AppEvent::Resumed(result) => pause_reply_spec(st, job_result(result), RecorderState::Resuming, RecorderState::Paused),
        AppEvent::Stopped(result) => stopped_spec(st, job_result(result)),
    }
}

impl AppSession {
    fn on_permission_checked(&mut self, result: Result<ScreenRecordingPermissionStatus, String>, refresh: bool) -> (r: Vec<AppAction>)
        ensures
            (final(self)@, actions_view(r@)) == permission_checked_spec(old(self)@, status_result(result), refresh),
    {
        let mut actions: Vec<AppAction> = Vec::new();
        let ghost st = self@;
        match result {
            Ok(status) => {
                self.permission_busy = false;
                self.permission_status = status;
                match status {
                    ScreenRecordingPermissionStatus::Granted => {
                        self.status = text("Ready");
                        emit(&mut actions, AppAction::Log(text("Screen Recording permission granted")));
                        if refresh {
                            self.refresh_targets_into(&mut actions);
                        } else {
                            emit(&mut actions, AppAction::Redraw);
                        }
                    },
                    ScreenRecordingPermissionStatus::Missing => {
                        emit(&mut actions, AppAction::ClearTargets);
                        self.status = text("Screen Recording permission needed");
                        emit(&mut actions, AppAction::Log(text("Screen Recording permission missing")));
                        emit(&mut actions, AppAction::Redraw);
                    },
                    ScreenRecordingPermissionStatus::Unknown => {
                        self.status = text("Screen Recording permission unknown");
                        emit(&mut actions, AppAction::Log(text("Screen Recording permission unknown")));
                        emit(&mut actions, AppAction::Redraw);
                    },
                }
            },
            Err(message) => {
                self.permission_busy = false;
                self.permission_status = ScreenRecordingPermissionStatus::Unknown;
                self.show_error(message, &mut actions);
            },
        }
        assert(actions_view(actions@) =~= permission_checked_spec(st, status_result(result), refresh).1);
        actions
    }

    fn on_permission_requested(&mut self, result: Result<ScreenRecordingPermissionStatus, String>) -> (r: Vec<AppAction>)
        ensures
            (final(self)@, actions_view(r@)) == permission_requested_spec(old(self)@, status_result(result)),
    {
        let mut actions: Vec<AppAction> = Vec::new();
        let ghost st = self@;
        match result {
            Ok(status) => {
                self.permission_busy = false;
                self.permission_status = status;
                match status {
                    ScreenRecordingPermissionStatus::Granted => {
                        self.status = text("Ready");
                        emit(&mut actions, AppAction::Log(text("Screen Recording permission granted")));
                        emit(&mut actions, AppAction::Notify(text("Screen Recording permission granted. Refresh targets to continue.")));
                        emit(&mut actions, AppAction::Redraw);
                    },
                    ScreenRecordingPermissionStatus::Missing => {
                        self.status = text("Screen Recording permission needed");
                        emit(&mut actions, AppAction::Log(text("Screen Recording permission still missing")));
                        emit(&mut actions, AppAction::Alert(text("Screen Recording permission is still missing")));
                        emit(&mut actions, AppAction::Redraw);
                    },
                    ScreenRecordingPermissionStatus::Unknown => {
                        self.status = text("Screen Recording permission unknown");
                        emit(&mut actions, AppAction::Log(text("Screen Recording permission unknown")));
                        emit(&mut actions, AppAction::Redraw);
                    },
                }
            },
            Err(message) => {
                self.permission_busy = false;
                self.permission_status = ScreenRecordingPermissionStatus::Unknown;
                self.show_error(message, &mut actions);
            },
        }
        assert(actions_view(actions@) =~= permission_requested_spec(st, status_result(result)).1);
        actions
    }

    fn on_targets_loaded(&mut self, result: Result<usize, String>) -> (r: Vec<AppAction>)
        ensures
            (final(self)@, actions_view(r@)) == targets_loaded_spec(old(self)@, match result { Ok(n) => Ok(n), Err(m) => Err(m@) }),
    {
        let mut actions: Vec<AppAction> = Vec::new();
        let ghost st = self@;
        match result {
            Ok(count) => {
                emit(&mut actions, AppAction::SyncTargetSelect);
                self.recorder_state = RecorderState::Idle;
                let mut m: Vec<char> = decimal_chars(count as u64);
                push_str(&mut m, " capture targets loaded");
                let message = string_of(&m);
                self.status = text("Idle");
                emit(&mut actions, AppAction::Log(copy_text(&message)));
                emit(&mut actions, AppAction::Notify(message));
            },
            Err(message) => {
                self.recorder_state = RecorderState::Failed;
                if is_permission_message(&message) {
                    self.permission_status = ScreenRecordingPermissionStatus::Missing;
                }
                self.show_error(message, &mut actions);
            },
        }
        assert(actions_view(actions@) =~= targets_loaded_spec(st, match result { Ok(n) => Ok(n), Err(m) => Err(m@) }).1);
        actions
    }

    fn on_started(&mut self, result: Result<JobSnapshot, String>) -> (r: Vec<AppAction>)
        ensures
            (final(self)@, actions_view(r@)) == started_spec(old(self)@, job_result(result)),
    {
        let mut actions: Vec<AppAction> = Vec::new();
        let ghost st = self@;
        match result {
            Ok(job) => {
                if self.recorder_state != RecorderState::Starting {
                    let mut m: Vec<char> = Vec::new();
                    push_str(&mut m, "ignored late start for job ");
                    push_chars(&mut m, &decimal_chars(job.id));
                    assert(Seq::<char>::empty() + "ignored late start for job "@ == "ignored late start for job "@);
                    emit(&mut actions, AppAction::Log(string_of(&m)));
                    emit(&mut actions, AppAction::Redraw);
                    assert(actions_view(actions@) =~= started_spec(st, job_result(Ok(job))).1);
                    return actions;
                }
                self.active_job_id = Some(job.id);
                self.active_job_event_count = 0;
                self.apply_job_into(&job, &mut actions);
                emit(&mut actions, AppAction::StartJobPoll);
                if self.quit_after_stop {
                    match self.active_job_id {
                        Some(job_id) => self.submit_stop_job(job_id, "stopping recording before quit", &mut actions),
                        None => {
                            self.quit_after_stop = false;
                            self.show_error(text("No active daemon job to stop"), &mut actions);
                        },
                    }
                } else {
                    emit(&mut actions, AppAction::Notify(text("Recording submitted")));
                }
                assert(actions_view(actions@) =~= started_spec(st, job_result(Ok(job))).1);
                actions
            },
            Err(message) => {
                if self.recorder_state != RecorderState::Starting {
                    emit(&mut actions, AppAction::Log(prefixed("ignored late start failure: ", &message)));
                    emit(&mut actions, AppAction::Redraw);
                    assert(actions_view(actions@) =~= started_spec(st, job_result(Err(message))).1);
                    return actions;
                }
                emit(&mut actions, AppAction::ExcludeFromCapture(false));
                self.active_job_id = None;
                self.active_job_event_count = 0;
                self.active_output_path = None;
                self.quit_after_stop = false;
                self.recorder_state = RecorderState::Failed;
                if is_permission_message(&message) {
                    self.permission_status = ScreenRecordingPermissionStatus::Missing;
                }
                emit(&mut actions, AppAction::ActivateWindow);
                let ghost m = message@;
                self.show_error(message, &mut actions);
                assert(actions_view(actions@) =~= started_spec(st, Err(m)).1);
                actions
            },
        }
    }

    fn on_job_polled(&mut self, result: Result<JobSnapshot, String>) -> (r: Vec<AppAction>)
        ensures
            (final(self)@, actions_view(r@)) == job_polled_spec(old(self)@, job_result(result)),
    {
        let mut actions: Vec<AppAction> = Vec::new();
        let ghost st = self@;
        match result {
            Ok(job) => {
                if self.should_accept_job(job.id) {
                    self.apply_job_into(&job, &mut actions);
                }
            },
            Err(message) => {
                if self.active_job_id.is_some() {
                    emit(&mut actions, AppAction::ExcludeFromCapture(false));
                    self.recorder_state = RecorderState::Failed;
                    self.active_job_id = None;
                    self.active_output_path = None;
                    self.show_error(message, &mut actions);
                }
            },
        }
        assert(actions_view(actions@) =~= job_polled_spec(st, job_result(result)).1);
        actions
    }

    fn on_pause_reply(&mut self, result: Result<JobSnapshot, String>, waiting: RecorderState, back: RecorderState) -> (r: Vec<AppAction>)
        ensures
            (final(self)@, actions_view(r@)) == pause_reply_spec(old(self)@, job_result(result), waiting, back),
    {
        let mut actions: Vec<AppAction> = Vec::new();
        let ghost st = self@;
        match result {
            Ok(job) => {
                if self.recorder_state != waiting {
                    emit(&mut actions, AppAction::Redraw);
                } else {
                    self.apply_job_into(&job, &mut actions);
                }
            },
            Err(message) => {
                if self.recorder_state == waiting {
                    self.recorder_state = back;
                }
                self.show_error(message, &mut actions);
            },
        }
        assert(actions_view(actions@) =~= pause_reply_spec(st, job_result(result), waiting, back).1);
        actions
    }

    fn on_stopped(&mut self, result: Result<JobSnapshot, String>) -> (r: Vec<AppAction>)
        ensures
            (final(self)@, actions_view(r@)) == stopped_spec(old(self)@, job_result(result)),
    {
        let mut actions: Vec<AppAction> = Vec::new();
        let ghost st = self@;
        match result {
            Ok(job) => self.apply_job_into(&job, &mut actions),
            Err(message) => {
                emit(&mut actions, AppAction::ExcludeFromCapture(false));
                self.active_job_id = None;
                self.active_job_event_count = 0;
                self.active_output_path = None;
                self.quit_after_stop = false;
                self.recorder_state = RecorderState::Failed;
                emit(&mut actions, AppAction::ActivateWindow);
                self.show_error(message, &mut actions);
            },
        }
        assert(actions_view(actions@) =~= stopped_spec(st, job_result(result)).1);
        actions
    }

    /// Takes in one daemon reply: gives the actions for the window, in order.
    pub fn handle_app_event(&mut self, event: AppEvent) -> (r: Vec<AppAction>)
        ensures
            (final(self)@, actions_view(r@)) == handle_app_event_spec(old(self)@, event),
    {
        match event {
            AppEvent::PermissionChecked { result, refresh_targets_after_granted } => {
                self.on_permission_checked(result, refresh_targets_after_granted)
            },
            AppEvent::PermissionRequested(result) => self.on_permission_requested(result),
            AppEvent::TargetsLoaded(result) => self.on_targets_loaded(result),
            AppEvent::Started(result) => self.on_started(result),
            AppEvent::JobPolled(result) => self.on_job_polled(result),
            AppEvent::Paused(result) => self.on_pause_reply(result, RecorderState::Pausing, RecorderState::Recording),
            AppEvent::Resumed(result) => self.on_pause_reply(result, RecorderState::Resuming, RecorderState::Paused),
            AppEvent::Stopped(result) => self.on_stopped(result),
        }
    }
}

/// How many log lines the app keeps.
pub const MAX_LOGS: usize = 80;

/// The last `n` lines of `s`, or all of them if there are fewer.
pub open spec fn last_lines(s: Seq<String>, n: nat) -> Seq<String> {
    if s.len() > n { s.subrange(s.len() - n, s.len() as int) } else { s }
}

/// Adds a line to the app's log, dropping the oldest lines beyond the
/// last `MAX_LOGS`.
pub fn push_log_entry(logs: &mut VecDeque<String>, message: String)
    ensures
        final(logs)@ == last_lines(old(logs)@.push(message), MAX_LOGS as nat),
{
    let ghost all = logs@.push(message);
    logs.push_back(message);
    while logs.len() > MAX_LOGS
        invariant
            logs@.len() >= MAX_LOGS || logs@.len() == all.len(),
            all.len() >= logs@.len(),
            logs@ == all.subrange(all.len() - logs@.len(), all.len() as int),
        decreases logs@.len(),
    {
        let ghost before = logs@;
        logs.pop_front();
        assert(logs@ =~= all.subrange(all.len() - logs@.len(), all.len() as int));
    }
    assert(logs@ =~= last_lines(all, MAX_LOGS as nat));
}

/// A reply about a job other than the active one changes nothing and asks
/// for nothing.
pub proof fn replies_about_other_jobs_are_ignored(st: DesktopState, j: JobView)
    requires
        st.active_job_id != Some(j.id),
    ensures
        apply_job_spec(st, j) == (st, Seq::<AppActionView>::empty()),
        job_polled_spec(st, Ok(j)) == (st, Seq::<AppActionView>::empty()),
{
}

/// A completed, failed or cancelled job ends the session: no job stays
/// active, the recorder is idle or failed, no quit is pending, and the
/// app's windows are no longer kept out of captures.
pub proof fn finished_jobs_end_the_session(st: DesktopState, j: JobView)
    requires
        st.active_job_id == Some(j.id),
        j.status == JobStatus::Completed || j.status == JobStatus::Failed || j.status == JobStatus::Cancelled,
    ensures
        apply_job_spec(st, j).0.active_job_id is None,
        apply_job_spec(st, j).0.active_output_path is None,
        !is_active_state(apply_job_spec(st, j).0.recorder_state),
        !apply_job_spec(st, j).0.quit_after_stop,
        apply_job_spec(st, j).1.contains(AppActionView::ExcludeFromCapture(false)),
{
    let pre = job_intake(st, j);
    let a1 = pre.1;
    let next = job_status_spec(pre.0, j, st.quit_after_stop, st.recorder_state == RecorderState::Stopping);
    assert(next.1[1] == AppActionView::ExcludeFromCapture(false));
    let all = a1 + next.1 + seq![AppActionView::Redraw];
    assert(all[a1.len() as int + 1] == AppActionView::ExcludeFromCapture(false));
}

/// A quit that waits for the recording is carried out once the job is
/// saved.
pub proof fn pending_quit_follows_the_saved_recording(st: DesktopState, j: JobView)
    requires
        st.active_job_id == Some(j.id),
        st.quit_after_stop,
        j.status == JobStatus::Completed,
    ensures
        apply_job_spec(st, j).1.contains(AppActionView::Quit),
        apply_job_spec(st, j).0.recorder_state == RecorderState::Idle,
{
    let pre = job_intake(st, j);
    let a1 = pre.1;
    let next = job_status_spec(pre.0, j, st.quit_after_stop, st.recorder_state == RecorderState::Stopping);
    assert(next.1[3] == AppActionView::Quit);
    let all = a1 + next.1 + seq![AppActionView::Redraw];
    assert(all[a1.len() as int + 3] == AppActionView::Quit);
}

/// A start reply that comes when the app no longer waits for one leaves
/// the state as it is.
pub proof fn late_start_replies_change_nothing(st: DesktopState, result: Result<JobView, Seq<char>>)
    requires
        st.recorder_state != RecorderState::Starting,
    ensures
        started_spec(st, result).0 == st,
{
}

/// The log never holds more than `MAX_LOGS` lines, and the newest line is
/// always last.
pub proof fn log_keeps_the_newest_lines(s: Seq<String>, message: String)
    ensures
        last_lines(s.push(message), MAX_LOGS as nat).len() <= MAX_LOGS,
        last_lines(s.push(message), MAX_LOGS as nat).last() == message,
{
}

/// The tabs of the main window.
#[derive(Clone, Copy, Debug, PartialEq, Eq, Structural)]
pub enum AppTab {
    General,
    Settings,
    Cli,
    About,
    Nerd,
}

impl AppTab {
    /// The element id of the tab.
    pub fn id(self) -> (r: &'static str)
        ensures
            r@ == match self {
                AppTab::General => "general"@,
                AppTab::Settings => "settings"@,
                AppTab::Cli => "cli"@,
                AppTab::About => "about"@,
                AppTab::Nerd => "nerd"@,
            },
    {
        match self {
            AppTab::General => "general",
            AppTab::Settings => "settings",
            AppTab::Cli => "cli",
            AppTab::About => "about",
            AppTab::Nerd => "nerd",
        }
    }

    /// Whether this is the tab shown.
    pub fn is_active(self, active_tab: AppTab) -> (r: bool)
        ensures
            r == (self == active_tab),
    {
        self == active_tab
    }
}

/// How a capture source is labelled.
pub fn source_label(source: CaptureSourceKind) -> (r: &'static str)
    ensures
        r@ == match source {
            CaptureSourceKind::Window => "Window"@,
            CaptureSourceKind::Display => "Display"@,
        },
{
    match source {
        CaptureSourceKind::Window => "Window",
        CaptureSourceKind::Display => "Display",
    }
}

/// How a codec is labelled.
pub fn codec_label(codec: Codec) -> (r: &'static str)
    ensures
        r@ == match codec {
            Codec::H264 => "H.264"@,
            Codec::Hevc => "HEVC"@,
        },
{
    match codec {
        Codec::H264 => "H.264",
        Codec::Hevc => "HEVC",
    }
}

/// How a quality preset is labelled.
pub open spec fn quality_text(q: Quality) -> Seq<char> {
    match q {
        Quality::Efficient => "Efficient"@,
        Quality::High => "High"@,
        Quality::Balanced => "Balanced"@,
    }
}

/// How a quality preset is labelled.
pub fn quality_label(quality: Quality) -> (r: &'static str)
    ensures
        r@ == quality_text(quality),
{
    match quality {
        Quality::Efficient => "Efficient",
        Quality::High => "High",
        Quality::Balanced => "Balanced",
    }
}

/// How a resolution is labelled.
pub open spec fn resolution_text(r: Resolution) -> Seq<char> {
    match r {
        Resolution::Native => "Original"@,
        Resolution::R720p => "720p"@,
        Resolution::R1080p => "1080p"@,
        Resolution::R2k => "2K"@,
        Resolution::R4k => "4K"@,
    }
}

/// How a resolution is labelled.
pub fn resolution_label(resolution: Resolution) -> (r: &'static str)
    ensures
        r@ == resolution_text(resolution),
{
    match resolution {
        Resolution::Native => "Original",
        Resolution::R720p => "720p",
        Resolution::R1080p => "1080p",
        Resolution::R2k => "2K",
        Resolution::R4k => "4K",
    }
}

/// How a frame rate is labelled.
pub open spec fn fps_text(f: FrameRate) -> Seq<char> {
    match f {
        FrameRate::Fps60 => "60 FPS"@,
        FrameRate::Fps30 => "30 FPS"@,
    }
}

/// How a frame rate is labelled.
pub fn fps_label(fps: FrameRate) -> (r: &'static str)
    ensures
        r@ == fps_text(fps),
{
    match fps {
        FrameRate::Fps60 => "60 FPS",
        FrameRate::Fps30 => "30 FPS",
    }
}

/// The resolution a label names; `Original` and anything unknown name the
/// native size.
pub open spec fn resolution_of_text(label: Seq<char>) -> Resolution {
    if label == "720p"@ {
        Resolution::R720p
    } else if label == "1080p"@ {
        Resolution::R1080p
    } else if label == "2K"@ {
        Resolution::R2k
    } else if label == "4K"@ {
        Resolution::R4k
    } else {
        Resolution::Native
    }
}

/// The resolution a label names.
pub fn resolution_from_label(label: &String) -> (r: Resolution)
    ensures
        r == resolution_of_text(label@),
{
    let cs = chars_of(label.as_str());
    if crate::text::is_lit(&cs, "720p") {
        Resolution::R720p
    } else if crate::text::is_lit(&cs, "1080p") {
        Resolution::R1080p
    } else if crate::text::is_lit(&cs, "2K") {
        Resolution::R2k
    } else if crate::text::is_lit(&cs, "4K") {
        Resolution::R4k
    } else {
        Resolution::Native
    }
}

/// The frame rate a label names; anything but `60 FPS` names 30.
pub fn fps_from_label(label: &String) -> (r: FrameRate)
    ensures
        r == (if label@ == "60 FPS"@ { FrameRate::Fps60 } else { FrameRate::Fps30 }),
{
    if crate::text::is_lit(&chars_of(label.as_str()), "60 FPS") {
        FrameRate::Fps60
    } else {
        FrameRate::Fps30
    }
}

/// A resolution the quality preset does not allow.
pub open spec fn resolution_off(q: Quality, r: Resolution) -> bool {
    match spec_max_resolution(q) {
        Some(cap) => resolution_min(r, cap) != r,
        None => false,
    }
}

/// Whether the quality preset rules out a resolution.
pub fn resolution_disabled(quality: Quality, resolution: Resolution) -> (r: bool)
    ensures
        r == resolution_off(quality, resolution),
{
    match quality.max_resolution() {
        Some(cap) => resolution.capped_at(cap) != resolution,
        None => false,
    }
}

/// Whether the quality preset rules out a frame rate.
pub fn fps_disabled(quality: Quality, fps: FrameRate) -> (r: bool)
    ensures
        r == (fps_min(fps, spec_max_fps(quality)) != fps),
{
    fps.capped_at(quality.max_fps()) != fps
}

/// An option of a select that a preset may rule out.
pub struct LimitedOption {
    pub value: String,
    pub title: String,
    pub disabled: bool,
}

fn limited_option(label: &'static str, disabled: bool) -> (r: LimitedOption)
    ensures
        r.value@ == label@ && r.title@ == label@ && r.disabled == disabled,
{
    LimitedOption { value: label.to_string(), title: label.to_string(), disabled }
}

/// The resolution options under a quality preset, largest first, those it
/// rules out disabled.
pub fn resolution_options_for(quality: Quality) -> (r: Vec<LimitedOption>)
    ensures
        r@.len() == 5,
        r@[0].title@ == "Original"@ && r@[0].disabled == resolution_off(quality, Resolution::Native),
        r@[1].title@ == "4K"@ && r@[1].disabled == resolution_off(quality, Resolution::R4k),
        r@[2].title@ == "2K"@ && r@[2].disabled == resolution_off(quality, Resolution::R2k),
        r@[3].title@ == "1080p"@ && r@[3].disabled == resolution_off(quality, Resolution::R1080p),
        r@[4].title@ == "720p"@ && r@[4].disabled == resolution_off(quality, Resolution::R720p),
        forall|i: int| 0 <= i < 5 ==> #[trigger] r@[i].value@ == r@[i].title@,
{
    let mut out: Vec<LimitedOption> = Vec::new();
    out.push(limited_option("Original", resolution_disabled(quality, Resolution::Native)));
    out.push(limited_option("4K", resolution_disabled(quality, Resolution::R4k)));
    out.push(limited_option("2K", resolution_disabled(quality, Resolution::R2k)));
    out.push(limited_option("1080p", resolution_disabled(quality, Resolution::R1080p)));
    out.push(limited_option("720p", resolution_disabled(quality, Resolution::R720p)));
    out
}

/// The frame rate options under a quality preset, those it rules out
/// disabled.
pub fn fps_options_for(quality: Quality) -> (r: Vec<LimitedOption>)
    ensures
        r@.len() == 2,
        r@[0].title@ == "30 FPS"@ && r@[0].disabled == (fps_min(FrameRate::Fps30, spec_max_fps(quality)) != FrameRate::Fps30),
        r@[1].title@ == "60 FPS"@ && r@[1].disabled == (fps_min(FrameRate::Fps60, spec_max_fps(quality)) != FrameRate::Fps60),
        forall|i: int| 0 <= i < 2 ==> #[trigger] r@[i].value@ == r@[i].title@,
{
    let mut out: Vec<LimitedOption> = Vec::new();
    out.push(limited_option("30 FPS", fps_disabled(quality, FrameRate::Fps30)));
    out.push(limited_option("60 FPS", fps_disabled(quality, FrameRate::Fps60)));
    out
}

/// The key of a target in the target list: its kind and id.
pub open spec fn target_key_spec(t: CaptureTargetView) -> Seq<char> {
    kind_arg(t.kind) + ":"@ + decimal(t.id as nat)
}

/// The key of a target in the target list, `display:<id>` or `window:<id>`.
pub fn target_key(target: &CaptureTarget) -> (r: String)
    ensures
        r@ == target_key_spec(target@),
{
    let mut m: Vec<char> = Vec::new();
    push_str(&mut m, crate::backend::capture_kind_arg(target.kind));
    push_str(&mut m, ":");
    push_chars(&mut m, &decimal_chars(target.id));
    assert(Seq::<char>::empty() + kind_arg(target.kind) == kind_arg(target.kind));
    string_of(&m)
}

proof fn lemma_key_colon(k: Seq<char>, d: Seq<char>)
    requires
        forall|j: int| 0 <= j < k.len() ==> k[j] != ':',
    ensures
        crate::text::split_once_spec(k + ":"@ + d, ":"@) == Some((k, d)),
{
    reveal_strlit(":");
    let key = k + ":"@ + d;
    assert(key.subrange(k.len() as int, k.len() as int + 1) =~= ":"@);
    assert(crate::text::occurs_at(key, ":"@, k.len() as int));
    assert forall|j: int| 0 <= j < k.len() implies !crate::text::occurs_at(key, ":"@, j) by {
        assert(key.subrange(j, j + 1)[0] == k[j]);
    }
    crate::text::lemma_first_occurrence(key, ":"@, k.len() as int);
    assert(key.take(k.len() as int) =~= k);
    assert(key.skip(k.len() as int + 1) =~= d);
}

/// A target's key reads back as the target's kind and id.
pub proof fn target_keys_read_back(t: CaptureTargetView)
    ensures
        parse_target_key_spec(target_key_spec(t)) == Some((t.kind, t.id)),
{
    reveal_strlit("display");
    reveal_strlit("window");
    let k = kind_arg(t.kind);
    let d = decimal(t.id as nat);
    assert forall|j: int| 0 <= j < k.len() implies k[j] != ':' by {}
    lemma_key_colon(k, d);
    crate::digits::lemma_parse_decimal(t.id);
    assert("display"@ != "window"@) by {
        assert("display"@.len() != "window"@.len());
    }
}

/// The index of the first target at or after `i` whose key is `key`.
pub open spec fn first_with_key(ts: Seq<CaptureTarget>, key: Seq<char>, i: int) -> Option<int>
    decreases ts.len() - i,
{
    if i < 0 || i >= ts.len() {
        None
    } else if target_key_spec(ts[i]@) == key {
        Some(i)
    } else {
        first_with_key(ts, key, i + 1)
    }
}

/// The index of the first target at or after `i` of kind `kind`.
pub open spec fn first_of_kind(ts: Seq<CaptureTarget>, kind: CaptureSourceKind, i: int) -> Option<int>
    decreases ts.len() - i,
{
    if i < 0 || i >= ts.len() {
        None
    } else if ts[i].kind == kind {
        Some(i)
    } else {
        first_of_kind(ts, kind, i + 1)
    }
}

/// The index of the target a recording starts on: the first whose key is
/// selected, else the first of the source kind.
pub open spec fn selected_index(ts: Seq<CaptureTarget>, key: Option<Seq<char>>, source: CaptureSourceKind) -> Option<int> {
    match key {
        Some(k) => match first_with_key(ts, k, 0) {
            Some(i) => Some(i),
            None => first_of_kind(ts, source, 0),
        },
        None => first_of_kind(ts, source, 0),
    }
}

/// The target a recording starts on: the one whose key is selected, or the
/// first of the source kind.
pub fn selected_target(targets: &Vec<CaptureTarget>, selected_key: &Option<String>, source: CaptureSourceKind) -> (r: Option<CaptureTarget>)
    ensures
        match (r, selected_index(targets@, match selected_key { Some(k) => Some(k@), None => None }, source)) {
            (Some(t), Some(i)) => t == targets@[i],
            (None, None) => true,
            _ => false,
        },
{
    let ghost ts = targets@;
    match selected_key {
        Some(key) => {
            let mut i: usize = 0;
            while i < targets.len()
                invariant
                    ts == targets@,
                    i <= targets@.len(),
                    match selected_key { Some(k) => k@ == key@, None => false },
                    first_with_key(ts, key@, 0) == first_with_key(ts, key@, i as int),
                decreases targets.len() - i,
            {
                let k = target_key(&targets[i]);
                if crate::text::chars_eq(&chars_of(k.as_str()), &chars_of(key.as_str())) {
                    let found = targets[i].duplicate();
                    assert(first_with_key(ts, key@, i as int) == Some(i as int));
                    return Some(found);
                }
                i = i + 1;
            }
            assert(first_with_key(ts, key@, 0) is None);
        },
        None => {},
    }
    assert(match selected_key { Some(k) => first_with_key(ts, k@, 0) is None, None => true });
    let mut i: usize = 0;
    while i < targets.len()
        invariant
            ts == targets@,
            i <= targets@.len(),
            match selected_key { Some(k) => first_with_key(ts, k@, 0) is None, None => true },
            first_of_kind(ts, source, 0) == first_of_kind(ts, source, i as int),
        decreases targets.len() - i,
    {
        if targets[i].kind == source {
            let found = targets[i].duplicate();
            assert(first_of_kind(ts, source, i as int) == Some(i as int));
            return Some(found);
        }
        i = i + 1;
    }
    None
}

/// The message of a daemon error as the app shows it.
pub fn agent_error_message(error: &AgentError) -> (r: String)
    ensures
        r@ == error.message@ + " Next: "@ + error.next@,
{
    let mut m: Vec<char> = chars_of(error.message.as_str());
    push_str(&mut m, " Next: ");
    push_chars(&mut m, &chars_of(error.next.as_str()));
    string_of(&m)
}

/// The log line when a quality preset lowered the resolution or frame
/// rate, if it did.
pub fn preset_limit_message(before: &RecorderSettings, after: &RecorderSettings) -> (r: Option<String>)
    ensures
        (before.resolution == after.resolution && before.fps == after.fps) ==> r is None,
        !(before.resolution == after.resolution && before.fps == after.fps) ==> (r matches Some(m)
            && m@ == "preset limit: "@ + quality_text(after.quality) + " maxes at "@ + resolution_text(after.resolution) + ", "@
                + decimal(fps_value(after.fps)) + " fps"@),
{
    if before.resolution == after.resolution && before.fps == after.fps {
        return None;
    }
    let mut m: Vec<char> = Vec::new();
    push_str(&mut m, "preset limit: ");
    push_str(&mut m, quality_label(after.quality));
    push_str(&mut m, " maxes at ");
    push_str(&mut m, resolution_label(after.resolution));
    push_str(&mut m, ", ");
    push_chars(&mut m, &decimal_chars(after.fps.as_u32() as u64));
    push_str(&mut m, " fps");
    assert(Seq::<char>::empty() + "preset limit: "@ == "preset limit: "@);
    Some(string_of(&m))
}

} // verus!

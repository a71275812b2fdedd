//! Following what a capture helper writes to its error stream: which lines
//! report the start of a recording or a failure, when the start of a
//! recording is settled, and what is reported once the stream closes.

use vstd::prelude::*;
use crate::settings::{RecorderError, RecorderEvent, RecorderEventView, ScreenRecordingPermissionStatus};
use crate::text::{chars_of, contains, contains_seq, push_chars, push_str, string_of, trim, trim_spec};

verus! {

/// The helper process that records: the macOS helper or the Windows
/// capture engine.
#[derive(Clone, Copy, Debug, PartialEq, Eq, Structural)]
pub enum HelperKind {
    MacosHelper,
    CaptureEngine,
}

/// A helper line that reports a failure.
pub open spec fn failure_line(kind: HelperKind, line: Seq<char>) -> bool {
    match kind {
        HelperKind::MacosHelper => contains_seq(line, "recording failed"@) || contains_seq(line, "wrec-helper: error:"@)
            || contains_seq(line, "permission"@) || contains_seq(line, "timed out"@) || contains_seq(line, "not found"@)
            || contains_seq(line, "no display"@) || contains_seq(line, "Assertion failed"@)
            || contains_seq(line, "CGS_REQUIRE_INIT"@),
        HelperKind::CaptureEngine => contains_seq(line, "recording failed"@) || contains_seq(line, "capture-engine: error:"@)
            || contains_seq(line, "capture-engine: unsupported"@) || contains_seq(line, "timed out"@)
            || contains_seq(line, "not found"@) || contains_seq(line, "no display"@),
    }
}

/// A helper line that reports that frames are being recorded.
pub open spec fn started_line(kind: HelperKind, line: Seq<char>) -> bool {
    match kind {
        HelperKind::MacosHelper => contains_seq(line, "wrec-helper: recording started"@),
        HelperKind::CaptureEngine => contains_seq(line, "capture-engine: recording started"@),
    }
}

fn has(cs: &Vec<char>, p: &str) -> (r: bool)
    ensures
        r == contains_seq(cs@, p@),
{
    contains(cs, &chars_of(p))
}

/// Whether a helper line reports a failure.
pub fn line_is_failure(kind: HelperKind, line: &String) -> (r: bool)
    ensures
        r == failure_line(kind, line@),
{
    let cs = chars_of(line.as_str());
    match kind {
        HelperKind::MacosHelper => has(&cs, "recording failed") || has(&cs, "wrec-helper: error:") || has(&cs, "permission")
            || has(&cs, "timed out") || has(&cs, "not found") || has(&cs, "no display") || has(&cs, "Assertion failed")
            || has(&cs, "CGS_REQUIRE_INIT"),
        HelperKind::CaptureEngine => has(&cs, "recording failed") || has(&cs, "capture-engine: error:")
            || has(&cs, "capture-engine: unsupported") || has(&cs, "timed out") || has(&cs, "not found")
            || has(&cs, "no display"),
    }
}

/// Whether a helper line reports that frames are being recorded.
pub fn line_is_recording_started(kind: HelperKind, line: &String) -> (r: bool)
    ensures
        r == started_line(kind, line@),
{
    let cs = chars_of(line.as_str());
    match kind {
        HelperKind::MacosHelper => has(&cs, "wrec-helper: recording started"),
        HelperKind::CaptureEngine => has(&cs, "capture-engine: recording started"),
    }
}

/// A message of the macOS helper that tells of a missing permission.
pub open spec fn permission_error_text(message: Seq<char>) -> bool {
    contains_seq(message, "permission denied"@) || contains_seq(message, "Screen Recording access"@)
}

/// Whether a message of the macOS helper tells of a missing permission.
pub fn is_permission_error(message: &String) -> (r: bool)
    ensures
        r == permission_error_text(message@),
{
    let cs = chars_of(message.as_str());
    has(&cs, "permission denied") || has(&cs, "Screen Recording access")
}

/// What the permission command of the macOS helper printed, read: its
/// output without surrounding whitespace is `granted` or `missing`.
pub open spec fn permission_output_spec(stdout: Seq<char>) -> Result<ScreenRecordingPermissionStatus, Seq<char>> {
    let status = trim_spec(stdout);
    if status == "granted"@ {
        Ok(ScreenRecordingPermissionStatus::Granted)
    } else if status == "missing"@ {
        Ok(ScreenRecordingPermissionStatus::Missing)
    } else {
        Err("unknown screen recording permission status: "@ + status)
    }
}

/// Reads what the permission command of the macOS helper printed; any
/// other answer is a backend error that quotes it.
pub fn parse_permission_output(stdout: &String) -> (r: Result<ScreenRecordingPermissionStatus, RecorderError>)
    ensures
        match (r, permission_output_spec(stdout@)) {
            (Ok(s), Ok(t)) => s == t,
            (Err(RecorderError::Backend(m)), Err(t)) => m@ == t,
            _ => false,
        },
{
    let status = trim(&chars_of(stdout.as_str()));
    if crate::text::is_lit(&status, "granted") {
        Ok(ScreenRecordingPermissionStatus::Granted)
    } else if crate::text::is_lit(&status, "missing") {
        Ok(ScreenRecordingPermissionStatus::Missing)
    } else {
        let mut m: Vec<char> = Vec::new();
        push_str(&mut m, "unknown screen recording permission status: ");
        push_chars(&mut m, &status);
        assert(Seq::<char>::empty() + "unknown screen recording permission status: "@ == "unknown screen recording permission status: "@);
        Err(RecorderError::Backend(string_of(&m)))
    }
}

/// What the code that starts a recording is told about the start.
pub enum StartupSignal {
    Started,
    Failed(String),
}

/// `StartupSignal` with its text as characters.
pub enum StartupSignalView {
    Started,
    Failed(Seq<char>),
}

impl View for StartupSignal {
    type V = StartupSignalView;

    open spec fn view(&self) -> StartupSignalView {
        match self {
            StartupSignal::Started => StartupSignalView::Started,
            StartupSignal::Failed(m) => StartupSignalView::Failed(m@),
        }
    }
}

/// What is known of the helper once its error stream closed.
pub enum HelperExit {
    /// Its record could not be read.
    Unreadable,
    /// It has not exited, or its exit could not be read.
    Unknown,
    /// It exited; `status` is how its exit status prints.
    Exited { success: bool, status: String },
}

/// The watch over a helper's error stream, as the contracts see it.
pub struct StderrWatchView {
    pub kind: HelperKind,
    pub session_id: u64,
    pub did_start: bool,
    pub first_failure: Option<Seq<char>>,
    pub startup_pending: bool,
}

/// The watch over a helper's error stream: whether the recording started,
/// the first failure line, and whether the start is still to be settled.
pub struct StderrWatch {
    pub kind: HelperKind,
    pub session_id: u64,
    pub did_start: bool,
    pub first_failure: Option<String>,
    pub startup_pending: bool,
}

impl View for StderrWatch {
    type V = StderrWatchView;

    open spec fn view(&self) -> StderrWatchView {
        StderrWatchView {
            kind: self.kind,
            session_id: self.session_id,
            did_start: self.did_start,
            first_failure: match self.first_failure {
                Some(m) => Some(m@),
                None => None,
            },
            startup_pending: self.startup_pending,
        }
    }
}

/// A start signal, sent only while the start is still to be settled.
pub open spec fn signal_if_pending(pending: bool, s: StartupSignalView) -> Option<StartupSignalView> {
    if pending { Some(s) } else { None }
}

/// One line of the helper's error stream: the next watch, the start signal
/// it sends, and the event it reports. A failure line after the start is
/// reported as a failure; every other line as a log line.
pub open spec fn line_spec(w: StderrWatchView, line: Seq<char>) -> (StderrWatchView, Option<StartupSignalView>, RecorderEventView) {
    let started = started_line(w.kind, line);
    let failure = failure_line(w.kind, line);
    let did_start = w.did_start || started;
    (
        StderrWatchView {
            did_start,
            first_failure: if failure && w.first_failure is None { Some(line) } else { w.first_failure },
            startup_pending: w.startup_pending && !started,
            ..w
        },
        if started { signal_if_pending(w.startup_pending, StartupSignalView::Started) } else { None },
        if did_start && failure {
            RecorderEventView::Failed { session_id: Some(w.session_id), message: line }
        } else {
            RecorderEventView::Log { session_id: Some(w.session_id), message: line }
        },
    )
}

/// The helper's name in messages about it.
pub open spec fn helper_label(kind: HelperKind) -> Seq<char> {
    match kind {
        HelperKind::MacosHelper => "helper"@,
        HelperKind::CaptureEngine => "capture engine"@,
    }
}

/// The error stream closed: the start signal still owed, if any, and the
/// exit event, which is reported only for a recording that started.
pub open spec fn close_spec(w: StderrWatchView, exit: HelperExitView) -> (Option<StartupSignalView>, Option<RecorderEventView>) {
    match exit {
        HelperExitView::Unreadable => (
            signal_if_pending(w.startup_pending, StartupSignalView::Failed("failed to inspect "@ + helper_label(w.kind) + " exit status"@)),
            None,
        ),
        HelperExitView::Unknown => (
            if w.did_start {
                None
            } else {
                signal_if_pending(
                    w.startup_pending,
                    StartupSignalView::Failed(helper_label(w.kind) + " stderr closed before recording started"@),
                )
            },
            None,
        ),
        HelperExitView::Exited { success, status } => if !w.did_start {
            (
                signal_if_pending(
                    w.startup_pending,
                    StartupSignalView::Failed(match w.first_failure {
                        Some(m) => m,
                        None => helper_label(w.kind) + " exited before recording started: "@ + status,
                    }),
                ),
                None,
            )
        } else {
            (None, Some(RecorderEventView::Exited { session_id: w.session_id, success, status }))
        },
    }
}

/// `HelperExit` with its text as characters.
pub enum HelperExitView {
    Unreadable,
    Unknown,
    Exited { success: bool, status: Seq<char> },
}

impl View for HelperExit {
    type V = HelperExitView;

    open spec fn view(&self) -> HelperExitView {
        match self {
            HelperExit::Unreadable => HelperExitView::Unreadable,
            HelperExit::Unknown => HelperExitView::Unknown,
            HelperExit::Exited { success, status } => HelperExitView::Exited { success: *success, status: status@ },
        }
    }
}

/// The view of an optional start signal.
pub open spec fn signal_view(s: Option<StartupSignal>) -> Option<StartupSignalView> {
    match s {
        Some(x) => Some(x@),
        None => None,
    }
}

/// The view of an optional engine event.
pub open spec fn event_view(e: Option<RecorderEvent>) -> Option<RecorderEventView> {
    match e {
        Some(x) => Some(x@),
        None => None,
    }
}

fn label_text(kind: HelperKind, out: &mut Vec<char>)
    ensures
        final(out)@ == old(out)@ + helper_label(kind),
{
    match kind {
        HelperKind::MacosHelper => push_str(out, "helper"),
        HelperKind::CaptureEngine => push_str(out, "capture engine"),
    }
}

impl StderrWatch {
    /// The watch over the error stream of session `session_id`'s helper.
    pub fn new(kind: HelperKind, session_id: u64) -> (r: StderrWatch)
        ensures
            r@ == (StderrWatchView { kind, session_id, did_start: false, first_failure: None, startup_pending: true }),
    {
        StderrWatch { kind, session_id, did_start: false, first_failure: None, startup_pending: true }
    }

    /// Takes one line of the error stream: gives the start signal to send,
    /// if any, and the event to report.
    pub fn on_line(&mut self, line: String) -> (r: (Option<StartupSignal>, RecorderEvent))
        ensures
            (final(self)@, signal_view(r.0), r.1@) == line_spec(old(self)@, line@),
    {
        let is_started = line_is_recording_started(self.kind, &line);
        let is_failure = line_is_failure(self.kind, &line);
        if is_failure && self.first_failure.is_none() {
            self.first_failure = Some(line.clone());
        }
        let mut signal: Option<StartupSignal> = None;
        if is_started {
            self.did_start = true;
            if self.startup_pending {
                self.startup_pending = false;
                signal = Some(StartupSignal::Started);
            }
        }
        let event = if self.did_start && is_failure {
            RecorderEvent::Failed { session_id: Some(self.session_id), message: line }
        } else {
            RecorderEvent::Log { session_id: Some(self.session_id), message: line }
        };
        (signal, event)
    }

    /// The error stream closed, with what is known of the helper's exit:
    /// gives the start signal still owed, if any, and the exit event.
    pub fn on_close(&mut self, exit: HelperExit) -> (r: (Option<StartupSignal>, Option<RecorderEvent>))
        ensures
            (signal_view(r.0), event_view(r.1)) == close_spec(old(self)@, exit@),
            !final(self).startup_pending,
    {
        let pending = self.startup_pending;
        self.startup_pending = false;
        match exit {
            HelperExit::Unreadable => {
                if !pending {
                    return (None, None);
                }
                let mut m: Vec<char> = Vec::new();
                push_str(&mut m, "failed to inspect ");
                label_text(self.kind, &mut m);
                push_str(&mut m, " exit status");
                assert(Seq::<char>::empty() + "failed to inspect "@ == "failed to inspect "@);
                (Some(StartupSignal::Failed(string_of(&m))), None)
            },
            HelperExit::Unknown => {
                if self.did_start || !pending {
                    return (None, None);
                }
                let mut m: Vec<char> = Vec::new();
                label_text(self.kind, &mut m);
                push_str(&mut m, " stderr closed before recording started");
                assert(Seq::<char>::empty() + helper_label(self.kind) == helper_label(self.kind));
                (Some(StartupSignal::Failed(string_of(&m))), None)
            },
            HelperExit::Exited { success, status } => {
                if !self.did_start {
                    if !pending {
                        return (None, None);
                    }
                    let message = match &self.first_failure {
                        Some(first) => first.clone(),
                        None => {
                            let mut m: Vec<char> = Vec::new();
                            label_text(self.kind, &mut m);
                            push_str(&mut m, " exited before recording started: ");
                            push_chars(&mut m, &chars_of(status.as_str()));
                            assert(Seq::<char>::empty() + helper_label(self.kind) == helper_label(self.kind));
                            string_of(&m)
                        },
                    };
                    return (Some(StartupSignal::Failed(message)), None);
                }
                (None, Some(RecorderEvent::Exited { session_id: self.session_id, success, status }))
            },
        }
    }
}

/// The start is settled at most once: after the start signal or a closed
/// stream, no further start signal is sent.
pub proof fn startup_is_signalled_once(w: StderrWatchView, line: Seq<char>, exit: HelperExitView)
    ensures
        line_spec(w, line).1 is Some ==> !line_spec(w, line).0.startup_pending,
        !w.startup_pending ==> line_spec(w, line).1 is None && close_spec(w, exit).0 is None,
{
}

/// A watch that has seen the start of the recording owes no start signal.
pub open spec fn watch_consistent(w: StderrWatchView) -> bool {
    w.did_start ==> !w.startup_pending
}

/// Each line keeps the watch consistent, and a consistent watch that has
/// seen the start never reports a failed start, while a failure line after
/// the start is reported as a failure of the session.
pub proof fn started_recordings_report_failures(w: StderrWatchView, line: Seq<char>, exit: HelperExitView)
    requires
        watch_consistent(w),
    ensures
        watch_consistent(line_spec(w, line).0),
        w.did_start ==> (close_spec(w, exit).0 is None),
        w.did_start && failure_line(w.kind, line) ==> line_spec(w, line).2 == (RecorderEventView::Failed {
            session_id: Some(w.session_id),
            message: line,
        }),
{
}


/// How the wait for a helper to confirm the start of a recording ended.
pub enum StartWait {
    /// The helper reported a start signal.
    Signalled(StartupSignal),
    /// No signal came within the start timeout.
    TimedOut,
    /// The watch over the helper ended without a signal.
    Closed,
}

/// What is done about a helper whose start was not confirmed: whether it
/// is killed (before the error is told), and whether its output file is
/// removed.
pub struct StartCleanup {
    pub kill_helper: bool,
    pub remove_output: bool,
}

/// The cleanup after a start that was not confirmed: the output file is
/// always removed; the capture engine is always killed, the macOS helper
/// only when it timed out.
pub open spec fn start_cleanup_spec(kind: HelperKind, started: bool, timed_out: bool) -> (bool, bool) {
    if started {
        (false, false)
    } else {
        (kind == HelperKind::CaptureEngine || timed_out, true)
    }
}

/// What the recorder does about the end of the wait for a start.
pub fn start_cleanup(kind: HelperKind, wait: &StartWait) -> (r: StartCleanup)
    ensures
        (r.kill_helper, r.remove_output) == start_cleanup_spec(
            kind,
            wait matches StartWait::Signalled(StartupSignal::Started),
            wait is TimedOut,
        ),
{
    match wait {
        StartWait::Signalled(StartupSignal::Started) => StartCleanup { kill_helper: false, remove_output: false },
        StartWait::TimedOut => StartCleanup { kill_helper: true, remove_output: true },
        _ => StartCleanup { kill_helper: kind == HelperKind::CaptureEngine, remove_output: true },
    }
}

/// The error a start that was not confirmed is answered with; `kill_report`
/// is what killing the helper reported, told after the five seconds the
/// recorder waits.
pub open spec fn start_error_spec(kind: HelperKind, wait: StartWaitView, kill_report: Seq<char>) -> Option<Seq<char>> {
    let who = match kind {
        HelperKind::MacosHelper => "recording helper"@,
        HelperKind::CaptureEngine => "capture engine"@,
    };
    match wait {
        StartWaitView::Signalled(StartupSignalView::Started) => None,
        StartWaitView::Signalled(StartupSignalView::Failed(m)) => Some(match kind {
            HelperKind::MacosHelper => "recording helper failed to start: "@ + m,
            HelperKind::CaptureEngine => "capture engine failed to start recording: "@ + m,
        }),
        StartWaitView::TimedOut => Some(who + " did not report start within 5s"@ + kill_report),
        StartWaitView::Closed => Some(who + " startup channel closed before recording started"@),
    }
}

/// `StartWait` with its text as characters.
pub enum StartWaitView {
    Signalled(StartupSignalView),
    TimedOut,
    Closed,
}

impl View for StartWait {
    type V = StartWaitView;

    open spec fn view(&self) -> StartWaitView {
        match self {
            StartWait::Signalled(s) => StartWaitView::Signalled(s@),
            StartWait::TimedOut => StartWaitView::TimedOut,
            StartWait::Closed => StartWaitView::Closed,
        }
    }
}

fn who_text(kind: HelperKind, out: &mut Vec<char>)
    ensures
        final(out)@ == old(out)@ + (match kind {
            HelperKind::MacosHelper => "recording helper"@,
            HelperKind::CaptureEngine => "capture engine"@,
        }),
{
    match kind {
        HelperKind::MacosHelper => push_str(out, "recording helper"),
        HelperKind::CaptureEngine => push_str(out, "capture engine"),
    }
}

/// The error that answers the end of the wait for a start, if any.
pub fn start_error(kind: HelperKind, wait: StartWait, kill_report: &String) -> (r: Option<RecorderError>)
    ensures
        match (r, start_error_spec(kind, wait@, kill_report@)) {
            (Some(RecorderError::Backend(m)), Some(t)) => m@ == t,
            (None, None) => true,
            _ => false,
        },
{
    let mut m: Vec<char> = Vec::new();
    match wait {
        StartWait::Signalled(StartupSignal::Started) => return None,
        StartWait::Signalled(StartupSignal::Failed(message)) => {
            match kind {
                HelperKind::MacosHelper => push_str(&mut m, "recording helper failed to start: "),
                HelperKind::CaptureEngine => push_str(&mut m, "capture engine failed to start recording: "),
            }
            push_chars(&mut m, &chars_of(message.as_str()));
        },
        StartWait::TimedOut => {
            who_text(kind, &mut m);
            push_str(&mut m, " did not report start within 5s");
            push_chars(&mut m, &chars_of(kill_report.as_str()));
        },
        StartWait::Closed => {
            who_text(kind, &mut m);
            push_str(&mut m, " startup channel closed before recording started");
        },
    }
    assert(m@ =~= start_error_spec(kind, wait@, kill_report@)->0);
    Some(RecorderError::Backend(string_of(&m)))
}


/// How waiting for a helper to stop ended.
pub enum StopWait {
    /// It exited; `status` is how its exit status prints.
    Exited { success: bool, status: String },
    /// Its state could not be read; the reason.
    PollFailed(String),
    /// It did not stop in time and was killed; how its exit status prints.
    Killed(String),
    /// It did not stop in time and could not be killed; the reason.
    KillFailed(String),
}

/// `StopWait` with its text as characters.
pub enum StopWaitView {
    Exited { success: bool, status: Seq<char> },
    PollFailed(Seq<char>),
    Killed(Seq<char>),
    KillFailed(Seq<char>),
}

impl View for StopWait {
    type V = StopWaitView;

    open spec fn view(&self) -> StopWaitView {
        match self {
            StopWait::Exited { success, status } => StopWaitView::Exited { success: *success, status: status@ },
            StopWait::PollFailed(m) => StopWaitView::PollFailed(m@),
            StopWait::Killed(s) => StopWaitView::Killed(s@),
            StopWait::KillFailed(m) => StopWaitView::KillFailed(m@),
        }
    }
}

/// The name of a helper in messages about stopping it.
pub open spec fn stop_label(kind: HelperKind) -> Seq<char> {
    match kind {
        HelperKind::MacosHelper => "helper"@,
        HelperKind::CaptureEngine => "capture engine"@,
    }
}

/// What the end of the wait for a stop reports, and the stop's result.
/// The capture engine reports its exit, or its failure, to the session's
/// events; the macOS helper leaves that to its error stream.
pub open spec fn stop_spec(kind: HelperKind, session_id: u64, wait: StopWaitView) -> (Option<RecorderEventView>, Result<(), Seq<char>>) {
    let engine = kind == HelperKind::CaptureEngine;
    let who = match kind {
        HelperKind::MacosHelper => "recording helper"@,
        HelperKind::CaptureEngine => "capture engine"@,
    };
    match wait {
        StopWaitView::Exited { success, status } => (
            if engine { Some(RecorderEventView::Exited { session_id, success, status }) } else { None },
            if success { Ok(()) } else { Err(who + " exited with "@ + status) },
        ),
        StopWaitView::PollFailed(m) => {
            let text = "failed polling "@ + stop_label(kind) + ": "@ + m;
            (if engine { Some(RecorderEventView::Failed { session_id: Some(session_id), message: text }) } else { None }, Err(text))
        },
        StopWaitView::Killed(status) => (
            if engine { Some(RecorderEventView::Exited { session_id, success: false, status }) } else { None },
            Err(who + (if engine { " did not stop recording within 20s and was killed with "@ } else {
                " did not stop within 20s and was killed with "@
            }) + status),
        ),
        StopWaitView::KillFailed(m) => {
            let text = "failed killing stuck "@ + stop_label(kind) + ": "@ + m;
            (if engine { Some(RecorderEventView::Failed { session_id: Some(session_id), message: text }) } else { None }, Err(text))
        },
    }
}

/// The event and result that end a stop.
pub fn settle_stop(kind: HelperKind, session_id: u64, wait: StopWait) -> (r: (Option<RecorderEvent>, Result<(), RecorderError>))
    ensures
        event_view(r.0) == stop_spec(kind, session_id, wait@).0,
        match (r.1, stop_spec(kind, session_id, wait@).1) {
            (Ok(()), Ok(())) => true,
            (Err(RecorderError::Backend(m)), Err(t)) => m@ == t,
            _ => false,
        },
{
    let engine = kind == HelperKind::CaptureEngine;
    let mut who: Vec<char> = Vec::new();
    who_text(kind, &mut who);
    let mut label: Vec<char> = Vec::new();
    match kind {
        HelperKind::MacosHelper => push_str(&mut label, "helper"),
        HelperKind::CaptureEngine => push_str(&mut label, "capture engine"),
    }
    assert(label@ =~= stop_label(kind));
    match wait {
        StopWait::Exited { success, status } => {
            let mut m = who.clone();
            push_str(&mut m, " exited with ");
            push_chars(&mut m, &chars_of(status.as_str()));
            let event = if engine { Some(RecorderEvent::Exited { session_id, success, status }) } else { None };
            if success { (event, Ok(())) } else { (event, Err(RecorderError::Backend(string_of(&m)))) }
        },
        StopWait::PollFailed(reason) => {
            let mut m: Vec<char> = Vec::new();
            push_str(&mut m, "failed polling ");
            push_chars(&mut m, &label);
            push_str(&mut m, ": ");
            push_chars(&mut m, &chars_of(reason.as_str()));
            assert(Seq::<char>::empty() + "failed polling "@ == "failed polling "@);
            let event = if engine { Some(RecorderEvent::Failed { session_id: Some(session_id), message: string_of(&m) }) } else { None };
            (event, Err(RecorderError::Backend(string_of(&m))))
        },
        StopWait::Killed(status) => {
            let mut m = who.clone();
            if engine {
                push_str(&mut m, " did not stop recording within 20s and was killed with ");
            } else {
                push_str(&mut m, " did not stop within 20s and was killed with ");
            }
            push_chars(&mut m, &chars_of(status.as_str()));
            let event = if engine { Some(RecorderEvent::Exited { session_id, success: false, status }) } else { None };
            (event, Err(RecorderError::Backend(string_of(&m))))
        },
        StopWait::KillFailed(reason) => {
            let mut m: Vec<char> = Vec::new();
            push_str(&mut m, "failed killing stuck ");
            push_chars(&mut m, &label);
            push_str(&mut m, ": ");
            push_chars(&mut m, &chars_of(reason.as_str()));
            assert(Seq::<char>::empty() + "failed killing stuck "@ == "failed killing stuck "@);
            let event = if engine { Some(RecorderEvent::Failed { session_id: Some(session_id), message: string_of(&m) }) } else { None };
            (event, Err(RecorderError::Backend(string_of(&m))))
        },
    }
}

} // verus!

//! Recorder engines: the interface the daemon records through, the engine
//! of a platform wrec does not support, the answers of the macOS and
//! Windows back ends elsewhere, and the session bookkeeping the engines
//! share around their platform calls.

use vstd::prelude::*;
use crate::capture::{recording_file_name, recording_file_name_spec};
use crate::digits::{decimal, decimal_chars, lemma_parse_decimal};
use crate::engine::{engine_args_spec, engine_backend, EngineArgsView};
use crate::backend::{capture_kind_arg, kind_arg};
use crate::text::lowercase;
use crate::protocol::AgentError;
use crate::resolution::unsupported_platform_error;
use crate::settings::{
    codec_arg, fps_value, quality_arg, resolution_arg, recorder_error_text, CaptureSourceKind, CaptureTarget, CaptureTargetView, RecorderError, RecorderEvent, RecorderEventView,
    RecorderSettings, RecordingSession, ScreenRecordingPermissionStatus,
};
use crate::paths::{file_name_of, join_path, parent_of, path_file_name, path_join, path_parent, plain_name};
use crate::store::opt_chars;
use crate::digits::{parse_u64, parse_u64_spec};
use crate::report::{lines_of, split_lines, texts};
use crate::text::{chars_of, has_suffix, is_lit, push_chars, push_str, split_once, split_once_spec, string_of};

verus! {

/// What the daemon records through.
pub trait RecorderEngine {
    /// The displays and windows that can be recorded.
    fn list_targets(&self) -> Result<Vec<CaptureTarget>, RecorderError>;

    /// Starts recording `target` with `settings`.
    fn start(&mut self, target: CaptureTarget, settings: RecorderSettings) -> Result<RecordingSession, RecorderError>;

    /// Pauses the recording.
    fn pause(&mut self) -> Result<(), RecorderError>;

    /// Resumes a paused recording.
    fn resume(&mut self) -> Result<(), RecorderError>;

    /// Stops the recording.
    fn stop(&mut self) -> Result<(), RecorderError>;
}

/// What an engine on an unsupported platform answers.
pub open spec fn unsupported_text() -> Seq<char> {
    "wrec only supports macOS and Windows"@
}

/// The error an engine on an unsupported platform answers with.
pub open spec fn is_unsupported(e: RecorderError) -> bool {
    e matches RecorderError::Backend(m) && m@ == unsupported_text()
}

fn unsupported() -> (r: RecorderError)
    ensures
        is_unsupported(r),
{
    RecorderError::Backend("wrec only supports macOS and Windows".to_string())
}

/// The engine of a platform that wrec does not support: every call fails.
pub struct UnsupportedRecorder;

impl RecorderEngine for UnsupportedRecorder {
    fn list_targets(&self) -> (r: Result<Vec<CaptureTarget>, RecorderError>)
        ensures
            r matches Err(e) && is_unsupported(e),
    {
        Err(unsupported())
    }

    fn start(&mut self, target: CaptureTarget, settings: RecorderSettings) -> (r: Result<RecordingSession, RecorderError>)
        ensures
            r matches Err(e) && is_unsupported(e),
    {
        Err(unsupported())
    }

    fn pause(&mut self) -> (r: Result<(), RecorderError>)
        ensures
            r matches Err(e) && is_unsupported(e),
    {
        Err(unsupported())
    }

    fn resume(&mut self) -> (r: Result<(), RecorderError>)
        ensures
            r matches Err(e) && is_unsupported(e),
    {
        Err(unsupported())
    }

    fn stop(&mut self) -> (r: Result<(), RecorderError>)
        ensures
            r matches Err(e) && is_unsupported(e),
    {
        Err(unsupported())
    }
}

/// The daemon's runtime on a platform that wrec does not support.
pub struct UnsupportedRuntime;

impl UnsupportedRuntime {
    /// Target listing is not available.
    pub fn list_targets(&self) -> (r: Result<Vec<CaptureTarget>, AgentError>)
        ensures
            r matches Err(e) && e@.code == "unsupported_platform"@,
    {
        Err(unsupported_platform_error())
    }

    /// The permission status is not available.
    pub fn screen_recording_permission_status(&self) -> (r: Result<ScreenRecordingPermissionStatus, AgentError>)
        ensures
            r matches Err(e) && e@.code == "unsupported_platform"@,
    {
        Err(unsupported_platform_error())
    }

    /// The permission cannot be requested.
    pub fn request_screen_recording_permission(&self) -> (r: Result<ScreenRecordingPermissionStatus, AgentError>)
        ensures
            r matches Err(e) && e@.code == "unsupported_platform"@,
    {
        Err(unsupported_platform_error())
    }

    /// An engine for a recording.
    pub fn new_engine(&self) -> UnsupportedRecorder {
        UnsupportedRecorder
    }
}

/// The Windows recorder never lacks the screen recording permission.
pub fn windows_permission_status() -> (r: Result<ScreenRecordingPermissionStatus, RecorderError>)
    ensures
        r == Ok::<ScreenRecordingPermissionStatus, RecorderError>(ScreenRecordingPermissionStatus::Granted),
{
    Ok(ScreenRecordingPermissionStatus::Granted)
}

/// The session bookkeeping a recorder engine keeps around its platform
/// calls: the session being recorded.
pub struct RecorderCore {
    pub active: Option<RecordingSession>,
}

/// The session id of an engine's active session, if any.
pub open spec fn active_id(c: RecorderCore) -> Option<u64> {
    match c.active {
        Some(s) => Some(s.id),
        None => None,
    }
}

/// A log line of a session.
pub open spec fn log_event(sid: Option<u64>, message: Seq<char>) -> RecorderEventView {
    RecorderEventView::Log { session_id: sid, message }
}

fn log(sid: Option<u64>, message: &str) -> (r: RecorderEvent)
    ensures
        r@ == log_event(sid, message@),
{
    RecorderEvent::Log { session_id: sid, message: message.to_string() }
}

impl RecorderCore {
    /// An engine with no session.
    pub fn new() -> (r: RecorderCore)
        ensures
            r.active is None,
    {
        RecorderCore { active: None }
    }

    /// Whether the engine has a session to stop when it goes away.
    pub fn owns_active_session(&self) -> (r: bool)
        ensures
            r == (self.active is Some),
    {
        self.active.is_some()
    }

    /// The event that announces a session before the platform starts it.
    pub fn starting_event(session_id: u64, target: &CaptureTarget, settings: &RecorderSettings, output_path: &String) -> (r: RecorderEvent)
        ensures
            r@ == (RecorderEventView::Starting { session_id, target: target@, settings: *settings, output_path: output_path@ }),
    {
        RecorderEvent::Starting {
            session_id,
            target: target.duplicate(),
            settings: settings.duplicate(),
            output_path: output_path.clone(),
        }
    }

    /// What the platform's start of session `session_id` gave: a started
    /// session becomes the active one and its output file is logged; a
    /// failure is reported as the session's failure.
    pub fn after_start(&mut self, session_id: u64, result: Result<RecordingSession, RecorderError>) -> (r: (Result<RecordingSession, RecorderError>, RecorderEvent))
        ensures
            r.0 == result,
            match result {
                Ok(s) => final(self).active == Some(s) && r.1@ == log_event(Some(s.id), "recording output: "@ + s.output_path@),
                Err(e) => final(self).active == old(self).active
                    && r.1@ == (RecorderEventView::Failed { session_id: Some(session_id), message: recorder_error_text(e) }),
            },
    {
        match result {
            Ok(session) => {
                let mut m: Vec<char> = Vec::new();
                push_str(&mut m, "recording output: ");
                push_chars(&mut m, &chars_of(session.output_path.as_str()));
                assert(Seq::<char>::empty() + "recording output: "@ == "recording output: "@);
                let event = RecorderEvent::Log { session_id: Some(session.id), message: string_of(&m) };
                let copy = RecordingSession { id: session.id, output_path: session.output_path.clone() };
                self.active = Some(copy);
                (Ok(session), event)
            },
            Err(e) => {
                let event = RecorderEvent::Failed { session_id: Some(session_id), message: e.message() };
                (Err(e), event)
            },
        }
    }

    /// The log line before the platform is asked to stop.
    pub fn before_stop(&self) -> (r: RecorderEvent)
        ensures
            r@ == log_event(active_id(*self), "stopping recording"@),
    {
        log(self.active_id(), "stopping recording")
    }

    /// What the platform's stop gave: on success the session is over and
    /// logged as stopped; a failure is passed on as it is.
    pub fn after_stop(&mut self, result: Result<(), RecorderError>) -> (r: (Result<(), RecorderError>, Option<RecorderEvent>))
        ensures
            r.0 == result,
            result is Ok ==> final(self).active is None
                && (r.1 matches Some(ev) && ev@ == log_event(active_id(*old(self)), "recording stopped"@)),
            result is Err ==> final(self).active == old(self).active && r.1 is None,
    {
        if result.is_ok() {
            let event = log(self.active_id(), "recording stopped");
            self.active = None;
            (result, Some(event))
        } else {
            (result, None)
        }
    }

    /// The log line before the platform is asked to pause.
    pub fn before_pause(&self) -> (r: RecorderEvent)
        ensures
            r@ == log_event(active_id(*self), "pausing recording"@),
    {
        log(self.active_id(), "pausing recording")
    }

    /// The log line once the platform took the pause request.
    pub fn after_pause(&self) -> (r: RecorderEvent)
        ensures
            r@ == log_event(active_id(*self), "recording pause requested"@),
    {
        log(self.active_id(), "recording pause requested")
    }

    /// The log line before the platform is asked to resume.
    pub fn before_resume(&self) -> (r: RecorderEvent)
        ensures
            r@ == log_event(active_id(*self), "resuming recording"@),
    {
        log(self.active_id(), "resuming recording")
    }

    /// The log line once the platform took the resume request.
    pub fn after_resume(&self) -> (r: RecorderEvent)
        ensures
            r@ == log_event(active_id(*self), "recording resume requested"@),
    {
        log(self.active_id(), "recording resume requested")
    }

    /// The id of the active session.
    pub fn active_id(&self) -> (r: Option<u64>)
        ensures
            r == active_id(*self),
    {
        match &self.active {
            Some(s) => Some(s.id),
            None => None,
        }
    }
}

/// Where the Windows recorder writes session `session_id`: the file
/// `wrec-<id>.mp4` in the output directory.
pub fn recording_output_path(settings: &RecorderSettings, session_id: u64) -> (r: String)
    ensures
        r@ == path_join(settings.output_dir@, recording_file_name_spec(session_id)),
        has_suffix(r@, recording_file_name_spec(session_id)),
{
    let name = recording_file_name(session_id);
    proof {
        lemma_file_name_plain(session_id);
    }
    join_path(&settings.output_dir, &name)
}

proof fn lemma_file_name_plain(id: u64)
    ensures
        plain_name(recording_file_name_spec(id)),
{
    reveal_strlit("wrec-");
    reveal_strlit(".mp4");
    crate::digits::lemma_decimal_roundtrip(id as nat);
    let s = recording_file_name_spec(id);
    let d = decimal(id as nat);
    crate::paths::lemma_not_dots(s);
    assert forall|i: int| 0 <= i < s.len() implies s[i] != '/' && s[i] != '\\' && s[i] != ':' by {
        if 5 <= i < 5 + d.len() {
            assert(s[i] == d[i - 5]);
            assert(crate::digits::is_digit(d[i - 5]));
        }
    }
}

proof fn lemma_name_not_inner_suffix(a: u64, b: u64)
    requires
        recording_file_name_spec(a).len() <= recording_file_name_spec(b).len(),
        has_suffix(recording_file_name_spec(b), recording_file_name_spec(a)),
    ensures
        recording_file_name_spec(a) == recording_file_name_spec(b),
{
    reveal_strlit("wrec-");
    reveal_strlit(".mp4");
    crate::digits::lemma_decimal_roundtrip(a as nat);
    crate::digits::lemma_decimal_roundtrip(b as nat);
    let na = recording_file_name_spec(a);
    let nb = recording_file_name_spec(b);
    let db = decimal(b as nat);
    let k = nb.len() - na.len();
    assert(na[0] == 'w');
    assert(nb.skip(k)[0] == nb[k]);
    if k > 0 {
        assert(k < db.len());
        if k < 5 {
            assert(nb[k] != 'w');
        } else {
            assert(nb[k] == db[k - 5]);
            assert(crate::digits::is_digit(db[k - 5]));
        }
    }
    assert(na =~= nb.skip(k));
}

/// Two sessions never share an output file, whatever their output
/// directories: each path ends with its session's file name, and no file
/// name ends another.
pub proof fn output_paths_differ_per_session(path_a: Seq<char>, path_b: Seq<char>, a: u64, b: u64)
    requires
        a != b,
        has_suffix(path_a, recording_file_name_spec(a)),
        has_suffix(path_b, recording_file_name_spec(b)),
    ensures
        path_a != path_b,
{
    crate::capture::recording_file_names_are_unique(a, b);
    if path_a == path_b {
        let na = recording_file_name_spec(a);
        let nb = recording_file_name_spec(b);
        if na.len() <= nb.len() {
            assert(nb.skip(nb.len() - na.len()) =~= path_a.skip(path_a.len() - na.len()));
            lemma_name_not_inner_suffix(a, b);
        } else {
            assert(na.skip(na.len() - nb.len()) =~= path_a.skip(path_a.len() - nb.len()));
            lemma_name_not_inner_suffix(b, a);
        }
    }
}


/// `true` or `false` on the capture engine's command line.
pub open spec fn flag_text(b: bool) -> Seq<char> {
    if b { "true"@ } else { "false"@ }
}

/// The command line a recording of `target` with `settings` into `path`
/// gives the Windows capture engine: output path, frame rate, cursor,
/// target kind and id, codec, quality, resolution, system audio, and
/// whether wrec's windows are hidden.
pub open spec fn engine_args_of(path: Seq<char>, target: CaptureTargetView, settings: RecorderSettings) -> Seq<Seq<char>> {
    seq![
        path,
        decimal(fps_value(settings.fps)),
        flag_text(settings.include_cursor),
        kind_arg(target.kind),
        decimal(target.id as nat),
        codec_arg(settings.codec),
        quality_arg(settings.quality),
        resolution_arg(settings.resolution),
        flag_text(settings.include_system_audio),
        flag_text(settings.hide_wrec),
    ]
}

/// The texts of the arguments.
pub open spec fn arg_views(v: Seq<String>) -> Seq<Seq<char>> {
    v.map_values(|a: String| a@)
}

fn flag_arg(b: bool) -> (r: String)
    ensures
        r@ == flag_text(b),
{
    if b { "true".to_string() } else { "false".to_string() }
}

fn push_arg(args: &mut Vec<String>, a: String)
    ensures
        arg_views(final(args)@) == arg_views(old(args)@).push(a@),
{
    let ghost before = args@;
    args.push(a);
    assert(arg_views(args@) =~= arg_views(before).push(a@));
}

/// The command line the Windows capture engine is started with.
pub fn capture_engine_args(output_path: &String, target: &CaptureTarget, settings: &RecorderSettings) -> (r: Vec<String>)
    ensures
        arg_views(r@) == engine_args_of(output_path@, target@, *settings),
{
    let mut args = helper_args(output_path, target, settings);
    push_arg(&mut args, flag_arg(settings.include_system_audio));
    push_arg(&mut args, flag_arg(settings.hide_wrec));
    assert(arg_views(args@) =~= engine_args_of(output_path@, target@, *settings));
    args
}

/// The command line the macOS recording helper is started with: that of
/// the capture engine without the system audio and hiding switches.
pub fn helper_args(output_path: &String, target: &CaptureTarget, settings: &RecorderSettings) -> (r: Vec<String>)
    ensures
        arg_views(r@) == engine_args_of(output_path@, target@, *settings).take(8),
{
    let mut args: Vec<String> = Vec::new();
    push_arg(&mut args, output_path.clone());
    push_arg(&mut args, crate::text::string_of(&decimal_chars(settings.fps.as_u32() as u64)));
    push_arg(&mut args, flag_arg(settings.include_cursor));
    push_arg(&mut args, capture_kind_arg(target.kind).to_string());
    push_arg(&mut args, crate::text::string_of(&decimal_chars(target.id)));
    push_arg(&mut args, settings.codec.as_arg().to_string());
    push_arg(&mut args, settings.quality.as_arg().to_string());
    push_arg(&mut args, settings.resolution.as_arg().to_string());
    assert(arg_views(args@) =~= engine_args_of(output_path@, target@, *settings).take(8));
    args
}

/// The capture engine reads back what a recording asks of it: the output
/// path, frame rate, target id and switches exactly, the target kind,
/// codec, quality and resolution as their lowercase, and the backend the
/// environment names.
pub proof fn engine_reads_back_its_arguments(
    program: Seq<char>,
    path: Seq<char>,
    target: CaptureTargetView,
    settings: RecorderSettings,
    env_backend: Option<Seq<char>>,
)
    ensures
        engine_args_spec(seq![program] + engine_args_of(path, target, settings), env_backend) == Ok::<EngineArgsView, Seq<char>>(EngineArgsView {
            output_path: path,
            fps: fps_value(settings.fps) as u32,
            include_cursor: settings.include_cursor,
            target_kind: lowercase(kind_arg(target.kind)),
            target_id: target.id,
            codec: lowercase(codec_arg(settings.codec)),
            quality: lowercase(quality_arg(settings.quality)),
            resolution: lowercase(resolution_arg(settings.resolution)),
            include_system_audio: settings.include_system_audio,
            hide_wrec: settings.hide_wrec,
            backend: engine_backend(None, env_backend),
        }),
{
    reveal_strlit("true");
    reveal_strlit("false");
    let args = seq![program] + engine_args_of(path, target, settings);
    assert(args.len() == 11);
    lemma_parse_decimal(target.id);
    let fps: u64 = fps_value(settings.fps) as u64;
    lemma_parse_decimal(fps);
    assert(args[5] == decimal(target.id as nat));
    assert(args[2] == decimal(fps as nat));
    assert("true"@.len() == 4 && "false"@.len() == 5);
    assert(flag_text(settings.include_cursor) == "true"@ <==> settings.include_cursor);
    assert(flag_text(settings.include_system_audio) == "true"@ <==> settings.include_system_audio);
    assert(flag_text(settings.hide_wrec) == "true"@ <==> settings.hide_wrec);
    assert(args[3] == flag_text(settings.include_cursor));
    assert(args[9] == flag_text(settings.include_system_audio));
    assert(args[10] == flag_text(settings.hide_wrec));
    assert(crate::engine::engine_fps(args[2]) == fps_value(settings.fps) as u32);
}


/// The target one line of a target listing names: `kind<TAB>id<TAB>name`,
/// where the kind is `display` or `window`, the id is a number, and a
/// missing name reads `Unknown`. Other lines name none.
pub open spec fn listed_target(line: Seq<char>) -> Option<CaptureTargetView> {
    match split_once_spec(line, "\t"@) {
        None => None,
        Some((kind, rest)) => {
            let (id_text, name): (Seq<char>, Seq<char>) = match split_once_spec(rest, "\t"@) {
                Some((i, n)) => (i, n),
                None => (rest, "Unknown"@),
            };
            if kind != "display"@ && kind != "window"@ {
                None
            } else {
                match parse_u64_spec(id_text) {
                    None => None,
                    Some(id) => Some(CaptureTargetView {
                        id,
                        name,
                        kind: if kind == "display"@ { CaptureSourceKind::Display } else { CaptureSourceKind::Window },
                    }),
                }
            }
        },
    }
}

/// The targets the lines name, in order.
pub open spec fn listed_targets(lines: Seq<Seq<char>>) -> Seq<CaptureTargetView>
    decreases lines.len(),
{
    if lines.len() == 0 {
        Seq::empty()
    } else {
        let prev = listed_targets(lines.drop_last());
        match listed_target(lines.last()) {
            Some(t) => prev.push(t),
            None => prev,
        }
    }
}

/// The targets as views.
pub open spec fn target_views(ts: Seq<CaptureTarget>) -> Seq<CaptureTargetView> {
    ts.map_values(|t: CaptureTarget| t@)
}

fn listed_target_x(line: &Vec<char>) -> (r: Option<CaptureTarget>)
    ensures
        match (r, listed_target(line@)) {
            (Some(a), Some(b)) => a@ == b,
            (None, None) => true,
            _ => false,
        },
{
    proof {
        reveal_strlit("Unknown");
    }
    let tab = chars_of("\t");
    match split_once(line, &tab) {
        None => None,
        Some((kind, rest)) => {
            let (id_text, name) = match split_once(&rest, &tab) {
                Some((i, n)) => (i, n),
                None => (rest, chars_of("Unknown")),
            };
            let is_display = is_lit(&kind, "display");
            if !is_display && !is_lit(&kind, "window") {
                return None;
            }
            match parse_u64(&id_text) {
                None => None,
                Some(id) => Some(CaptureTarget {
                    id,
                    name: string_of(&name),
                    kind: if is_display { CaptureSourceKind::Display } else { CaptureSourceKind::Window },
                }),
            }
        },
    }
}

/// Reads the target listing a capture helper printed: one target per
/// line, other lines skipped.
pub fn parse_target_list(stdout: &String) -> (r: Vec<CaptureTarget>)
    ensures
        target_views(r@) == listed_targets(lines_of(stdout@)),
{
    let lines = split_lines(&chars_of(stdout.as_str()));
    let ghost ls = texts(lines@);
    let mut out: Vec<CaptureTarget> = Vec::new();
    let mut i: usize = 0;
    while i < lines.len()
        invariant
            i <= lines.len(),
            ls == texts(lines@),
            ls == lines_of(stdout@),
            target_views(out@) == listed_targets(ls.take(i as int)),
        decreases lines.len() - i,
    {
        assert(ls.take(i + 1).drop_last() =~= ls.take(i as int));
        assert(ls[i as int] == lines@[i as int]@);
        let ghost before = out@;
        match listed_target_x(&lines[i]) {
            Some(t) => {
                out.push(t);
                assert(target_views(out@) =~= target_views(before).push(out@[before.len() as int]@));
            },
            None => {},
        }
        i = i + 1;
    }
    assert(ls.take(lines.len() as int) =~= ls);
    out
}

/// The answer of the Windows recorder when the capture engine lists
/// nothing.
pub open spec fn no_targets_text() -> Seq<char> {
    "Windows Graphics Capture did not return any displays or windows"@
}

/// The Windows recorder's targets: those listed, or an error when none is.
pub fn windows_targets(listed: Vec<CaptureTarget>) -> (r: Result<Vec<CaptureTarget>, RecorderError>)
    ensures
        listed@.len() > 0 ==> r == Ok::<Vec<CaptureTarget>, RecorderError>(listed),
        listed@.len() == 0 ==> (r matches Err(RecorderError::Backend(m)) && m@ == no_targets_text()),
{
    if listed.len() == 0 {
        Err(RecorderError::Backend("Windows Graphics Capture did not return any displays or windows".to_string()))
    } else {
        Ok(listed)
    }
}

/// The macOS recorder's targets: those listed, or the main display when
/// none is.
pub fn macos_targets(listed: Vec<CaptureTarget>) -> (r: Vec<CaptureTarget>)
    ensures
        listed@.len() > 0 ==> r == listed,
        listed@.len() == 0 ==> target_views(r@) == seq![CaptureTargetView { id: 0, name: "Main Display"@, kind: CaptureSourceKind::Display }],
{
    if listed.len() == 0 {
        let mut out: Vec<CaptureTarget> = Vec::new();
        out.push(CaptureTarget { id: 0, name: "Main Display".to_string(), kind: CaptureSourceKind::Display });
        assert(target_views(out@) =~= seq![CaptureTargetView { id: 0, name: "Main Display"@, kind: CaptureSourceKind::Display }]);
        out
    } else {
        listed
    }
}


/// The file name of the macOS recording of a session started `epoch_secs`
/// seconds after the Unix epoch.
pub open spec fn mov_file_name(epoch_secs: u64) -> Seq<char> {
    "wrec-"@ + decimal(epoch_secs as nat) + ".mov"@
}

/// Where the macOS recorder writes a session started `epoch_secs` seconds
/// after the Unix epoch: `wrec-<seconds>.mov` in the output directory.
pub fn mov_output_path(settings: &RecorderSettings, epoch_secs: u64) -> (r: String)
    ensures
        r@ == path_join(settings.output_dir@, mov_file_name(epoch_secs)),
{
    let mut m: Vec<char> = Vec::new();
    push_str(&mut m, "wrec-");
    push_chars(&mut m, &decimal_chars(epoch_secs));
    push_str(&mut m, ".mov");
    assert(Seq::<char>::empty() + "wrec-"@ == "wrec-"@);
    join_path(&settings.output_dir, &string_of(&m))
}

/// The capture engine's file name on a platform.
pub open spec fn engine_file_name(windows: bool) -> Seq<char> {
    if windows { "capture-engine.exe"@ } else { "capture-engine"@ }
}

/// The capture engine's file name on a platform.
pub fn capture_engine_file_name(windows: bool) -> (r: String)
    ensures
        r@ == engine_file_name(windows),
{
    if windows { "capture-engine.exe".to_string() } else { "capture-engine".to_string() }
}

/// The optional text as characters.
pub open spec fn opt_view(o: Option<String>) -> Option<Seq<char>> {
    match o {
        Some(s) => Some(s@),
        None => None,
    }
}

/// The option as a sequence of zero or one item.
pub open spec fn maybe(o: Option<Seq<char>>) -> Seq<Seq<char>> {
    match o {
        Some(x) => seq![x],
        None => Seq::empty(),
    }
}

/// `name` in the folder of the executable `exe`, if it has one.
pub open spec fn beside(exe: Option<Seq<char>>, name: Seq<char>) -> Option<Seq<char>> {
    match exe {
        Some(e) => match path_parent(e) {
            Some(dir) => Some(path_join(dir, name)),
            None => None,
        },
        None => None,
    }
}

/// `name` in the Cargo profile folder of the executable `exe`: beside it,
/// or one level up when it runs from a `deps` folder.
pub open spec fn in_profile(exe: Option<Seq<char>>, name: Seq<char>) -> Option<Seq<char>> {
    match exe {
        Some(e) => match path_parent(e) {
            Some(dir) => if path_file_name(dir) == Some("deps"@) {
                match path_parent(dir) {
                    Some(profile) => Some(path_join(profile, name)),
                    None => None,
                }
            } else {
                Some(path_join(dir, name))
            },
            None => None,
        },
        None => None,
    }
}

/// Where the Windows recorder looks for the capture engine, in order: the
/// path the environment names at run time, the engine beside the running
/// executable, the path named when the daemon was built, and the engine in
/// the Cargo profile folder. The first that is a file is used.
pub open spec fn engine_candidates_spec(
    env_path: Option<Seq<char>>,
    current_exe: Option<Seq<char>>,
    build_path: Option<Seq<char>>,
    windows: bool,
) -> Seq<Seq<char>> {
    maybe(env_path) + maybe(beside(current_exe, engine_file_name(windows))) + maybe(build_path)
        + maybe(in_profile(current_exe, engine_file_name(windows)))
}

fn push_opt(out: &mut Vec<String>, o: Option<String>)
    ensures
        arg_views(final(out)@) == arg_views(old(out)@) + maybe(opt_view(o)),
{
    let ghost before = out@;
    match o {
        Some(x) => {
            out.push(x);
            assert(arg_views(out@) =~= arg_views(before) + maybe(opt_view(o)));
        },
        None => {
            assert(arg_views(out@) =~= arg_views(before) + maybe(opt_view(o)));
        },
    }
}

fn beside_x(exe: &Option<String>, name: &String) -> (r: Option<String>)
    ensures
        opt_view(r) == beside(opt_view(*exe), name@),
{
    match exe {
        Some(e) => match parent_of(e) {
            Some(dir) => Some(join_path(&dir, name)),
            None => None,
        },
        None => None,
    }
}

fn in_profile_x(exe: &Option<String>, name: &String) -> (r: Option<String>)
    ensures
        opt_view(r) == in_profile(opt_view(*exe), name@),
{
    match exe {
        Some(e) => match parent_of(e) {
            Some(dir) => {
                let dir_name = file_name_of(&dir);
                let is_deps = match &dir_name {
                    Some(n) => is_lit(&chars_of(n.as_str()), "deps"),
                    None => false,
                };
                assert(is_deps == (opt_chars(dir_name) == Some("deps"@)));
                if is_deps {
                    match parent_of(&dir) {
                        Some(profile) => Some(join_path(&profile, name)),
                        None => None,
                    }
                } else {
                    Some(join_path(&dir, name))
                }
            },
            None => None,
        },
        None => None,
    }
}

/// The paths the Windows recorder tries for the capture engine, in order.
pub fn capture_engine_candidates(
    env_path: Option<String>,
    current_exe: &Option<String>,
    build_path: Option<String>,
    windows: bool,
) -> (r: Vec<String>)
    ensures
        arg_views(r@) == engine_candidates_spec(opt_view(env_path), opt_view(*current_exe), opt_view(build_path), windows),
{
    let name = capture_engine_file_name(windows);
    let mut out: Vec<String> = Vec::new();
    push_opt(&mut out, env_path);
    push_opt(&mut out, beside_x(current_exe, &name));
    push_opt(&mut out, build_path);
    push_opt(&mut out, in_profile_x(current_exe, &name));
    assert(arg_views(out@) =~= engine_candidates_spec(opt_view(env_path), opt_view(*current_exe), opt_view(build_path), windows));
    out
}

/// Where the macOS recorder looks for its helper, in order: the path the
/// environment names at run time, the helper beside the running
/// executable, and the path named when it was built.
pub open spec fn helper_candidates_spec(
    env_path: Option<Seq<char>>,
    current_exe: Option<Seq<char>>,
    build_path: Option<Seq<char>>,
) -> Seq<Seq<char>> {
    maybe(env_path) + maybe(beside(current_exe, "wrec-helper"@)) + maybe(build_path)
}

/// The paths the macOS recorder tries for its helper, in order.
pub fn helper_candidates(env_path: Option<String>, current_exe: &Option<String>, build_path: Option<String>) -> (r: Vec<String>)
    ensures
        arg_views(r@) == helper_candidates_spec(opt_view(env_path), opt_view(*current_exe), opt_view(build_path)),
{
    let mut out: Vec<String> = Vec::new();
    push_opt(&mut out, env_path);
    push_opt(&mut out, beside_x(current_exe, &"wrec-helper".to_string()));
    push_opt(&mut out, build_path);
    assert(arg_views(out@) =~= helper_candidates_spec(opt_view(env_path), opt_view(*current_exe), opt_view(build_path)));
    out
}

/// The error when no candidate for the capture engine is a file.
pub fn capture_engine_not_found(windows: bool) -> (r: RecorderError)
    ensures
        r matches RecorderError::Backend(m)
            && m@ == engine_file_name(windows) + " was not found next to the daemon executable or in Cargo build output"@,
{
    let mut m: Vec<char> = chars_of(capture_engine_file_name(windows).as_str());
    push_str(&mut m, " was not found next to the daemon executable or in Cargo build output");
    RecorderError::Backend(string_of(&m))
}

/// The error when no candidate for the macOS helper is a file.
pub fn helper_not_found() -> (r: RecorderError)
    ensures
        r matches RecorderError::Backend(m) && m@ == "wrec-helper was not found next to the app executable or in Cargo build output"@,
{
    RecorderError::Backend("wrec-helper was not found next to the app executable or in Cargo build output".to_string())
}

} // verus!

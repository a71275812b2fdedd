//! What the command line, the app and the daemon say to one another: job
//! states, target selectors, recording requests and structured errors.

use vstd::prelude::*;
use crate::args::{RecordArgs, RecordDuration, TargetQuery, duration_nanos};
use crate::backend::RecordingOverrides;
use crate::settings::{
    CaptureSourceKind, CaptureTarget, Codec, FrameRate, Quality, RecorderSettings, Resolution,
};

verus! {

/// An error that tells an agent what failed and what to do next.
#[derive(Clone, Debug, PartialEq, Eq)]
pub struct AgentError {
    pub code: String,
    pub message: String,
    pub recoverable: bool,
    pub next: String,
}

/// `AgentError` with its text as characters.
pub struct AgentErrorView {
    pub code: Seq<char>,
    pub message: Seq<char>,
    pub recoverable: bool,
    pub next: Seq<char>,
}

impl View for AgentError {
    type V = AgentErrorView;

    open spec fn view(&self) -> AgentErrorView {
        AgentErrorView { code: self.code@, message: self.message@, recoverable: self.recoverable, next: self.next@ }
    }
}

/// Builds an agent error.
pub fn agent_error(code: &str, message: String, recoverable: bool, next: &str) -> (r: AgentError)
    ensures
        r@ == (AgentErrorView { code: code@, message: message@, recoverable, next: next@ }),
{
    AgentError { code: code.to_string(), message, recoverable, next: next.to_string() }
}

/// The daemon's answer to one request: the request's id, and either its
/// result (`ok`) or the error.
#[derive(Clone, Debug, PartialEq, Eq)]
pub struct IpcResponse<T> {
    pub id: u64,
    pub ok: bool,
    pub result: Option<T>,
    pub error: Option<AgentError>,
}

/// The answer that refuses request `id` with `error`.
pub fn response_error<T>(id: u64, error: AgentError) -> (r: IpcResponse<T>)
    ensures
        r.id == id,
        !r.ok,
        r.result is None,
        r.error == Some(error),
{
    IpcResponse { id, ok: false, result: None, error: Some(error) }
}

/// A warning attached to a job.
#[derive(Clone, Debug, PartialEq, Eq)]
pub struct AgentWarning {
    pub code: String,
    pub message: String,
    pub next: String,
}

/// Where a recording job stands.
#[derive(Clone, Copy, Debug, PartialEq, Eq, Structural)]
pub enum JobStatus {
    Queued,
    Starting,
    Recording,
    Paused,
    Finishing,
    Completed,
    Failed,
    Cancelled,
}

/// Completed, failed and cancelled jobs are over.
pub open spec fn is_terminal_status(s: JobStatus) -> bool {
    s == JobStatus::Completed || s == JobStatus::Failed || s == JobStatus::Cancelled
}

/// The word for a job status.
pub open spec fn status_text(s: JobStatus) -> Seq<char> {
    match s {
        JobStatus::Queued => "queued"@,
        JobStatus::Starting => "starting"@,
        JobStatus::Recording => "recording"@,
        JobStatus::Paused => "paused"@,
        JobStatus::Finishing => "finishing"@,
        JobStatus::Completed => "completed"@,
        JobStatus::Failed => "failed"@,
        JobStatus::Cancelled => "cancelled"@,
    }
}

/// The word for a job status.
pub fn status_label(status: JobStatus) -> (r: &'static str)
    ensures
        r@ == status_text(status),
{
    match status {
        JobStatus::Queued => "queued",
        JobStatus::Starting => "starting",
        JobStatus::Recording => "recording",
        JobStatus::Paused => "paused",
        JobStatus::Finishing => "finishing",
        JobStatus::Completed => "completed",
        JobStatus::Failed => "failed",
        JobStatus::Cancelled => "cancelled",
    }
}

/// Whether a job with this status is over.
pub fn is_terminal(status: JobStatus) -> (r: bool)
    ensures
        r == is_terminal_status(status),
{
    match status {
        JobStatus::Completed | JobStatus::Failed | JobStatus::Cancelled => true,
        _ => false,
    }
}

/// Level of a job event.
#[derive(Clone, Copy, Debug, PartialEq, Eq, Structural)]
pub enum EventLevel {
    Info,
    Warning,
    Error,
}

/// How a recording request names its capture target.
#[derive(Clone, Debug, PartialEq, Eq)]
pub enum TargetSelector {
    Id { kind: CaptureSourceKind, id: u64 },
    Name { kind: Option<CaptureSourceKind>, query: String },
    App { query: String },
}

/// `TargetSelector` with its text as characters.
pub enum TargetSelectorView {
    Id { kind: CaptureSourceKind, id: u64 },
    Name { kind: Option<CaptureSourceKind>, query: Seq<char> },
    App { query: Seq<char> },
}

impl View for TargetSelector {
    type V = TargetSelectorView;

    open spec fn view(&self) -> TargetSelectorView {
        match self {
            TargetSelector::Id { kind, id } => TargetSelectorView::Id { kind: *kind, id: *id },
            TargetSelector::Name { kind, query } => TargetSelectorView::Name { kind: *kind, query: query@ },
            TargetSelector::App { query } => TargetSelectorView::App { query: query@ },
        }
    }
}

/// The settings a recording request overrides.
#[derive(Clone, Debug, PartialEq, Eq)]
pub struct RecordingOptions {
    pub source_kind: Option<CaptureSourceKind>,
    pub fps: Option<FrameRate>,
    pub codec: Option<Codec>,
    pub quality: Option<Quality>,
    pub resolution: Option<Resolution>,
    pub output_dir: Option<String>,
    pub include_cursor: Option<bool>,
    pub include_system_audio: Option<bool>,
    pub hide_wrec: Option<bool>,
}

impl RecordingOptions {
    /// No overrides.
    pub fn none() -> (r: RecordingOptions)
        ensures
            r.source_kind is None && r.fps is None && r.codec is None && r.quality is None
                && r.resolution is None && r.output_dir is None && r.include_cursor is None
                && r.include_system_audio is None && r.hide_wrec is None,
    {
        RecordingOptions {
            source_kind: None,
            fps: None,
            codec: None,
            quality: None,
            resolution: None,
            output_dir: None,
            include_cursor: None,
            include_system_audio: None,
            hide_wrec: None,
        }
    }

    /// The same overrides for the settings builder; a request never names a
    /// target id this way.
    pub fn to_overrides(&self) -> (r: RecordingOverrides)
        ensures
            r == (RecordingOverrides {
                source_kind: self.source_kind,
                target_id: None,
                fps: self.fps,
                codec: self.codec,
                quality: self.quality,
                resolution: self.resolution,
                output_dir: self.output_dir,
                include_cursor: self.include_cursor,
                include_system_audio: self.include_system_audio,
                hide_wrec: self.hide_wrec,
            }),
    {
        RecordingOverrides {
            source_kind: self.source_kind,
            target_id: None,
            fps: self.fps,
            codec: self.codec,
            quality: self.quality,
            resolution: self.resolution,
            output_dir: match &self.output_dir {
                Some(d) => Some(d.clone()),
                None => None,
            },
            include_cursor: self.include_cursor,
            include_system_audio: self.include_system_audio,
            hide_wrec: self.hide_wrec,
        }
    }
}

/// A request to start a recording job.
#[derive(Clone, Debug, PartialEq, Eq)]
pub struct StartRecordingParams {
    pub selector: Option<TargetSelector>,
    pub options: RecordingOptions,
    pub duration_ms: Option<u64>,
    pub queue: bool,
}

/// Requests queue behind an active recording unless they say otherwise.
pub fn default_queue() -> (r: bool)
    ensures
        r,
{
    true
}

/// The selector a command line asks for: an explicit kind and id, else the
/// name or app query, else none.
pub open spec fn selector_for(a: RecordArgs) -> Option<TargetSelectorView> {
    if a.source_kind is Some && a.target_id is Some {
        Some(TargetSelectorView::Id { kind: a.source_kind->0, id: a.target_id->0 })
    } else {
        match a.target_query {
            Some(TargetQuery::Name { kind, query }) => Some(TargetSelectorView::Name { kind, query: query@ }),
            Some(TargetQuery::App(q)) => Some(TargetSelectorView::App { query: q@ }),
            None => None,
        }
    }
}

/// The view of an optional selector.
pub open spec fn selector_view(s: Option<TargetSelector>) -> Option<TargetSelectorView> {
    match s {
        Some(x) => Some(x@),
        None => None,
    }
}

/// The selector a command line asks for.
pub fn target_selector(args: &RecordArgs) -> (r: Option<TargetSelector>)
    ensures
        selector_view(r) == selector_for(*args),
{
    match (args.source_kind, args.target_id) {
        (Some(kind), Some(id)) => return Some(TargetSelector::Id { kind, id }),
        _ => {},
    }
    match &args.target_query {
        Some(TargetQuery::Name { kind, query }) => Some(TargetSelector::Name { kind: *kind, query: query.clone() }),
        Some(TargetQuery::App(q)) => Some(TargetSelector::App { query: q.clone() }),
        None => None,
    }
}

/// The recording request for a command line: its selector, its overrides,
/// its duration in whole milliseconds (kept to the low 64 bits) and whether
/// it queues.
pub fn record_params(args: &RecordArgs) -> (r: StartRecordingParams)
    ensures
        selector_view(r.selector) == selector_for(*args),
        r.options == (RecordingOptions {
            source_kind: args.source_kind,
            fps: args.fps,
            codec: args.codec,
            quality: args.quality,
            resolution: args.resolution,
            output_dir: args.output_dir,
            include_cursor: args.include_cursor,
            include_system_audio: args.include_system_audio,
            hide_wrec: args.hide_wrec,
        }),
        r.duration_ms == (match args.duration {
            Some(d) => Some(((duration_nanos(d) / 1_000_000) as u128) as u64),
            None => None,
        }),
        r.queue == args.queue,
{
    let duration_ms = match &args.duration {
        Some(d) => Some(d.as_millis() as u64),
        None => None,
    };
    StartRecordingParams {
        selector: target_selector(args),
        options: RecordingOptions {
            source_kind: args.source_kind,
            fps: args.fps,
            codec: args.codec,
            quality: args.quality,
            resolution: args.resolution,
            output_dir: match &args.output_dir {
                Some(d) => Some(d.clone()),
                None => None,
            },
            include_cursor: args.include_cursor,
            include_system_audio: args.include_system_audio,
            hide_wrec: args.hide_wrec,
        },
        duration_ms,
        queue: args.queue,
    }
}

/// The request the app sends for a recording: this exact target, all of
/// these settings, no duration, and no queueing (the app has no queue view).
pub fn recording_params(target: &CaptureTarget, settings: &RecorderSettings) -> (r: StartRecordingParams)
    ensures
        r.selector == Some(TargetSelector::Id { kind: target.kind, id: target.id }),
        r.options == (RecordingOptions {
            source_kind: Some(settings.source),
            fps: Some(settings.fps),
            codec: Some(settings.codec),
            quality: Some(settings.quality),
            resolution: Some(settings.resolution),
            output_dir: Some(settings.output_dir),
            include_cursor: Some(settings.include_cursor),
            include_system_audio: Some(settings.include_system_audio),
            hide_wrec: Some(settings.hide_wrec),
        }),
        r.duration_ms is None,
        !r.queue,
{
    StartRecordingParams {
        selector: Some(TargetSelector::Id { kind: target.kind, id: target.id }),
        options: RecordingOptions {
            source_kind: Some(settings.source),
            fps: Some(settings.fps),
            codec: Some(settings.codec),
            quality: Some(settings.quality),
            resolution: Some(settings.resolution),
            output_dir: Some(settings.output_dir.clone()),
            include_cursor: Some(settings.include_cursor),
            include_system_audio: Some(settings.include_system_audio),
            hide_wrec: Some(settings.hide_wrec),
        },
        duration_ms: None,
        queue: false,
    }
}

/// The error for a daemon reply that failed without saying why.
pub fn generic_daemon_error() -> (r: AgentError)
    ensures
        r@ == (AgentErrorView {
            code: "daemon_error"@,
            message: "Daemon returned an error without details."@,
            recoverable: true,
            next: "Retry the command or inspect ~/.wrec/daemon.log."@,
        }),
{
    agent_error(
        "daemon_error",
        "Daemon returned an error without details.".to_string(),
        true,
        "Retry the command or inspect ~/.wrec/daemon.log.",
    )
}

impl AgentWarning {
    /// A copy of this warning.
    pub fn duplicate(&self) -> (r: AgentWarning)
        ensures
            r == *self,
    {
        AgentWarning { code: self.code.clone(), message: self.message.clone(), next: self.next.clone() }
    }
}

impl TargetSelector {
    /// A copy of this selector.
    pub fn duplicate(&self) -> (r: TargetSelector)
        ensures
            r == *self,
    {
        match self {
            TargetSelector::Id { kind, id } => TargetSelector::Id { kind: *kind, id: *id },
            TargetSelector::Name { kind, query } => TargetSelector::Name { kind: *kind, query: query.clone() },
            TargetSelector::App { query } => TargetSelector::App { query: query.clone() },
        }
    }
}

} // verus!

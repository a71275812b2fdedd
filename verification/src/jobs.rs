//! The record of one recording job in the daemon: its status, its event log
//! and its timestamps. Once a job is completed, failed or cancelled it stays
//! as it is.

use vstd::prelude::*;
use crate::protocol::{is_terminal, is_terminal_status, AgentWarning, EventLevel, JobStatus, TargetSelector};
use crate::settings::{CaptureTarget, RecorderSettings};

verus! {

/// The whole-number part of a recording's metrics: how long it has run
/// and how large its file is. The bitrate estimate, a float, stays with
/// whoever formats the metrics.
#[derive(Clone, Copy, Debug, PartialEq, Eq, Structural)]
pub struct JobMetrics {
    pub elapsed_secs: u64,
    pub output_bytes: u64,
}

/// One entry of a job's event log, with the recording's metrics where the
/// entry reports them.
#[derive(Clone, Debug, PartialEq, Eq)]
pub struct JobEvent {
    pub timestamp_ms: u64,
    pub level: EventLevel,
    pub message: String,
    pub metrics: Option<JobMetrics>,
}

/// `JobEvent` with its text as characters.
pub struct JobEventView {
    pub timestamp_ms: u64,
    pub level: EventLevel,
    pub message: Seq<char>,
    pub metrics: Option<JobMetrics>,
}

impl View for JobEvent {
    type V = JobEventView;

    open spec fn view(&self) -> JobEventView {
        JobEventView { timestamp_ms: self.timestamp_ms, level: self.level, message: self.message@, metrics: self.metrics }
    }
}

/// The events as views.
pub open spec fn events_view(es: Seq<JobEvent>) -> Seq<JobEventView> {
    es.map_values(|e: JobEvent| e@)
}

/// A recording job as the daemon keeps it.
pub struct JobRecord {
    pub id: u64,
    pub status: JobStatus,
    pub selector: Option<TargetSelector>,
    pub target: CaptureTarget,
    pub settings: RecorderSettings,
    pub output_path: Option<String>,
    pub duration_ms: Option<u64>,
    pub warnings: Vec<AgentWarning>,
    pub events: Vec<JobEvent>,
    pub created_at_ms: u64,
    pub updated_at_ms: u64,
    pub started_at_ms: Option<u64>,
    pub finished_at_ms: Option<u64>,
}

/// `after` is `before` with one more event, at `now`, of `level` and `message`,
/// and the update time set to `now`.
pub open spec fn pushed(before: JobRecord, after: JobRecord, level: EventLevel, message: Seq<char>, now: u64) -> bool {
    &&& events_view(after.events@) == events_view(before.events@).push(
        JobEventView { timestamp_ms: now, level, message, metrics: None },
    )
    &&& after.updated_at_ms == now
}

/// Everything but status, events, update time and timestamps is unchanged.
pub open spec fn same_identity(before: JobRecord, after: JobRecord) -> bool {
    &&& after.id == before.id
    &&& after.selector == before.selector
    &&& after.target == before.target
    &&& after.settings == before.settings
    &&& after.output_path == before.output_path
    &&& after.duration_ms == before.duration_ms
    &&& after.warnings == before.warnings
    &&& after.created_at_ms == before.created_at_ms
}

impl JobRecord {
    /// A queued job created at `now`, with no events yet.
    pub fn new(
        id: u64,
        selector: Option<TargetSelector>,
        target: CaptureTarget,
        settings: RecorderSettings,
        duration_ms: Option<u64>,
        warnings: Vec<AgentWarning>,
        now: u64,
    ) -> (r: JobRecord)
        ensures
            r.id == id,
            r.status == JobStatus::Queued,
            r.selector == selector,
            r.target == target,
            r.settings == settings,
            r.output_path is None,
            r.duration_ms == duration_ms,
            r.warnings == warnings,
            r.events@.len() == 0,
            r.created_at_ms == now,
            r.updated_at_ms == now,
            r.started_at_ms is None,
            r.finished_at_ms is None,
    {
        JobRecord {
            id,
            status: JobStatus::Queued,
            selector,
            target,
            settings,
            output_path: None,
            duration_ms,
            warnings,
            events: Vec::new(),
            created_at_ms: now,
            updated_at_ms: now,
            started_at_ms: None,
            finished_at_ms: None,
        }
    }

    /// Whether the job is over.
    pub fn is_terminal(&self) -> (r: bool)
        ensures
            r == is_terminal_status(self.status),
    {
        is_terminal(self.status)
    }

    /// Appends an event at `now` and sets the update time to `now`; returns
    /// a copy of the event, for the job log.
    pub fn push_event(&mut self, level: EventLevel, message: String, now: u64) -> (r: JobEvent)
        ensures
            pushed(*old(self), *final(self), level, message@, now),
            r@ == (JobEventView { timestamp_ms: now, level, message: message@, metrics: None }),
            final(self).status == old(self).status,
            final(self).started_at_ms == old(self).started_at_ms,
            final(self).finished_at_ms == old(self).finished_at_ms,
            same_identity(*old(self), *final(self)),
    {
        let event = JobEvent { timestamp_ms: now, level, message, metrics: None };
        let copy = JobEvent { timestamp_ms: now, level, message: event.message.clone(), metrics: None };
        let ghost before = self.events@;
        self.events.push(event);
        assert(events_view(self.events@) =~= events_view(before).push(copy@));
        self.updated_at_ms = now;
        copy
    }

    /// The job starts: its start time is set once, its status becomes
    /// starting, and `job starting` is logged.
    pub fn mark_starting(&mut self, now: u64) -> (r: JobEvent)
        ensures
            final(self).status == JobStatus::Starting,
            final(self).started_at_ms == (match old(self).started_at_ms {
                Some(t) => Some(t),
                None => Some(now),
            }),
            final(self).finished_at_ms == old(self).finished_at_ms,
            pushed(*old(self), *final(self), EventLevel::Info, "job starting"@, now),
            same_identity(*old(self), *final(self)),
    {
        if self.started_at_ms.is_none() {
            self.started_at_ms = Some(now);
        }
        self.status = JobStatus::Starting;
        self.push_event(EventLevel::Info, "job starting".to_string(), now)
    }

    /// A job that is not over becomes recording and logs `recording active`;
    /// a finished job is left as it is.
    pub fn mark_recording(&mut self, now: u64) -> (r: Option<JobEvent>)
        ensures
            is_terminal_status(old(self).status) ==> *final(self) == *old(self) && r is None,
            !is_terminal_status(old(self).status) ==> {
                &&& final(self).status == JobStatus::Recording
                &&& pushed(*old(self), *final(self), EventLevel::Info, "recording active"@, now)
                &&& final(self).started_at_ms == old(self).started_at_ms
                &&& final(self).finished_at_ms == old(self).finished_at_ms
                &&& same_identity(*old(self), *final(self))
                &&& r is Some
            },
    {
        if self.is_terminal() {
            return None;
        }
        self.status = JobStatus::Recording;
        Some(self.push_event(EventLevel::Info, "recording active".to_string(), now))
    }

    /// A job that is not over becomes finishing and logs `stop requested`;
    /// a finished job is left as it is.
    pub fn mark_finishing(&mut self, now: u64) -> (r: Option<JobEvent>)
        ensures
            is_terminal_status(old(self).status) ==> *final(self) == *old(self) && r is None,
            !is_terminal_status(old(self).status) ==> {
                &&& final(self).status == JobStatus::Finishing
                &&& pushed(*old(self), *final(self), EventLevel::Info, "stop requested"@, now)
                &&& final(self).started_at_ms == old(self).started_at_ms
                &&& final(self).finished_at_ms == old(self).finished_at_ms
                &&& same_identity(*old(self), *final(self))
                &&& r is Some
            },
    {
        if self.is_terminal() {
            return None;
        }
        self.status = JobStatus::Finishing;
        Some(self.push_event(EventLevel::Info, "stop requested".to_string(), now))
    }

    /// A job that is not over is cancelled at `now` with a warning in its
    /// log; a finished job is left as it is.
    pub fn mark_cancelled(&mut self, now: u64) -> (r: Option<JobEvent>)
        ensures
            is_terminal_status(old(self).status) ==> *final(self) == *old(self) && r is None,
            !is_terminal_status(old(self).status) ==> {
                &&& final(self).status == JobStatus::Cancelled
                &&& final(self).finished_at_ms == Some(now)
                &&& pushed(*old(self), *final(self), EventLevel::Warning, "queued job cancelled"@, now)
                &&& final(self).started_at_ms == old(self).started_at_ms
                &&& same_identity(*old(self), *final(self))
                &&& r is Some
            },
    {
        if self.is_terminal() {
            return None;
        }
        self.status = JobStatus::Cancelled;
        self.finished_at_ms = Some(now);
        Some(self.push_event(EventLevel::Warning, "queued job cancelled".to_string(), now))
    }

    /// A job that is not over fails at `now` with `message` as an error in
    /// its log; a finished job is left as it is.
    pub fn mark_failed(&mut self, message: String, now: u64) -> (r: Option<JobEvent>)
        ensures
            is_terminal_status(old(self).status) ==> *final(self) == *old(self) && r is None,
            !is_terminal_status(old(self).status) ==> {
                &&& final(self).status == JobStatus::Failed
                &&& final(self).finished_at_ms == Some(now)
                &&& pushed(*old(self), *final(self), EventLevel::Error, message@, now)
                &&& final(self).started_at_ms == old(self).started_at_ms
                &&& same_identity(*old(self), *final(self))
                &&& r is Some
            },
    {
        if self.is_terminal() {
            return None;
        }
        self.status = JobStatus::Failed;
        self.finished_at_ms = Some(now);
        Some(self.push_event(EventLevel::Error, message, now))
    }

    /// A job that is not over completes at `now` with `status` in its log;
    /// a finished job is left as it is.
    pub fn mark_completed(&mut self, status: String, now: u64) -> (r: Option<JobEvent>)
        ensures
            is_terminal_status(old(self).status) ==> *final(self) == *old(self) && r is None,
            !is_terminal_status(old(self).status) ==> {
                &&& final(self).status == JobStatus::Completed
                &&& final(self).finished_at_ms == Some(now)
                &&& pushed(*old(self), *final(self), EventLevel::Info, status@, now)
                &&& final(self).started_at_ms == old(self).started_at_ms
                &&& same_identity(*old(self), *final(self))
                &&& r is Some
            },
    {
        if self.is_terminal() {
            return None;
        }
        self.status = JobStatus::Completed;
        self.finished_at_ms = Some(now);
        Some(self.push_event(EventLevel::Info, status, now))
    }
}

impl JobEvent {
    /// A copy of this event.
    pub fn duplicate(&self) -> (r: JobEvent)
        ensures
            r == *self,
    {
        JobEvent { timestamp_ms: self.timestamp_ms, level: self.level, message: self.message.clone(), metrics: self.metrics }
    }
}

/// A copy of a list of events.
pub fn copy_events(es: &Vec<JobEvent>) -> (r: Vec<JobEvent>)
    ensures
        r@ == es@,
{
    let mut out: Vec<JobEvent> = Vec::new();
    let mut i: usize = 0;
    while i < es.len()
        invariant
            i <= es.len(),
            out@ == es@.take(i as int),
        decreases es.len() - i,
    {
        out.push(es[i].duplicate());
        assert(out@ =~= es@.take(i + 1));
        i = i + 1;
    }
    assert(es@.take(es.len() as int) =~= es@);
    out
}

/// A copy of a list of warnings.
pub fn copy_warnings(ws: &Vec<AgentWarning>) -> (r: Vec<AgentWarning>)
    ensures
        r@ == ws@,
{
    let mut out: Vec<AgentWarning> = Vec::new();
    let mut i: usize = 0;
    while i < ws.len()
        invariant
            i <= ws.len(),
            out@ == ws@.take(i as int),
        decreases ws.len() - i,
    {
        out.push(ws[i].duplicate());
        assert(out@ =~= ws@.take(i + 1));
        i = i + 1;
    }
    assert(ws@.take(ws.len() as int) =~= ws@);
    out
}

/// What the daemon tells a client about a job.
pub struct JobSnapshot {
    pub id: u64,
    pub status: JobStatus,
    pub selector: Option<TargetSelector>,
    pub target: Option<CaptureTarget>,
    pub settings: Option<RecorderSettings>,
    pub output_path: Option<String>,
    pub queued_position: Option<usize>,
    pub warnings: Vec<AgentWarning>,
    pub events: Vec<JobEvent>,
    pub created_at_ms: u64,
    pub updated_at_ms: u64,
    pub started_at_ms: Option<u64>,
    pub finished_at_ms: Option<u64>,
}

impl JobRecord {
    /// The job as a client sees it, at `queued_position` in the queue.
    pub fn snapshot(&self, queued_position: Option<usize>) -> (r: JobSnapshot)
        ensures
            r.id == self.id,
            r.status == self.status,
            r.selector == self.selector,
            r.target == Some(self.target),
            r.settings == Some(self.settings),
            r.output_path == self.output_path,
            r.queued_position == queued_position,
            r.warnings@ == self.warnings@,
            r.events@ == self.events@,
            r.created_at_ms == self.created_at_ms,
            r.updated_at_ms == self.updated_at_ms,
            r.started_at_ms == self.started_at_ms,
            r.finished_at_ms == self.finished_at_ms,
    {
        JobSnapshot {
            id: self.id,
            status: self.status,
            selector: match &self.selector {
                Some(s) => Some(s.duplicate()),
                None => None,
            },
            target: Some(self.target.duplicate()),
            settings: Some(self.settings.duplicate()),
            output_path: match &self.output_path {
                Some(p) => Some(p.clone()),
                None => None,
            },
            queued_position,
            warnings: copy_warnings(&self.warnings),
            events: copy_events(&self.events),
            created_at_ms: self.created_at_ms,
            updated_at_ms: self.updated_at_ms,
            started_at_ms: self.started_at_ms,
            finished_at_ms: self.finished_at_ms,
        }
    }
}

} // verus!

//! What the recording history keeps: the rows written for recordings,
//! their log lines and the sizes the helper reports, with the text each
//! status, level and source is stored as.

use vstd::prelude::*;
use std::time::SystemTime;
use std::time::SystemTimeError;
use std::time::Duration;

verus! {

/// Where a recording stands in the history.
#[derive(Clone, Copy, Debug, PartialEq, Eq, Structural)]
pub enum RecordingStatus {
    Starting,
    Recording,
    Completed,
    Failed,
}

/// The stored text of a recording status.
pub open spec fn status_text(s: RecordingStatus) -> Seq<char> {
    match s {
        RecordingStatus::Starting => "starting"@,
        RecordingStatus::Recording => "recording"@,
        RecordingStatus::Completed => "completed"@,
        RecordingStatus::Failed => "failed"@,
    }
}

impl RecordingStatus {
    /// The stored text of this status.
    pub fn as_str(self) -> (r: &'static str)
        ensures
            r@ == status_text(self),
    {
        proof {
            reveal_strlit("starting");
            reveal_strlit("recording");
            reveal_strlit("completed");
            reveal_strlit("failed");
        }
        match self {
            RecordingStatus::Starting => "starting",
            RecordingStatus::Recording => "recording",
            RecordingStatus::Completed => "completed",
            RecordingStatus::Failed => "failed",
        }
    }
}

/// How serious a history event is.
#[derive(Clone, Copy, Debug, PartialEq, Eq, Structural)]
pub enum EventLevel {
    Info,
    Warn,
    Error,
}

/// The stored text of an event level.
pub open spec fn level_text(l: EventLevel) -> Seq<char> {
    match l {
        EventLevel::Info => "info"@,
        EventLevel::Warn => "warn"@,
        EventLevel::Error => "error"@,
    }
}

impl EventLevel {
    /// The stored text of this level.
    pub fn as_str(self) -> (r: &'static str)
        ensures
            r@ == level_text(self),
    {
        proof {
            reveal_strlit("info");
            reveal_strlit("warn");
            reveal_strlit("error");
        }
        match self {
            EventLevel::Info => "info",
            EventLevel::Warn => "warn",
            EventLevel::Error => "error",
        }
    }
}

/// Where a history event came from.
#[derive(Clone, Copy, Debug, PartialEq, Eq, Structural)]
pub enum EventSource {
    App,
    Backend,
    Helper,
    CaptureEngine,
}

/// The stored text of an event source.
pub open spec fn source_text(s: EventSource) -> Seq<char> {
    match s {
        EventSource::App => "app"@,
        EventSource::Backend => "backend"@,
        EventSource::Helper => "helper"@,
        EventSource::CaptureEngine => "capture_engine"@,
    }
}

impl EventSource {
    /// The stored text of this source.
    pub fn as_str(self) -> (r: &'static str)
        ensures
            r@ == source_text(self),
    {
        proof {
            reveal_strlit("app");
            reveal_strlit("backend");
            reveal_strlit("helper");
            reveal_strlit("capture_engine");
        }
        match self {
            EventSource::App => "app",
            EventSource::Backend => "backend",
            EventSource::Helper => "helper",
            EventSource::CaptureEngine => "capture_engine",
        }
    }
}

/// The row written when a recording starts.
#[derive(Clone, Debug)]
pub struct RecordingRecord {
    pub id: u64,
    pub started_at_ms: i64,
    pub output_path: String,
    pub target_kind: String,
    pub target_id: u64,
    pub target_name: String,
    pub codec: String,
    pub quality: String,
    pub resolution: String,
    pub fps: u32,
    pub include_cursor: bool,
    pub include_system_audio: bool,
}

/// A log line kept in the history.
#[derive(Clone, Debug)]
pub struct EventRecord {
    pub recording_id: Option<u64>,
    pub timestamp_ms: i64,
    pub level: EventLevel,
    pub source: EventSource,
    pub message: String,
    pub fields_json: Option<String>,
}

/// `RecordingRecord` with its text as characters.
pub struct RecordingRecordView {
    pub id: u64,
    pub started_at_ms: i64,
    pub output_path: Seq<char>,
    pub target_kind: Seq<char>,
    pub target_id: u64,
    pub target_name: Seq<char>,
    pub codec: Seq<char>,
    pub quality: Seq<char>,
    pub resolution: Seq<char>,
    pub fps: u32,
    pub include_cursor: bool,
    pub include_system_audio: bool,
}

impl View for RecordingRecord {
    type V = RecordingRecordView;

    open spec fn view(&self) -> RecordingRecordView {
        RecordingRecordView {
            id: self.id,
            started_at_ms: self.started_at_ms,
            output_path: self.output_path@,
            target_kind: self.target_kind@,
            target_id: self.target_id,
            target_name: self.target_name@,
            codec: self.codec@,
            quality: self.quality@,
            resolution: self.resolution@,
            fps: self.fps,
            include_cursor: self.include_cursor,
            include_system_audio: self.include_system_audio,
        }
    }
}

/// Optional text as characters.
pub open spec fn opt_chars(o: Option<String>) -> Option<Seq<char>> {
    match o {
        Some(s) => Some(s@),
        None => None,
    }
}

/// `EventRecord` with its text as characters.
pub struct EventRecordView {
    pub recording_id: Option<u64>,
    pub timestamp_ms: i64,
    pub level: EventLevel,
    pub source: EventSource,
    pub message: Seq<char>,
    pub fields_json: Option<Seq<char>>,
}

impl View for EventRecord {
    type V = EventRecordView;

    open spec fn view(&self) -> EventRecordView {
        EventRecordView {
            recording_id: self.recording_id,
            timestamp_ms: self.timestamp_ms,
            level: self.level,
            source: self.source,
            message: self.message@,
            fields_json: opt_chars(self.fields_json),
        }
    }
}

/// Native and encoded size of a capture, as the helper reports them.
#[derive(Clone, Copy, Debug, PartialEq, Eq, Structural)]
pub struct CaptureDimensions {
    pub native_width: i64,
    pub native_height: i64,
    pub output_width: i64,
    pub output_height: i64,
}

/// A flag as the integer the history stores for it.
pub fn bool_to_i64(value: bool) -> (r: i64)
    ensures
        r == (if value { 1i64 } else { 0i64 }),
{
    if value { 1 } else { 0 }
}

/// An unsigned value as the signed integer the history stores, held at
/// `i64::MAX`.
pub fn u64_to_i64(value: u64) -> (r: i64)
    ensures
        r as int == (if value as int > i64::MAX as int { i64::MAX as int } else { value as int }),
{
    if value > 9223372036854775807u64 {
        9223372036854775807i64
    } else {
        value as i64
    }
}

/// Milliseconds as the signed integer the history stores, held at
/// `i64::MAX`.
pub fn millis_to_i64(millis: u128) -> (r: i64)
    ensures
        r as int == (if millis as int > i64::MAX as int { i64::MAX as int } else { millis as int }),
{
    if millis > 9223372036854775807u128 {
        9223372036854775807i64
    } else {
        millis as i64
    }
}

/// std's `SystemTime`, a reading of the system clock; it is carried
/// through opaque, nothing is claimed of its contents.
#[verifier::external_type_specification]
#[verifier::external_body]
pub struct ExSystemTime(SystemTime);

/// std's `SystemTimeError`, the error of a clock reading before the
/// reference time; it is carried through opaque.
#[verifier::external_type_specification]
#[verifier::external_body]
pub struct ExSystemTimeError(SystemTimeError);

/// `SystemTime::now`: the clock now. What it reads depends on the machine,
/// so nothing is stated of it.
#[verifier::external_body]
fn system_time_now() -> SystemTime {
    SystemTime::now()
}

/// `SystemTime::duration_since` the Unix epoch; it fails for a clock set
/// before the epoch. Nothing is stated of the result, which depends on the
/// clock.
#[verifier::external_body]
fn since_unix_epoch(t: &SystemTime) -> Result<Duration, SystemTimeError> {
    t.duration_since(SystemTime::UNIX_EPOCH)
}

/// `Duration::as_millis`: the whole milliseconds of a duration. The
/// duration is opaque here, so nothing more than the type's range is stated.
#[verifier::external_body]
fn duration_as_millis(d: &Duration) -> u128 {
    d.as_millis()
}

/// The timestamp for a clock reading: its milliseconds since the Unix
/// epoch held at `i64::MAX`, or zero for a clock set before the epoch
/// (`None`).
pub fn millis_since_epoch(reading: Option<u128>) -> (r: i64)
    ensures
        r as int == match reading {
            Some(ms) => if ms as int > i64::MAX as int { i64::MAX as int } else { ms as int },
            None => 0,
        },
{
    match reading {
        Some(ms) => millis_to_i64(ms),
        None => 0,
    }
}

/// Milliseconds since the Unix epoch, held at `i64::MAX`; zero for a clock
/// set before the epoch. What the clock reads is not stated; the result is
/// `millis_since_epoch` of that reading.
pub fn now_ms() -> (r: i64)
    ensures
        r >= 0,
{
    let now = system_time_now();
    let reading = match since_unix_epoch(&now) {
        Ok(d) => Some(duration_as_millis(&d)),
        Err(_) => None,
    };
    millis_since_epoch(reading)
}

} // verus!

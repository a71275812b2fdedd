//! Recording settings, their command-line spellings and the preset limits
//! that each quality level imposes.

use vstd::prelude::*;
use crate::text::{push_chars, push_str, string_of};

verus! {

/// What kind of surface a recording captures.
#[derive(Clone, Copy, Debug, PartialEq, Eq, Structural)]
pub enum CaptureSourceKind {
    Display,
    Window,
}

/// Video codec of the encoded recording.
#[derive(Clone, Copy, Debug, PartialEq, Eq, Structural)]
pub enum Codec {
    Hevc,
    H264,
}

/// Frames per second of the recording.
#[derive(Clone, Copy, Debug, PartialEq, Eq, Structural)]
pub enum FrameRate {
    Fps30,
    Fps60,
}

/// Encoding quality preset.
#[derive(Clone, Copy, Debug, PartialEq, Eq, Structural)]
pub enum Quality {
    Efficient,
    Balanced,
    High,
}

/// Output resolution of the recording.
#[derive(Clone, Copy, Debug, PartialEq, Eq, Structural)]
pub enum Resolution {
    Native,
    R720p,
    R1080p,
    R2k,
    R4k,
}

/// Whether the system lets the recorder capture the screen.
#[derive(Clone, Copy, Debug, PartialEq, Eq, Structural)]
pub enum ScreenRecordingPermissionStatus {
    Unknown,
    Granted,
    Missing,
}

/// Frames per second as a number.
pub open spec fn fps_value(f: FrameRate) -> nat {
    match f {
        FrameRate::Fps30 => 30,
        FrameRate::Fps60 => 60,
    }
}

/// The lower of two frame rates.
pub open spec fn fps_min(a: FrameRate, b: FrameRate) -> FrameRate {
    if fps_value(a) <= fps_value(b) { a } else { b }
}

/// Size order of resolutions; `Native` is larger than every fixed size.
pub open spec fn resolution_rank(r: Resolution) -> nat {
    match r {
        Resolution::R720p => 1,
        Resolution::R1080p => 2,
        Resolution::R2k => 3,
        Resolution::R4k => 4,
        Resolution::Native => 5,
    }
}

/// The smaller of two resolutions in `resolution_rank` order.
pub open spec fn resolution_min(a: Resolution, b: Resolution) -> Resolution {
    if resolution_rank(a) <= resolution_rank(b) { a } else { b }
}

/// Largest resolution a quality preset allows (`None`: no limit).
pub open spec fn spec_max_resolution(q: Quality) -> Option<Resolution> {
    match q {
        Quality::Efficient => Some(Resolution::R720p),
        Quality::Balanced => Some(Resolution::R1080p),
        Quality::High => None,
    }
}

/// Highest frame rate a quality preset allows.
pub open spec fn spec_max_fps(q: Quality) -> FrameRate {
    match q {
        Quality::High => FrameRate::Fps60,
        _ => FrameRate::Fps30,
    }
}

/// The spelling of a codec on the capture engine's command line.
pub open spec fn codec_arg(c: Codec) -> Seq<char> {
    match c {
        Codec::Hevc => "hevc"@,
        Codec::H264 => "h264"@,
    }
}

/// The spelling of a quality preset on the capture engine's command line.
pub open spec fn quality_arg(q: Quality) -> Seq<char> {
    match q {
        Quality::Efficient => "efficient"@,
        Quality::Balanced => "balanced"@,
        Quality::High => "high"@,
    }
}

/// The spelling of a resolution on the capture engine's command line.
pub open spec fn resolution_arg(r: Resolution) -> Seq<char> {
    match r {
        Resolution::Native => "native"@,
        Resolution::R720p => "720p"@,
        Resolution::R1080p => "1080p"@,
        Resolution::R2k => "2k"@,
        Resolution::R4k => "4k"@,
    }
}

impl FrameRate {
    /// Frames per second.
    pub fn as_u32(self) -> (r: u32)
        ensures
            r == fps_value(self),
    {
        match self {
            FrameRate::Fps30 => 30,
            FrameRate::Fps60 => 60,
        }
    }

    /// This frame rate, lowered to `cap` when it is higher.
    pub fn capped_at(self, cap: FrameRate) -> (r: FrameRate)
        ensures
            r == fps_min(self, cap),
    {
        match (self, cap) {
            (FrameRate::Fps60, FrameRate::Fps30) => FrameRate::Fps30,
            _ => self,
        }
    }
}

impl Codec {
    /// The capture engine's spelling of this codec.
    pub fn as_arg(self) -> (r: &'static str)
        ensures
            r@ == codec_arg(self),
    {
        match self {
            Codec::Hevc => "hevc",
            Codec::H264 => "h264",
        }
    }
}

impl Quality {
    /// The capture engine's spelling of this preset.
    pub fn as_arg(self) -> (r: &'static str)
        ensures
            r@ == quality_arg(self),
    {
        match self {
            Quality::Efficient => "efficient",
            Quality::Balanced => "balanced",
            Quality::High => "high",
        }
    }

    /// Largest resolution this preset allows.
    pub fn max_resolution(self) -> (r: Option<Resolution>)
        ensures
            r == spec_max_resolution(self),
    {
        match self {
            Quality::Efficient => Some(Resolution::R720p),
            Quality::Balanced => Some(Resolution::R1080p),
            Quality::High => None,
        }
    }

    /// Highest frame rate this preset allows.
    pub fn max_fps(self) -> (r: FrameRate)
        ensures
            r == spec_max_fps(self),
    {
        match self {
            Quality::High => FrameRate::Fps60,
            Quality::Efficient | Quality::Balanced => FrameRate::Fps30,
        }
    }
}

impl Resolution {
    /// The capture engine's spelling of this resolution.
    pub fn as_arg(self) -> (r: &'static str)
        ensures
            r@ == resolution_arg(self),
    {
        match self {
            Resolution::Native => "native",
            Resolution::R720p => "720p",
            Resolution::R1080p => "1080p",
            Resolution::R2k => "2k",
            Resolution::R4k => "4k",
        }
    }

    /// This resolution, lowered to `cap` when it is larger.
    pub fn capped_at(self, cap: Resolution) -> (r: Resolution)
        ensures
            r == resolution_min(self, cap),
    {
        match cap {
            Resolution::Native => self,
            Resolution::R720p => Resolution::R720p,
            Resolution::R1080p => match self {
                Resolution::Native | Resolution::R4k | Resolution::R2k => Resolution::R1080p,
                _ => self,
            },
            Resolution::R2k => match self {
                Resolution::Native | Resolution::R4k => Resolution::R2k,
                _ => self,
            },
            Resolution::R4k => match self {
                Resolution::Native => Resolution::R4k,
                _ => self,
            },
        }
    }
}

impl ScreenRecordingPermissionStatus {
    /// Whether capture is allowed.
    pub fn is_granted(self) -> (r: bool)
        ensures
            r == (self == ScreenRecordingPermissionStatus::Granted),
    {
        match self {
            ScreenRecordingPermissionStatus::Granted => true,
            _ => false,
        }
    }
}

/// Everything that decides how a recording is made.
#[derive(Clone, Debug)]
pub struct RecorderSettings {
    pub source: CaptureSourceKind,
    pub fps: FrameRate,
    pub codec: Codec,
    pub quality: Quality,
    pub resolution: Resolution,
    pub output_dir: String,
    pub include_cursor: bool,
    pub include_system_audio: bool,
    pub hide_wrec: bool,
}

/// `s` with its resolution and frame rate lowered to what its quality allows.
pub open spec fn preset_limited(s: RecorderSettings) -> RecorderSettings {
    RecorderSettings {
        resolution: match spec_max_resolution(s.quality) {
            Some(max) => resolution_min(s.resolution, max),
            None => s.resolution,
        },
        fps: fps_min(s.fps, spec_max_fps(s.quality)),
        ..s
    }
}

/// `s` asks for nothing beyond what its quality preset allows.
pub open spec fn within_preset_limits(s: RecorderSettings) -> bool {
    &&& fps_value(s.fps) <= fps_value(spec_max_fps(s.quality))
    &&& match spec_max_resolution(s.quality) {
        Some(max) => resolution_rank(s.resolution) <= resolution_rank(max),
        None => true,
    }
}

/// The resolution used when a saved configuration names none.
pub open spec fn spec_default_resolution() -> Resolution {
    Resolution::R1080p
}

/// Whether system audio is captured when a saved configuration says nothing.
pub fn default_include_system_audio() -> (r: bool)
    ensures
        r,
{
    true
}

/// Whether wrec's own windows are hidden when a saved configuration says nothing.
pub fn default_hide_wrec() -> (r: bool)
    ensures
        r,
{
    true
}

/// The resolution used when a saved configuration names none.
pub fn default_resolution() -> (r: Resolution)
    ensures
        r == spec_default_resolution(),
{
    Resolution::R1080p
}

/// The name of the folder that recordings are saved in.
pub fn recordings_dir_name() -> (r: String)
    ensures
        r@ == "Wrec"@,
{
    "Wrec".to_string()
}

/// The default settings, saving into `output_dir`: display capture at
/// 30 FPS, H.264, balanced quality, 1080p, cursor and system audio on,
/// wrec's windows hidden.
pub open spec fn default_settings(output_dir: String) -> RecorderSettings {
    RecorderSettings {
        source: CaptureSourceKind::Display,
        fps: FrameRate::Fps30,
        codec: Codec::H264,
        quality: Quality::Balanced,
        resolution: spec_default_resolution(),
        output_dir: output_dir,
        include_cursor: true,
        include_system_audio: true,
        hide_wrec: true,
    }
}

impl RecorderSettings {
    /// The default settings, saving into `output_dir`.
    pub fn with_output_dir(output_dir: String) -> (r: RecorderSettings)
        ensures
            r == default_settings(output_dir),
    {
        RecorderSettings {
            source: CaptureSourceKind::Display,
            fps: FrameRate::Fps30,
            codec: Codec::H264,
            quality: Quality::Balanced,
            resolution: default_resolution(),
            output_dir,
            include_cursor: true,
            include_system_audio: default_include_system_audio(),
            hide_wrec: default_hide_wrec(),
        }
    }

    /// These settings with resolution and frame rate lowered to the limits
    /// of their quality preset; nothing else changes.
    pub fn with_preset_limits(self) -> (r: RecorderSettings)
        ensures
            r == preset_limited(self),
    {
        let mut s = self;
        match s.quality.max_resolution() {
            Some(max_resolution) => {
                s.resolution = s.resolution.capped_at(max_resolution);
            },
            None => {},
        }
        s.fps = s.fps.capped_at(s.quality.max_fps());
        s
    }
}

/// Preset limiting yields settings within the preset's limits.
pub proof fn preset_limits_are_respected(s: RecorderSettings)
    ensures
        within_preset_limits(preset_limited(s)),
{
}

/// Applying preset limits twice changes nothing the first application did not.
pub proof fn preset_limits_are_idempotent(s: RecorderSettings)
    ensures
        preset_limited(preset_limited(s)) == preset_limited(s),
{
}

/// Settings already within their limits are left as they are.
pub proof fn preset_limits_keep_conforming_settings(s: RecorderSettings)
    requires
        within_preset_limits(s),
    ensures
        preset_limited(s) == s,
{
}

/// Capping a resolution never raises it, never exceeds the cap, and capping
/// again by the same cap changes nothing.
pub proof fn resolution_cap_laws(r: Resolution, cap: Resolution)
    ensures
        resolution_rank(resolution_min(r, cap)) <= resolution_rank(r),
        resolution_rank(resolution_min(r, cap)) <= resolution_rank(cap),
        resolution_min(resolution_min(r, cap), cap) == resolution_min(r, cap),
{
}

/// Capping a frame rate never raises it and never exceeds the cap.
pub proof fn fps_cap_laws(f: FrameRate, cap: FrameRate)
    ensures
        fps_value(fps_min(f, cap)) <= fps_value(f),
        fps_value(fps_min(f, cap)) <= fps_value(cap),
        fps_min(fps_min(f, cap), cap) == fps_min(f, cap),
{
}


/// A display or window that can be recorded.
#[derive(Clone, Debug, PartialEq, Eq)]
pub struct CaptureTarget {
    pub id: u64,
    pub name: String,
    pub kind: CaptureSourceKind,
}

/// `CaptureTarget` with its name as characters.
pub struct CaptureTargetView {
    pub id: u64,
    pub name: Seq<char>,
    pub kind: CaptureSourceKind,
}

impl View for CaptureTarget {
    type V = CaptureTargetView;

    open spec fn view(&self) -> CaptureTargetView {
        CaptureTargetView { id: self.id, name: self.name@, kind: self.kind }
    }
}

impl CaptureTarget {
    /// A copy of this target.
    pub fn duplicate(&self) -> (r: CaptureTarget)
        ensures
            r == *self,
            r@ == self@,
    {
        CaptureTarget { id: self.id, name: self.name.clone(), kind: self.kind }
    }
}

/// A recording that has been started.
#[derive(Clone, Debug, PartialEq, Eq)]
pub struct RecordingSession {
    pub id: u64,
    pub output_path: String,
}

/// What a recorder engine reports about a session. A metrics report
/// carries its counters; the bitrate estimate that goes with them is a
/// float and is kept beside the event by the caller.
pub enum RecorderEvent {
    Starting { session_id: u64, target: CaptureTarget, settings: RecorderSettings, output_path: String },
    Log { session_id: Option<u64>, message: String },
    Metrics { session_id: u64, elapsed_secs: u64, output_bytes: u64 },
    Failed { session_id: Option<u64>, message: String },
    Exited { session_id: u64, success: bool, status: String },
}

/// `RecorderEvent` with its text as characters.
pub enum RecorderEventView {
    Starting { session_id: u64, target: CaptureTargetView, settings: RecorderSettings, output_path: Seq<char> },
    Log { session_id: Option<u64>, message: Seq<char> },
    Metrics { session_id: u64, elapsed_secs: u64, output_bytes: u64 },
    Failed { session_id: Option<u64>, message: Seq<char> },
    Exited { session_id: u64, success: bool, status: Seq<char> },
}

impl View for RecorderEvent {
    type V = RecorderEventView;

    open spec fn view(&self) -> RecorderEventView {
        match self {
            RecorderEvent::Starting { session_id, target, settings, output_path } => RecorderEventView::Starting {
                session_id: *session_id,
                target: target@,
                settings: *settings,
                output_path: output_path@,
            },
            RecorderEvent::Log { session_id, message } => RecorderEventView::Log { session_id: *session_id, message: message@ },
            RecorderEvent::Metrics { session_id, elapsed_secs, output_bytes } => RecorderEventView::Metrics {
                session_id: *session_id,
                elapsed_secs: *elapsed_secs,
                output_bytes: *output_bytes,
            },
            RecorderEvent::Failed { session_id, message } => RecorderEventView::Failed { session_id: *session_id, message: message@ },
            RecorderEvent::Exited { session_id, success, status } => RecorderEventView::Exited {
                session_id: *session_id,
                success: *success,
                status: status@,
            },
        }
    }
}

/// Why a recorder could not do what was asked.
#[derive(Clone, Debug, PartialEq, Eq)]
pub enum RecorderError {
    MissingScreenRecordingPermission,
    NoCaptureTarget,
    Backend(String),
}

/// The text that describes a recorder error.
pub open spec fn recorder_error_text(e: RecorderError) -> Seq<char> {
    match e {
        RecorderError::MissingScreenRecordingPermission => "screen recording permission is not granted"@,
        RecorderError::NoCaptureTarget => "no capture target selected"@,
        RecorderError::Backend(m) => "backend error: "@ + m@,
    }
}

impl RecorderError {
    /// The text that describes this error.
    pub fn message(&self) -> (r: String)
        ensures
            r@ == recorder_error_text(*self),
    {
        match self {
            RecorderError::MissingScreenRecordingPermission => "screen recording permission is not granted".to_string(),
            RecorderError::NoCaptureTarget => "no capture target selected".to_string(),
            RecorderError::Backend(m) => {
                let mut out: Vec<char> = Vec::new();
                push_str(&mut out, "backend error: ");
                let cs = crate::text::chars_of(m.as_str());
                push_chars(&mut out, &cs);
                assert(Seq::<char>::empty() + "backend error: "@ == "backend error: "@);
                string_of(&out)
            },
        }
    }
}

impl RecorderSettings {
    /// A copy of these settings.
    pub fn duplicate(&self) -> (r: RecorderSettings)
        ensures
            r == *self,
    {
        RecorderSettings {
            source: self.source,
            fps: self.fps,
            codec: self.codec,
            quality: self.quality,
            resolution: self.resolution,
            output_dir: self.output_dir.clone(),
            include_cursor: self.include_cursor,
            include_system_audio: self.include_system_audio,
            hide_wrec: self.hide_wrec,
        }
    }
}

} // verus!

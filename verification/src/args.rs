//! The `wrec` command line: tokens in, a command or an error message out.

use vstd::prelude::*;
use crate::digits::{all_digits, are_digits, decimal, digit_char, digits_value, is_digit, parse_u64, parse_u64_spec};
use crate::settings::{codec_arg, fps_value, quality_arg, resolution_arg, CaptureSourceKind, Codec, FrameRate, Quality, Resolution};
use crate::text::{
    chars_of, has_prefix, has_suffix, is_lit, join3, push_chars, push_str, slice,
    split_once, split_once_spec, starts_with, string_of, text3, contains_seq, lemma_first_occurrence, occurs_at,
};

verus! {

/// The help text that `wrec help` prints.
pub const USAGE: &'static str = "wrec - automate wrec screen recording from the terminal\n\nUsage:\n  wrec <command> [options]\n\nCommands:\n  targets [list]       List capture targets (displays and windows)\n  record start         Record with saved app settings plus per-run overrides\n  jobs                 List queued and recent recording jobs\n  job <action> <id>    Show, pause, resume, stop, cancel, or read logs\n  daemon <action>      Start/status/stop/serve the local coordinator\n  list                 Alias for targets\n  record               Alias for record start\n  help                 Show this help\n\nGlobal:\n  -h, --help           Show this help\n  -V, --version        Show the version\n\nlist options:\n  --json               Print targets as JSON\n\njob options:\n  jobs --json\n  job show <id> [--json]\n  job logs <id> [--json]\n  job pause <id> [--json]\n  job resume <id> [--json]\n  job stop <id> [--json]\n  job cancel <id> [--json]\n\nrecord options:\n  --target <kind:id>    Capture a target like display:1 or window:42\n  --display <id>        Override saved source and capture a display by id\n  --window <id>         Override saved source and capture a window by id\n  --app <name>          Capture a window owned by the named app\n  --target-name <text>  Capture the display/window whose name matches text\n  --window-name <text>  Capture the window whose name matches text\n  --display-name <text> Capture the display whose name matches text\n  --fps <30|60>        Override saved frame rate\n  --codec <hevc|h264>  Override saved video codec\n  --quality <efficient|balanced|high>     Override saved quality\n  --resolution <native|720p|1080p|2k|4k>  Override saved resolution\n  --out <dir>          Override saved output directory\n  --duration <time>     Stop automatically after a duration like 30s, 5m, or 1h\n  --cursor             Capture the cursor for this recording\n  --no-cursor          Do not capture the cursor for this recording\n  --system-audio       Capture system audio for this recording\n  --no-system-audio    Do not capture system audio for this recording\n  --hide-wrec          Hide Wrec windows for this recording\n  --no-hide-wrec       Do not hide Wrec windows for this recording\n  --detach             Submit the job and return immediately\n  --queue              Queue behind the active recording (default)\n  --no-queue           Fail if another recording is active\n  --json               Emit recorder events as JSON lines\n\nForeground record commands wait for the submitted job to finish. Use --detach\nto return immediately, then control active work with job pause/resume/stop.\n";

/// The help text.
pub fn usage() -> (r: String)
    ensures
        r@ == USAGE@,
{
    USAGE.to_string()
}

/// `wrec list`: print capture targets.
#[derive(Debug, PartialEq, Eq, Structural, Clone, Copy)]
pub struct ListArgs {
    pub json: bool,
}

/// `wrec jobs`: list recording jobs.
#[derive(Debug, PartialEq, Eq, Structural, Clone, Copy)]
pub struct JobsArgs {
    pub json: bool,
}

/// `wrec daemon <action>`.
#[derive(Debug, PartialEq, Eq, Structural, Clone, Copy)]
pub enum DaemonCommand {
    Start { json: bool },
    Status { json: bool },
    Stop { json: bool },
    Serve,
}

/// `wrec job <action> <id>`.
#[derive(Debug, PartialEq, Eq, Structural, Clone, Copy)]
pub enum JobCommand {
    Show { id: u64, json: bool },
    Logs { id: u64, json: bool },
    Pause { id: u64, json: bool },
    Resume { id: u64, json: bool },
    Stop { id: u64, json: bool },
    Cancel { id: u64, json: bool },
}

/// A length of time, in whole seconds plus nanoseconds below one second.
#[derive(Debug, PartialEq, Eq, Structural, Clone, Copy)]
pub struct RecordDuration {
    pub secs: u64,
    pub nanos: u32,
}

/// The length of `d` in nanoseconds.
pub open spec fn duration_nanos(d: RecordDuration) -> nat {
    d.secs as nat * 1_000_000_000 + d.nanos as nat
}

impl RecordDuration {
    /// A duration of whole seconds.
    pub fn from_secs(secs: u64) -> (r: RecordDuration)
        ensures
            r.secs == secs,
            r.nanos == 0,
    {
        RecordDuration { secs, nanos: 0 }
    }

    /// The whole milliseconds in this duration.
    pub fn as_millis(&self) -> (r: u128)
        ensures
            r == duration_nanos(*self) / 1_000_000,
    {
        self.secs as u128 * 1000 + (self.nanos / 1_000_000) as u128
    }
}

/// A capture target named by text rather than by id.
#[derive(Debug, PartialEq, Eq, Clone)]
pub enum TargetQuery {
    Name { kind: Option<CaptureSourceKind>, query: String },
    App(String),
}

/// `TargetQuery` with its text as characters.
pub enum TargetQueryView {
    Name { kind: Option<CaptureSourceKind>, query: Seq<char> },
    App(Seq<char>),
}

impl View for TargetQuery {
    type V = TargetQueryView;

    open spec fn view(&self) -> TargetQueryView {
        match self {
            TargetQuery::Name { kind, query } => TargetQueryView::Name { kind: *kind, query: query@ },
            TargetQuery::App(q) => TargetQueryView::App(q@),
        }
    }
}

/// `wrec record start`: saved settings plus the overrides given here.
#[derive(Debug, PartialEq, Eq, Clone)]
pub struct RecordArgs {
    pub source_kind: Option<CaptureSourceKind>,
    pub target_id: Option<u64>,
    pub target_query: Option<TargetQuery>,
    pub fps: Option<FrameRate>,
    pub codec: Option<Codec>,
    pub quality: Option<Quality>,
    pub resolution: Option<Resolution>,
    pub output_dir: Option<String>,
    pub include_cursor: Option<bool>,
    pub include_system_audio: Option<bool>,
    pub hide_wrec: Option<bool>,
    pub duration: Option<RecordDuration>,
    pub json: bool,
    pub detach: bool,
    pub queue: bool,
}

/// `RecordArgs` with its text as characters.
pub struct RecordArgsView {
    pub source_kind: Option<CaptureSourceKind>,
    pub target_id: Option<u64>,
    pub target_query: Option<TargetQueryView>,
    pub fps: Option<FrameRate>,
    pub codec: Option<Codec>,
    pub quality: Option<Quality>,
    pub resolution: Option<Resolution>,
    pub output_dir: Option<Seq<char>>,
    pub include_cursor: Option<bool>,
    pub include_system_audio: Option<bool>,
    pub hide_wrec: Option<bool>,
    pub duration: Option<RecordDuration>,
    pub json: bool,
    pub detach: bool,
    pub queue: bool,
}

impl View for RecordArgs {
    type V = RecordArgsView;

    open spec fn view(&self) -> RecordArgsView {
        RecordArgsView {
            source_kind: self.source_kind,
            target_id: self.target_id,
            target_query: match self.target_query {
                Some(q) => Some(q@),
                None => None,
            },
            fps: self.fps,
            codec: self.codec,
            quality: self.quality,
            resolution: self.resolution,
            output_dir: match self.output_dir {
                Some(d) => Some(d@),
                None => None,
            },
            include_cursor: self.include_cursor,
            include_system_audio: self.include_system_audio,
            hide_wrec: self.hide_wrec,
            duration: self.duration,
            json: self.json,
            detach: self.detach,
            queue: self.queue,
        }
    }
}

/// No overrides: record with the saved settings, wait for the job, queue it.
pub open spec fn default_record_view() -> RecordArgsView {
    RecordArgsView {
        source_kind: None,
        target_id: None,
        target_query: None,
        fps: None,
        codec: None,
        quality: None,
        resolution: None,
        output_dir: None,
        include_cursor: None,
        include_system_audio: None,
        hide_wrec: None,
        duration: None,
        json: false,
        detach: false,
        queue: true,
    }
}

impl RecordArgs {
    /// No overrides: record with the saved settings, wait for the job, queue it.
    pub fn defaults() -> (r: RecordArgs)
        ensures
            r@ == default_record_view(),
    {
        RecordArgs {
            source_kind: None,
            target_id: None,
            target_query: None,
            fps: None,
            codec: None,
            quality: None,
            resolution: None,
            output_dir: None,
            include_cursor: None,
            include_system_audio: None,
            hide_wrec: None,
            duration: None,
            json: false,
            detach: false,
            queue: true,
        }
    }
}

impl Default for RecordArgs {
    /// No overrides: record with the saved settings, wait for the job, queue it.
    fn default() -> (r: RecordArgs)
        ensures
            r@ == default_record_view(),
    {
        RecordArgs::defaults()
    }
}

/// A parsed `wrec` invocation.
#[derive(Debug, PartialEq, Eq, Clone)]
pub enum Command {
    List(ListArgs),
    Record(RecordArgs),
    Daemon(DaemonCommand),
    Jobs(JobsArgs),
    Job(JobCommand),
    Help,
    Version,
}

/// `Command` with its text as characters.
pub enum CommandView {
    List(ListArgs),
    Record(RecordArgsView),
    Daemon(DaemonCommand),
    Jobs(JobsArgs),
    Job(JobCommand),
    Help,
    Version,
}

impl View for Command {
    type V = CommandView;

    open spec fn view(&self) -> CommandView {
        match self {
            Command::List(a) => CommandView::List(*a),
            Command::Record(a) => CommandView::Record(a@),
            Command::Daemon(d) => CommandView::Daemon(*d),
            Command::Jobs(a) => CommandView::Jobs(*a),
            Command::Job(j) => CommandView::Job(*j),
            Command::Help => CommandView::Help,
            Command::Version => CommandView::Version,
        }
    }
}

/// A result of the parser, with text as characters.
pub open spec fn result_view(r: Result<Command, String>) -> Result<CommandView, Seq<char>> {
    match r {
        Ok(c) => Ok(c@),
        Err(e) => Err(e@),
    }
}

/// What `--fps` accepts.
pub open spec fn parse_fps_spec(v: Seq<char>) -> Result<FrameRate, Seq<char>> {
    if v == "30"@ {
        Ok(FrameRate::Fps30)
    } else if v == "60"@ {
        Ok(FrameRate::Fps60)
    } else {
        Err("invalid --fps `"@ + v + "` (expected 30 or 60)"@)
    }
}

/// What `--codec` accepts.
pub open spec fn parse_codec_spec(v: Seq<char>) -> Result<Codec, Seq<char>> {
    if v == "hevc"@ {
        Ok(Codec::Hevc)
    } else if v == "h264"@ {
        Ok(Codec::H264)
    } else {
        Err("invalid --codec `"@ + v + "` (expected hevc or h264)"@)
    }
}

/// What `--quality` accepts.
pub open spec fn parse_quality_spec(v: Seq<char>) -> Result<Quality, Seq<char>> {
    if v == "efficient"@ {
        Ok(Quality::Efficient)
    } else if v == "balanced"@ {
        Ok(Quality::Balanced)
    } else if v == "high"@ {
        Ok(Quality::High)
    } else {
        Err("invalid --quality `"@ + v + "` (expected efficient, balanced, or high)"@)
    }
}

/// What `--resolution` accepts.
pub open spec fn parse_resolution_spec(v: Seq<char>) -> Result<Resolution, Seq<char>> {
    if v == "native"@ {
        Ok(Resolution::Native)
    } else if v == "720p"@ {
        Ok(Resolution::R720p)
    } else if v == "1080p"@ {
        Ok(Resolution::R1080p)
    } else if v == "2k"@ {
        Ok(Resolution::R2k)
    } else if v == "4k"@ {
        Ok(Resolution::R4k)
    } else {
        Err("invalid --resolution `"@ + v + "` (expected native, 720p, 1080p, 2k, or 4k)"@)
    }
}

/// `--resolution` reads each name it lists as the resolution of that name
/// (`native`, `720p`, `1080p`, `2k`, `4k`), and nothing else as a resolution.
pub proof fn resolution_values_read_as_their_names(v: Seq<char>, r: Resolution)
    ensures
        parse_resolution_spec(v) == Ok::<Resolution, Seq<char>>(r) <==> v == resolution_arg(r),
{
    reveal_strlit("native");
    reveal_strlit("720p");
    reveal_strlit("1080p");
    reveal_strlit("2k");
    reveal_strlit("4k");
    assert("720p"@[0] != "1080p"@[0]);
    assert("2k"@[0] != "4k"@[0]);
}

/// `--codec` reads `hevc` and `h264` as those codecs, and nothing else as
/// a codec.
pub proof fn codec_values_read_as_their_names(v: Seq<char>, c: Codec)
    ensures
        parse_codec_spec(v) == Ok::<Codec, Seq<char>>(c) <==> v == codec_arg(c),
{
    reveal_strlit("hevc");
    reveal_strlit("h264");
    assert("hevc"@[1] != "h264"@[1]);
}

/// `--quality` reads `efficient`, `balanced` and `high` as those presets,
/// and nothing else as a preset.
pub proof fn quality_values_read_as_their_names(v: Seq<char>, q: Quality)
    ensures
        parse_quality_spec(v) == Ok::<Quality, Seq<char>>(q) <==> v == quality_arg(q),
{
    reveal_strlit("efficient");
    reveal_strlit("balanced");
    reveal_strlit("high");
    assert("efficient"@.len() == 9 && "balanced"@.len() == 8 && "high"@.len() == 4);
}

/// `--fps` reads the decimal number of frames per second of each frame rate
/// (`30`, `60`) as that rate, and nothing else as a frame rate.
pub proof fn fps_values_read_as_their_numbers(v: Seq<char>, f: FrameRate)
    ensures
        parse_fps_spec(v) == Ok::<FrameRate, Seq<char>>(f) <==> v == decimal(fps_value(f)),
{
    reveal_strlit("30");
    reveal_strlit("60");
    assert(decimal(3) == seq![digit_char(3)]);
    assert(decimal(6) == seq![digit_char(6)]);
    assert(decimal(30) == decimal(3).push(digit_char(0)));
    assert(decimal(60) == decimal(6).push(digit_char(0)));
    assert(decimal(30) =~= "30"@);
    assert(decimal(60) =~= "60"@);
    assert("30"@[0] != "60"@[0]);
}

/// A numeric id given for `flag`.
pub open spec fn parse_id_spec(v: Seq<char>, flag: Seq<char>) -> Result<u64, Seq<char>> {
    match parse_u64_spec(v) {
        Some(n) => Ok(n),
        None => Err(flag + " expects a numeric id, got `"@ + v + "`"@),
    }
}

/// What `--target` accepts: `display:<id>` or `window:<id>`.
pub open spec fn parse_target_spec(v: Seq<char>) -> Result<(CaptureSourceKind, u64), Seq<char>> {
    match split_once_spec(v, ":"@) {
        None => Err("invalid --target `"@ + v + "` (expected display:<id> or window:<id>)"@),
        Some((kind, id)) => {
            if kind == "display"@ || kind == "window"@ {
                let k = if kind == "display"@ { CaptureSourceKind::Display } else { CaptureSourceKind::Window };
                match parse_id_spec(id, "--target"@) {
                    Ok(n) => Ok((k, n)),
                    Err(e) => Err(e),
                }
            } else {
                Err("invalid --target kind `"@ + kind + "` (expected display or window)"@)
            }
        },
    }
}

/// Parses `--fps`.
pub fn parse_fps(v: &Vec<char>) -> (r: Result<FrameRate, String>)
    ensures
        match (r, parse_fps_spec(v@)) {
            (Ok(a), Ok(b)) => a == b,
            (Err(e), Err(m)) => e@ == m,
            _ => false,
        },
{
    if is_lit(v, "30") {
        Ok(FrameRate::Fps30)
    } else if is_lit(v, "60") {
        Ok(FrameRate::Fps60)
    } else {
        Err(text3("invalid --fps `", v, "` (expected 30 or 60)"))
    }
}

/// Parses `--codec`.
pub fn parse_codec(v: &Vec<char>) -> (r: Result<Codec, String>)
    ensures
        match (r, parse_codec_spec(v@)) {
            (Ok(a), Ok(b)) => a == b,
            (Err(e), Err(m)) => e@ == m,
            _ => false,
        },
{
    if is_lit(v, "hevc") {
        Ok(Codec::Hevc)
    } else if is_lit(v, "h264") {
        Ok(Codec::H264)
    } else {
        Err(text3("invalid --codec `", v, "` (expected hevc or h264)"))
    }
}

/// Parses `--quality`.
pub fn parse_quality(v: &Vec<char>) -> (r: Result<Quality, String>)
    ensures
        match (r, parse_quality_spec(v@)) {
            (Ok(a), Ok(b)) => a == b,
            (Err(e), Err(m)) => e@ == m,
            _ => false,
        },
{
    if is_lit(v, "efficient") {
        Ok(Quality::Efficient)
    } else if is_lit(v, "balanced") {
        Ok(Quality::Balanced)
    } else if is_lit(v, "high") {
        Ok(Quality::High)
    } else {
        Err(text3("invalid --quality `", v, "` (expected efficient, balanced, or high)"))
    }
}

/// Parses `--resolution`.
pub fn parse_resolution(v: &Vec<char>) -> (r: Result<Resolution, String>)
    ensures
        match (r, parse_resolution_spec(v@)) {
            (Ok(a), Ok(b)) => a == b,
            (Err(e), Err(m)) => e@ == m,
            _ => false,
        },
{
    if is_lit(v, "native") {
        Ok(Resolution::Native)
    } else if is_lit(v, "720p") {
        Ok(Resolution::R720p)
    } else if is_lit(v, "1080p") {
        Ok(Resolution::R1080p)
    } else if is_lit(v, "2k") {
        Ok(Resolution::R2k)
    } else if is_lit(v, "4k") {
        Ok(Resolution::R4k)
    } else {
        Err(text3("invalid --resolution `", v, "` (expected native, 720p, 1080p, 2k, or 4k)"))
    }
}

/// Parses a numeric id given for `flag`.
pub fn parse_id(v: &Vec<char>, flag: &str) -> (r: Result<u64, String>)
    ensures
        match (r, parse_id_spec(v@, flag@)) {
            (Ok(a), Ok(b)) => a == b,
            (Err(e), Err(m)) => e@ == m,
            _ => false,
        },
{
    match parse_u64(v) {
        Some(n) => Ok(n),
        None => {
            let mut out: Vec<char> = Vec::new();
            push_str(&mut out, flag);
            push_str(&mut out, " expects a numeric id, got `");
            push_chars(&mut out, v);
            push_str(&mut out, "`");
            assert(Seq::<char>::empty() + flag@ == flag@);
            Err(string_of(&out))
        },
    }
}

/// Parses `--target`.
pub fn parse_target(v: &Vec<char>) -> (r: Result<(CaptureSourceKind, u64), String>)
    ensures
        match (r, parse_target_spec(v@)) {
            (Ok(a), Ok(b)) => a == b,
            (Err(e), Err(m)) => e@ == m,
            _ => false,
        },
{
    let colon = chars_of(":");
    match split_once(v, &colon) {
        None => Err(text3("invalid --target `", v, "` (expected display:<id> or window:<id>)")),
        Some((kind, id)) => {
            let k = if is_lit(&kind, "display") {
                CaptureSourceKind::Display
            } else if is_lit(&kind, "window") {
                CaptureSourceKind::Window
            } else {
                return Err(text3("invalid --target kind `", &kind, "` (expected display or window)"));
            };
            match parse_id(&id, "--target") {
                Ok(n) => Ok((k, n)),
                Err(e) => Err(e),
            }
        },
    }
}


/// The units a `--duration` value may end in.
#[derive(Debug, PartialEq, Eq, Clone, Copy, Structural)]
pub enum DurationUnit {
    /// `ms`.
    Millis,
    /// `s`, or bare digits.
    Seconds,
    /// `m`.
    Minutes,
    /// `h`.
    Hours,
}

/// The number part of a `--duration` value and its unit: `ms`, `s`, `m`,
/// `h`, or bare digits meaning seconds.
pub open spec fn duration_parts_spec(v: Seq<char>) -> Option<(Seq<char>, DurationUnit)> {
    if has_suffix(v, "ms"@) {
        Some((v.take(v.len() - 2), DurationUnit::Millis))
    } else if has_suffix(v, "s"@) {
        Some((v.drop_last(), DurationUnit::Seconds))
    } else if has_suffix(v, "m"@) {
        Some((v.drop_last(), DurationUnit::Minutes))
    } else if has_suffix(v, "h"@) {
        Some((v.drop_last(), DurationUnit::Hours))
    } else if all_digits(v) {
        Some((v, DurationUnit::Seconds))
    } else {
        None
    }
}

/// How the number part of a `--duration` value read as a floating-point
/// number, times its unit in seconds. The float arithmetic (std's `f64`
/// parsing and `Duration::try_from_secs_f64`) is done by the caller, since
/// this library holds no floating point; every decision around it is made
/// here.
#[derive(Debug, PartialEq, Eq, Clone, Copy, Structural)]
pub enum AmountReading {
    /// The number is not a float.
    Unreadable,
    /// The float is not finite, or not above zero.
    NotPositive,
    /// The scaled seconds do not fit a duration.
    TooLarge,
    /// The scaled seconds, as a duration.
    Read(RecordDuration),
}

/// What `--duration v` gives when the float reading of its number went as
/// `reading`.
pub open spec fn parse_duration_spec(v: Seq<char>, reading: AmountReading) -> Result<RecordDuration, Seq<char>> {
    match duration_parts_spec(v) {
        None => Err("invalid --duration `"@ + v + "` (expected a positive duration like 30s, 5m, or 1h)"@),
        Some(_) => match reading {
            AmountReading::Unreadable => Err("invalid --duration `"@ + v + "`"@),
            AmountReading::NotPositive => Err("invalid --duration `"@ + v + "` (must be greater than zero)"@),
            AmountReading::TooLarge => Err("invalid --duration `"@ + v + "` (duration is too large)"@),
            AmountReading::Read(d) => Ok(d),
        },
    }
}

/// Splits a `--duration` value into its number and its unit.
pub fn duration_parts(v: &Vec<char>) -> (r: Option<(Vec<char>, DurationUnit)>)
    ensures
        match (r, duration_parts_spec(v@)) {
            (Some((n, u)), Some((sn, su))) => n@ == sn && u == su,
            (None, None) => true,
            _ => false,
        },
{
    let len = v.len();
    proof {
        reveal_strlit("ms");
        reveal_strlit("s");
        reveal_strlit("m");
        reveal_strlit("h");
    }
    if len >= 2 && v[len - 2] == 'm' && v[len - 1] == 's' {
        assert(v@.skip(len - 2) =~= "ms"@);
        return Some((slice(v, 0, len - 2), DurationUnit::Millis));
    }
    proof {
        if has_suffix(v@, "ms"@) {
            assert(v@.skip(len - 2)[0] == v@[len - 2]);
            assert(v@.skip(len - 2)[1] == v@[len - 1]);
        }
    }
    if len >= 1 && (v[len - 1] == 's' || v[len - 1] == 'm' || v[len - 1] == 'h') {
        let last = v[len - 1];
        let number = slice(v, 0, len - 1);
        assert(number@ == v@.drop_last());
        if last == 's' {
            assert(v@.skip(len - 1) =~= "s"@);
            return Some((number, DurationUnit::Seconds));
        } else if last == 'm' {
            assert(v@.skip(len - 1) =~= "m"@);
            assert(!has_suffix(v@, "s"@)) by {
                if has_suffix(v@, "s"@) { assert(v@.skip(len - 1)[0] == v@[len - 1]); }
            }
            return Some((number, DurationUnit::Minutes));
        } else {
            assert(v@.skip(len - 1) =~= "h"@);
            assert(!has_suffix(v@, "s"@) && !has_suffix(v@, "m"@)) by {
                if has_suffix(v@, "s"@) || has_suffix(v@, "m"@) { assert(v@.skip(len - 1)[0] == v@[len - 1]); }
            }
            return Some((number, DurationUnit::Hours));
        }
    }
    proof {
        if has_suffix(v@, "s"@) || has_suffix(v@, "m"@) || has_suffix(v@, "h"@) {
            assert(v@.skip(len - 1)[0] == v@[len - 1]);
        }
    }
    if are_digits(v) {
        let copy = slice(v, 0, len);
        assert(v@.subrange(0, len as int) == v@);
        Some((copy, DurationUnit::Seconds))
    } else {
        None
    }
}

/// Parses `--duration v`, given how the float reading of its number went.
pub fn parse_duration(v: &Vec<char>, reading: AmountReading) -> (r: Result<RecordDuration, String>)
    ensures
        match (r, parse_duration_spec(v@, reading)) {
            (Ok(a), Ok(b)) => a == b,
            (Err(e), Err(m)) => e@ == m,
            _ => false,
        },
{
    match duration_parts(v) {
        None => Err(text3("invalid --duration `", v, "` (expected a positive duration like 30s, 5m, or 1h)")),
        Some(_) => match reading {
            AmountReading::Unreadable => Err(text3("invalid --duration `", v, "`")),
            AmountReading::NotPositive => Err(text3("invalid --duration `", v, "` (must be greater than zero)")),
            AmountReading::TooLarge => Err(text3("invalid --duration `", v, "` (duration is too large)")),
            AmountReading::Read(d) => Ok(d),
        },
    }
}

/// The float reading given for token `i`; a token with none reads as no
/// number.
pub open spec fn reading_at(readings: Seq<AmountReading>, i: int) -> AmountReading {
    if 0 <= i < readings.len() { readings[i] } else { AmountReading::Unreadable }
}

fn reading_at_x(readings: &Vec<AmountReading>, i: usize) -> (r: AmountReading)
    ensures
        r == reading_at(readings@, i as int),
{
    if i < readings.len() { readings[i] } else { AmountReading::Unreadable }
}

/// The tokens as character sequences.
pub open spec fn toks(ts: &Vec<Vec<char>>) -> Seq<Seq<char>> {
    ts@.map_values(|t: Vec<char>| t@)
}

/// One of the spellings of "help".
pub open spec fn is_help_word(a: Seq<char>) -> bool {
    a == "help"@ || a == "-h"@ || a == "--help"@
}

/// `-h` or `--help`.
pub open spec fn is_help_flag(a: Seq<char>) -> bool {
    a == "-h"@ || a == "--help"@
}

/// `wrec list` options from index `i`, with `--json` seen so far or not.
pub open spec fn list_loop(ts: Seq<Seq<char>>, i: int, json: bool) -> Result<CommandView, Seq<char>>
    decreases ts.len() - i,
{
    if i < 0 || i >= ts.len() {
        Ok(CommandView::List(ListArgs { json }))
    } else if ts[i] == "--json"@ {
        list_loop(ts, i + 1, true)
    } else if is_help_flag(ts[i]) {
        Ok(CommandView::Help)
    } else {
        Err("unknown option for `list`: "@ + ts[i])
    }
}

/// The trailing `--json` of `command`'s tokens from index `i`.
pub open spec fn json_tail(ts: Seq<Seq<char>>, i: int, command: Seq<char>, json: bool) -> Result<bool, Seq<char>>
    decreases ts.len() - i,
{
    if i < 0 || i >= ts.len() {
        Ok(json)
    } else if ts[i] == "--json"@ {
        json_tail(ts, i + 1, command, true)
    } else if is_help_flag(ts[i]) {
        Err("use `wrec "@ + command + " --help` from top-level help"@)
    } else {
        Err("unknown option for `"@ + command + "`: "@ + ts[i])
    }
}

fn is_help_word_x(a: &Vec<char>) -> (r: bool)
    ensures
        r == is_help_word(a@),
{
    is_lit(a, "help") || is_lit(a, "-h") || is_lit(a, "--help")
}

fn is_help_flag_x(a: &Vec<char>) -> (r: bool)
    ensures
        r == is_help_flag(a@),
{
    is_lit(a, "-h") || is_lit(a, "--help")
}

fn parse_list(ts: &Vec<Vec<char>>, start: usize) -> (r: Result<Command, String>)
    requires
        start <= ts.len(),
    ensures
        result_view(r) == list_loop(toks(ts), start as int, false),
{
    let ghost t = toks(ts);
    let mut json = false;
    let mut i = start;
    while i < ts.len()
        invariant
            start <= i <= ts.len(),
            t == toks(ts),
            list_loop(t, start as int, false) == list_loop(t, i as int, json),
        decreases ts.len() - i,
    {
        let a = &ts[i];
        assert(t[i as int] == a@);
        if is_lit(a, "--json") {
            json = true;
        } else if is_help_flag_x(a) {
            return Ok(Command::Help);
        } else {
            let mut m: Vec<char> = Vec::new();
            push_str(&mut m, "unknown option for `list`: ");
            push_chars(&mut m, a);
            assert(Seq::<char>::empty() + "unknown option for `list`: "@ == "unknown option for `list`: "@);
            return Err(string_of(&m));
        }
        i = i + 1;
    }
    Ok(Command::List(ListArgs { json }))
}

fn parse_json_tail(ts: &Vec<Vec<char>>, start: usize, command: &str) -> (r: Result<bool, String>)
    requires
        start <= ts.len(),
    ensures
        match (r, json_tail(toks(ts), start as int, command@, false)) {
            (Ok(a), Ok(b)) => a == b,
            (Err(e), Err(m)) => e@ == m,
            _ => false,
        },
{
    let ghost t = toks(ts);
    let mut json = false;
    let mut i = start;
    while i < ts.len()
        invariant
            start <= i <= ts.len(),
            t == toks(ts),
            json_tail(t, start as int, command@, false) == json_tail(t, i as int, command@, json),
        decreases ts.len() - i,
    {
        let a = &ts[i];
        assert(t[i as int] == a@);
        if is_lit(a, "--json") {
            json = true;
        } else if is_help_flag_x(a) {
            let c = chars_of(command);
            return Err(text3("use `wrec ", &c, " --help` from top-level help"));
        } else {
            let mut m: Vec<char> = Vec::new();
            push_str(&mut m, "unknown option for `");
            push_str(&mut m, command);
            push_str(&mut m, "`: ");
            push_chars(&mut m, a);
            assert(Seq::<char>::empty() + "unknown option for `"@ == "unknown option for `"@);
            return Err(string_of(&m));
        }
        i = i + 1;
    }
    Ok(json)
}

/// `message`, a blank line, then the help text.
pub open spec fn with_usage(message: Seq<char>) -> Seq<char> {
    message + "\n\n"@ + USAGE@
}

fn text_with_usage(a: &str, b: &Vec<char>, c: &str) -> (r: String)
    ensures
        r@ == with_usage(a@ + b@ + c@),
{
    let mut m = join3(a, b, c);
    push_str(&mut m, "\n\n");
    push_str(&mut m, USAGE);
    string_of(&m)
}

/// `wrec daemon ...`, the action at index `i`.
pub open spec fn daemon_spec(ts: Seq<Seq<char>>, i: int) -> Result<CommandView, Seq<char>> {
    if i < 0 || i >= ts.len() {
        Ok(CommandView::Daemon(DaemonCommand::Status { json: false }))
    } else {
        let action = ts[i];
        match json_tail(ts, i + 1, "daemon"@, false) {
            Err(e) => Err(e),
            Ok(json) => {
                if action == "start"@ {
                    Ok(CommandView::Daemon(DaemonCommand::Start { json }))
                } else if action == "status"@ {
                    Ok(CommandView::Daemon(DaemonCommand::Status { json }))
                } else if action == "stop"@ {
                    Ok(CommandView::Daemon(DaemonCommand::Stop { json }))
                } else if action == "serve"@ {
                    Ok(CommandView::Daemon(DaemonCommand::Serve))
                } else if is_help_word(action) {
                    Ok(CommandView::Help)
                } else {
                    Err(with_usage("unknown daemon action `"@ + action + "`"@))
                }
            },
        }
    }
}

fn parse_daemon(ts: &Vec<Vec<char>>, start: usize) -> (r: Result<Command, String>)
    requires
        start <= ts.len(),
    ensures
        result_view(r) == daemon_spec(toks(ts), start as int),
{
    if start >= ts.len() {
        return Ok(Command::Daemon(DaemonCommand::Status { json: false }));
    }
    let action = &ts[start];
    assert(toks(ts)[start as int] == action@);
    let json = match parse_json_tail(ts, start + 1, "daemon") {
        Ok(j) => j,
        Err(e) => return Err(e),
    };
    if is_lit(action, "start") {
        Ok(Command::Daemon(DaemonCommand::Start { json }))
    } else if is_lit(action, "status") {
        Ok(Command::Daemon(DaemonCommand::Status { json }))
    } else if is_lit(action, "stop") {
        Ok(Command::Daemon(DaemonCommand::Stop { json }))
    } else if is_lit(action, "serve") {
        Ok(Command::Daemon(DaemonCommand::Serve))
    } else if is_help_word_x(action) {
        Ok(Command::Help)
    } else {
        Err(text_with_usage("unknown daemon action `", action, "`"))
    }
}

/// `wrec jobs ...`, options from index `i`.
pub open spec fn jobs_spec(ts: Seq<Seq<char>>, i: int) -> Result<CommandView, Seq<char>> {
    match json_tail(ts, i, "jobs"@, false) {
        Ok(json) => Ok(CommandView::Jobs(JobsArgs { json })),
        Err(e) => Err(e),
    }
}

fn parse_jobs(ts: &Vec<Vec<char>>, start: usize) -> (r: Result<Command, String>)
    requires
        start <= ts.len(),
    ensures
        result_view(r) == jobs_spec(toks(ts), start as int),
{
    match parse_json_tail(ts, start, "jobs") {
        Ok(json) => Ok(Command::Jobs(JobsArgs { json })),
        Err(e) => Err(e),
    }
}

/// `wrec job <action> <id> ...`, the action at index `i`.
pub open spec fn job_spec(ts: Seq<Seq<char>>, i: int) -> Result<CommandView, Seq<char>> {
    if i < 0 || i >= ts.len() {
        Err(with_usage("missing job action"@))
    } else if is_help_word(ts[i]) {
        Ok(CommandView::Help)
    } else if i + 1 >= ts.len() {
        Err("missing job id for `job "@ + ts[i] + "`"@)
    } else {
        let action = ts[i];
        match parse_id_spec(ts[i + 1], "job id"@) {
            Err(e) => Err(e),
            Ok(id) => match json_tail(ts, i + 2, "job"@, false) {
                Err(e) => Err(e),
                Ok(json) => {
                    if action == "show"@ {
                        Ok(CommandView::Job(JobCommand::Show { id, json }))
                    } else if action == "logs"@ {
                        Ok(CommandView::Job(JobCommand::Logs { id, json }))
                    } else if action == "pause"@ {
                        Ok(CommandView::Job(JobCommand::Pause { id, json }))
                    } else if action == "resume"@ {
                        Ok(CommandView::Job(JobCommand::Resume { id, json }))
                    } else if action == "stop"@ {
                        Ok(CommandView::Job(JobCommand::Stop { id, json }))
                    } else if action == "cancel"@ {
                        Ok(CommandView::Job(JobCommand::Cancel { id, json }))
                    } else {
                        Err(with_usage("unknown job action `"@ + action + "`"@))
                    }
                },
            },
        }
    }
}

fn parse_job(ts: &Vec<Vec<char>>, start: usize) -> (r: Result<Command, String>)
    requires
        start <= ts.len(),
    ensures
        result_view(r) == job_spec(toks(ts), start as int),
{
    if start >= ts.len() {
        let mut m: Vec<char> = Vec::new();
        push_str(&mut m, "missing job action");
        push_str(&mut m, "\n\n");
        push_str(&mut m, USAGE);
        assert(Seq::<char>::empty() + "missing job action"@ == "missing job action"@);
        return Err(string_of(&m));
    }
    let action = &ts[start];
    assert(toks(ts)[start as int] == action@);
    if is_help_word_x(action) {
        return Ok(Command::Help);
    }
    if start + 1 >= ts.len() {
        return Err(text3("missing job id for `job ", action, "`"));
    }
    assert(toks(ts)[start + 1] == ts@[start + 1]@);
    let id = match parse_id(&ts[start + 1], "job id") {
        Ok(n) => n,
        Err(e) => return Err(e),
    };
    let json = match parse_json_tail(ts, start + 2, "job") {
        Ok(j) => j,
        Err(e) => return Err(e),
    };
    if is_lit(action, "show") {
        Ok(Command::Job(JobCommand::Show { id, json }))
    } else if is_lit(action, "logs") {
        Ok(Command::Job(JobCommand::Logs { id, json }))
    } else if is_lit(action, "pause") {
        Ok(Command::Job(JobCommand::Pause { id, json }))
    } else if is_lit(action, "resume") {
        Ok(Command::Job(JobCommand::Resume { id, json }))
    } else if is_lit(action, "stop") {
        Ok(Command::Job(JobCommand::Stop { id, json }))
    } else if is_lit(action, "cancel") {
        Ok(Command::Job(JobCommand::Cancel { id, json }))
    } else {
        Err(text_with_usage("unknown job action `", action, "`"))
    }
}

/// `wrec targets ...`, the first token at index `i`.
pub open spec fn targets_spec(ts: Seq<Seq<char>>, i: int) -> Result<CommandView, Seq<char>> {
    if i < 0 || i >= ts.len() {
        list_loop(ts, i, false)
    } else if ts[i] == "list"@ {
        list_loop(ts, i + 1, false)
    } else if is_help_word(ts[i]) {
        Ok(CommandView::Help)
    } else if has_prefix(ts[i], "-"@) {
        list_loop(ts, i, false)
    } else {
        Err(with_usage("unknown subcommand for `targets`: "@ + ts[i]))
    }
}

fn parse_targets(ts: &Vec<Vec<char>>, start: usize) -> (r: Result<Command, String>)
    requires
        start <= ts.len(),
    ensures
        result_view(r) == targets_spec(toks(ts), start as int),
{
    if start >= ts.len() {
        return parse_list(ts, start);
    }
    let first = &ts[start];
    assert(toks(ts)[start as int] == first@);
    let dash = chars_of("-");
    if is_lit(first, "list") {
        parse_list(ts, start + 1)
    } else if is_help_word_x(first) {
        Ok(Command::Help)
    } else if starts_with(first, &dash) {
        parse_list(ts, start)
    } else {
        let r = text_with_usage("unknown subcommand for `targets`: ", first, "");
        assert("unknown subcommand for `targets`: "@ + first@ + ""@ == "unknown subcommand for `targets`: "@ + first@) by {
            reveal_strlit("");
        }
        Err(r)
    }
}


/// Flags that choose the capture target; only one may be given.
pub open spec fn is_target_flag(a: Seq<char>) -> bool {
    a == "--target"@ || a == "--display"@ || a == "--window"@ || a == "--target-name"@
        || a == "--display-name"@ || a == "--window-name"@ || a == "--app"@
}

/// Flags that take a value and do not choose the target.
pub open spec fn is_value_flag(a: Seq<char>) -> bool {
    a == "--fps"@ || a == "--codec"@ || a == "--quality"@ || a == "--resolution"@ || a == "--out"@
        || a == "--duration"@
}

/// Flags that take no value.
pub open spec fn is_switch(a: Seq<char>) -> bool {
    a == "--cursor"@ || a == "--no-cursor"@ || a == "--system-audio"@ || a == "--no-system-audio"@
        || a == "--hide-wrec"@ || a == "--no-hide-wrec"@ || a == "--detach"@ || a == "--wait"@
        || a == "--queue"@ || a == "--no-queue"@ || a == "--json"@
}

/// The record options after the target flag `a` with value `v`.
pub open spec fn apply_target_spec(a: Seq<char>, v: Seq<char>, out: RecordArgsView) -> Result<RecordArgsView, Seq<char>> {
    if a == "--target"@ {
        match parse_target_spec(v) {
            Ok((k, id)) => Ok(RecordArgsView { source_kind: Some(k), target_id: Some(id), ..out }),
            Err(e) => Err(e),
        }
    } else if a == "--display"@ || a == "--window"@ {
        let k = if a == "--display"@ { CaptureSourceKind::Display } else { CaptureSourceKind::Window };
        match parse_id_spec(v, a) {
            Ok(id) => Ok(RecordArgsView { source_kind: Some(k), target_id: Some(id), ..out }),
            Err(e) => Err(e),
        }
    } else if a == "--target-name"@ {
        Ok(RecordArgsView { target_query: Some(TargetQueryView::Name { kind: None, query: v }), ..out })
    } else if a == "--display-name"@ || a == "--window-name"@ {
        let k = if a == "--display-name"@ { CaptureSourceKind::Display } else { CaptureSourceKind::Window };
        Ok(RecordArgsView {
            source_kind: Some(k),
            target_query: Some(TargetQueryView::Name { kind: Some(k), query: v }),
            ..out
        })
    } else {
        Ok(RecordArgsView {
            source_kind: Some(CaptureSourceKind::Window),
            target_query: Some(TargetQueryView::App(v)),
            ..out
        })
    }
}

/// The record options after the value flag `a` with value `v`, whose
/// number reads as `reading` when `a` is `--duration`.
pub open spec fn apply_value_spec(a: Seq<char>, v: Seq<char>, reading: AmountReading, out: RecordArgsView) -> Result<RecordArgsView, Seq<char>> {
    if a == "--fps"@ {
        match parse_fps_spec(v) {
            Ok(x) => Ok(RecordArgsView { fps: Some(x), ..out }),
            Err(e) => Err(e),
        }
    } else if a == "--codec"@ {
        match parse_codec_spec(v) {
            Ok(x) => Ok(RecordArgsView { codec: Some(x), ..out }),
            Err(e) => Err(e),
        }
    } else if a == "--quality"@ {
        match parse_quality_spec(v) {
            Ok(x) => Ok(RecordArgsView { quality: Some(x), ..out }),
            Err(e) => Err(e),
        }
    } else if a == "--resolution"@ {
        match parse_resolution_spec(v) {
            Ok(x) => Ok(RecordArgsView { resolution: Some(x), ..out }),
            Err(e) => Err(e),
        }
    } else if a == "--out"@ {
        Ok(RecordArgsView { output_dir: Some(v), ..out })
    } else {
        match parse_duration_spec(v, reading) {
            Ok(x) => Ok(RecordArgsView { duration: Some(x), ..out }),
            Err(e) => Err(e),
        }
    }
}

/// The record options after the switch `a`.
pub open spec fn apply_switch_spec(a: Seq<char>, out: RecordArgsView) -> RecordArgsView {
    if a == "--cursor"@ {
        RecordArgsView { include_cursor: Some(true), ..out }
    } else if a == "--no-cursor"@ {
        RecordArgsView { include_cursor: Some(false), ..out }
    } else if a == "--system-audio"@ {
        RecordArgsView { include_system_audio: Some(true), ..out }
    } else if a == "--no-system-audio"@ {
        RecordArgsView { include_system_audio: Some(false), ..out }
    } else if a == "--hide-wrec"@ {
        RecordArgsView { hide_wrec: Some(true), ..out }
    } else if a == "--no-hide-wrec"@ {
        RecordArgsView { hide_wrec: Some(false), ..out }
    } else if a == "--detach"@ {
        RecordArgsView { detach: true, ..out }
    } else if a == "--wait"@ {
        RecordArgsView { detach: false, ..out }
    } else if a == "--queue"@ {
        RecordArgsView { queue: true, ..out }
    } else if a == "--no-queue"@ {
        RecordArgsView { queue: false, ..out }
    } else {
        RecordArgsView { json: true, ..out }
    }
}

/// The outcome of reading one record option.
pub enum RecordStep {
    /// Parsing ends here with this result.
    Done(Result<CommandView, Seq<char>>),
    /// Parsing goes on after one token (or two, when `two`), with these
    /// options and this target flag.
    Next(bool, RecordArgsView, Option<Seq<char>>),
}

/// Reads the record option at index `i`; `flag` is the target flag seen so
/// far, and `rs` the float readings of the tokens.
pub open spec fn record_step(ts: Seq<Seq<char>>, rs: Seq<AmountReading>, i: int, out: RecordArgsView, flag: Option<Seq<char>>) -> RecordStep {
    let a = ts[i];
    if is_help_flag(a) {
        RecordStep::Done(Ok(CommandView::Help))
    } else if is_target_flag(a) {
        match flag {
            Some(e) => RecordStep::Done(Err("specify only one capture target ("@ + e + " and "@ + a + " both given)"@)),
            None => {
                if i + 1 >= ts.len() {
                    RecordStep::Done(Err("missing value for "@ + a))
                } else {
                    match apply_target_spec(a, ts[i + 1], out) {
                        Ok(o) => RecordStep::Next(true, o, Some(a)),
                        Err(e) => RecordStep::Done(Err(e)),
                    }
                }
            },
        }
    } else if is_value_flag(a) {
        if i + 1 >= ts.len() {
            RecordStep::Done(Err("missing value for "@ + a))
        } else {
            match apply_value_spec(a, ts[i + 1], reading_at(rs, i + 1), out) {
                Ok(o) => RecordStep::Next(true, o, flag),
                Err(e) => RecordStep::Done(Err(e)),
            }
        }
    } else if is_switch(a) {
        RecordStep::Next(false, apply_switch_spec(a, out), flag)
    } else {
        RecordStep::Done(Err(with_usage("unknown option for `record`: "@ + a)))
    }
}

/// `wrec record start` options from index `i`.
pub open spec fn record_loop(ts: Seq<Seq<char>>, rs: Seq<AmountReading>, i: int, out: RecordArgsView, flag: Option<Seq<char>>) -> Result<CommandView, Seq<char>>
    decreases ts.len() - i,
{
    if i < 0 || i >= ts.len() {
        Ok(CommandView::Record(out))
    } else {
        match record_step(ts, rs, i, out, flag) {
            RecordStep::Done(r) => r,
            RecordStep::Next(two, o, f) => record_loop(ts, rs, if two { i + 2 } else { i + 1 }, o, f),
        }
    }
}

/// The recording `r` names its capture target.
pub open spec fn names_target(r: Result<CommandView, Seq<char>>) -> bool {
    r matches Ok(CommandView::Record(o)) && (o.target_id is Some || o.target_query is Some)
}

/// The message that refuses the target flag `second` after `first`.
pub open spec fn second_target_message(first: Seq<char>, second: Seq<char>) -> Seq<char> {
    "specify only one capture target ("@ + first + " and "@ + second + " both given)"@
}

/// Only one capture target may be given: when the record options from
/// index `i` up to a target flag at index `k` read as a recording that
/// already names its target, the options with that flag are refused,
/// naming the target flag read before it and this one.
pub proof fn a_second_capture_target_is_refused(ts: Seq<Seq<char>>, rs: Seq<AmountReading>, i: int, k: int)
    requires
        0 <= i <= k < ts.len(),
        is_target_flag(ts[k]),
        names_target(record_loop(ts.take(k), rs, i, default_record_view(), None)),
    ensures
        exists|first: Seq<char>|
            is_target_flag(first) && #[trigger] record_loop(ts, rs, i, default_record_view(), None)
                == Err::<CommandView, Seq<char>>(second_target_message(first, ts[k])),
{
    lemma_second_target(ts, rs, k, i, default_record_view(), None);
}

/// The options `out` name a target exactly when a target flag, `flag`, has
/// been read.
pub open spec fn target_read(out: RecordArgsView, flag: Option<Seq<char>>) -> bool {
    match flag {
        Some(f) => is_target_flag(f),
        None => out.target_id is None && out.target_query is None,
    }
}

proof fn lemma_second_target(
    ts: Seq<Seq<char>>,
    rs: Seq<AmountReading>,
    k: int,
    i: int,
    out: RecordArgsView,
    flag: Option<Seq<char>>,
)
    requires
        0 <= i <= k < ts.len(),
        is_target_flag(ts[k]),
        target_read(out, flag),
        names_target(record_loop(ts.take(k), rs, i, out, flag)),
    ensures
        exists|first: Seq<char>|
            is_target_flag(first) && #[trigger] record_loop(ts, rs, i, out, flag)
                == Err::<CommandView, Seq<char>>(second_target_message(first, ts[k])),
    decreases k - i,
{
    let t = ts.take(k);
    if i == k {
        assert(!is_help_flag(ts[k])) by {
            reveal_strlit("-h");
            reveal_strlit("--help");
            reveal_strlit("--target");
            reveal_strlit("--display");
            reveal_strlit("--window");
            reveal_strlit("--target-name");
            reveal_strlit("--display-name");
            reveal_strlit("--window-name");
            reveal_strlit("--app");
        }
        let first = flag->Some_0;
        assert(record_loop(ts, rs, i, out, flag)
            == Err::<CommandView, Seq<char>>(second_target_message(first, ts[k])));
    } else {
        assert(t[i] == ts[i]);
        if i + 1 < k {
            assert(t[i + 1] == ts[i + 1]);
        }
        match record_step(t, rs, i, out, flag) {
            RecordStep::Done(r) => {
                assert(record_loop(t, rs, i, out, flag) == r);
            },
            RecordStep::Next(two, o, f) => {
                lemma_step_agrees(ts, rs, k, i, out, flag);
                let j = if two { i + 2 } else { i + 1 };
                assert(record_loop(ts, rs, i, out, flag) == record_loop(ts, rs, j, o, f));
                lemma_second_target(ts, rs, k, j, o, f);
            },
        }
    }
}

/// Reading an option of the first `k` tokens that goes on reads it as the
/// whole list does, without running past index `k`, and keeps track of the
/// target flag.
proof fn lemma_step_agrees(
    ts: Seq<Seq<char>>,
    rs: Seq<AmountReading>,
    k: int,
    i: int,
    out: RecordArgsView,
    flag: Option<Seq<char>>,
)
    requires
        0 <= i < k <= ts.len(),
        record_step(ts.take(k), rs, i, out, flag) is Next,
        target_read(out, flag),
    ensures
        record_step(ts, rs, i, out, flag) == record_step(ts.take(k), rs, i, out, flag),
        (record_step(ts, rs, i, out, flag)->Next_0 ==> i + 2 <= k),
        target_read(record_step(ts, rs, i, out, flag)->Next_1, record_step(ts, rs, i, out, flag)->Next_2),
{
    let t = ts.take(k);
    assert(t[i] == ts[i]);
    if i + 1 < k {
        assert(t[i + 1] == ts[i + 1]);
    }
}

fn is_target_flag_x(a: &Vec<char>) -> (r: bool)
    ensures
        r == is_target_flag(a@),
{
    is_lit(a, "--target") || is_lit(a, "--display") || is_lit(a, "--window") || is_lit(a, "--target-name")
        || is_lit(a, "--display-name") || is_lit(a, "--window-name") || is_lit(a, "--app")
}

fn is_value_flag_x(a: &Vec<char>) -> (r: bool)
    ensures
        r == is_value_flag(a@),
{
    is_lit(a, "--fps") || is_lit(a, "--codec") || is_lit(a, "--quality") || is_lit(a, "--resolution")
        || is_lit(a, "--out") || is_lit(a, "--duration")
}

fn is_switch_x(a: &Vec<char>) -> (r: bool)
    ensures
        r == is_switch(a@),
{
    is_lit(a, "--cursor") || is_lit(a, "--no-cursor") || is_lit(a, "--system-audio")
        || is_lit(a, "--no-system-audio") || is_lit(a, "--hide-wrec") || is_lit(a, "--no-hide-wrec")
        || is_lit(a, "--detach") || is_lit(a, "--wait") || is_lit(a, "--queue") || is_lit(a, "--no-queue")
        || is_lit(a, "--json")
}

fn apply_target(a: &Vec<char>, v: &Vec<char>, out: &mut RecordArgs) -> (r: Result<(), String>)
    requires
        is_target_flag(a@),
    ensures
        match (r, apply_target_spec(a@, v@, old(out)@)) {
            (Ok(_), Ok(o)) => final(out)@ == o,
            (Err(e), Err(m)) => e@ == m,
            _ => false,
        },
{
    if is_lit(a, "--target") {
        match parse_target(v) {
            Ok((k, id)) => {
                out.source_kind = Some(k);
                out.target_id = Some(id);
                Ok(())
            },
            Err(e) => Err(e),
        }
    } else if is_lit(a, "--display") || is_lit(a, "--window") {
        let k = if is_lit(a, "--display") { CaptureSourceKind::Display } else { CaptureSourceKind::Window };
        let parsed = if is_lit(a, "--display") { parse_id(v, "--display") } else { parse_id(v, "--window") };
        match parsed {
            Ok(id) => {
                out.source_kind = Some(k);
                out.target_id = Some(id);
                Ok(())
            },
            Err(e) => Err(e),
        }
    } else if is_lit(a, "--target-name") {
        out.target_query = Some(TargetQuery::Name { kind: None, query: string_of(v) });
        Ok(())
    } else if is_lit(a, "--display-name") || is_lit(a, "--window-name") {
        let k = if is_lit(a, "--display-name") { CaptureSourceKind::Display } else { CaptureSourceKind::Window };
        out.source_kind = Some(k);
        out.target_query = Some(TargetQuery::Name { kind: Some(k), query: string_of(v) });
        Ok(())
    } else {
        out.source_kind = Some(CaptureSourceKind::Window);
        out.target_query = Some(TargetQuery::App(string_of(v)));
        Ok(())
    }
}

fn apply_value(a: &Vec<char>, v: &Vec<char>, reading: AmountReading, out: &mut RecordArgs) -> (r: Result<(), String>)
    requires
        is_value_flag(a@),
    ensures
        match (r, apply_value_spec(a@, v@, reading, old(out)@)) {
            (Ok(_), Ok(o)) => final(out)@ == o,
            (Err(e), Err(m)) => e@ == m,
            _ => false,
        },
{
    if is_lit(a, "--fps") {
        match parse_fps(v) {
            Ok(x) => { out.fps = Some(x); Ok(()) },
            Err(e) => Err(e),
        }
    } else if is_lit(a, "--codec") {
        match parse_codec(v) {
            Ok(x) => { out.codec = Some(x); Ok(()) },
            Err(e) => Err(e),
        }
    } else if is_lit(a, "--quality") {
        match parse_quality(v) {
            Ok(x) => { out.quality = Some(x); Ok(()) },
            Err(e) => Err(e),
        }
    } else if is_lit(a, "--resolution") {
        match parse_resolution(v) {
            Ok(x) => { out.resolution = Some(x); Ok(()) },
            Err(e) => Err(e),
        }
    } else if is_lit(a, "--out") {
        out.output_dir = Some(string_of(v));
        Ok(())
    } else {
        match parse_duration(v, reading) {
            Ok(x) => { out.duration = Some(x); Ok(()) },
            Err(e) => Err(e),
        }
    }
}

fn apply_switch(a: &Vec<char>, out: &mut RecordArgs)
    requires
        is_switch(a@),
    ensures
        final(out)@ == apply_switch_spec(a@, old(out)@),
{
    if is_lit(a, "--cursor") {
        out.include_cursor = Some(true);
    } else if is_lit(a, "--no-cursor") {
        out.include_cursor = Some(false);
    } else if is_lit(a, "--system-audio") {
        out.include_system_audio = Some(true);
    } else if is_lit(a, "--no-system-audio") {
        out.include_system_audio = Some(false);
    } else if is_lit(a, "--hide-wrec") {
        out.hide_wrec = Some(true);
    } else if is_lit(a, "--no-hide-wrec") {
        out.hide_wrec = Some(false);
    } else if is_lit(a, "--detach") {
        out.detach = true;
    } else if is_lit(a, "--wait") {
        out.detach = false;
    } else if is_lit(a, "--queue") {
        out.queue = true;
    } else if is_lit(a, "--no-queue") {
        out.queue = false;
    } else {
        out.json = true;
    }
}

/// The view of the target flag seen so far.
pub open spec fn flag_view(f: Option<Vec<char>>) -> Option<Seq<char>> {
    match f {
        Some(v) => Some(v@),
        None => None,
    }
}

fn missing_value(a: &Vec<char>) -> (r: String)
    ensures
        r@ == "missing value for "@ + a@,
{
    let mut m: Vec<char> = Vec::new();
    push_str(&mut m, "missing value for ");
    push_chars(&mut m, a);
    assert(Seq::<char>::empty() + "missing value for "@ == "missing value for "@);
    string_of(&m)
}

#[verifier::rlimit(50)]
fn record_step_x(
    ts: &Vec<Vec<char>>,
    rs: &Vec<AmountReading>,
    i: usize,
    out: &mut RecordArgs,
    flag: &mut Option<Vec<char>>,
) -> (r: (Option<Result<Command, String>>, usize))
    requires
        i < ts.len(),
    ensures
        match record_step(toks(ts), rs@, i as int, old(out)@, flag_view(*old(flag))) {
            RecordStep::Done(res) => r.0 is Some && result_view(r.0->0) == res,
            RecordStep::Next(two, o, f) => r.0 is None && final(out)@ == o && flag_view(*final(flag)) == f
                && r.1 == (if two { i + 2 } else { i + 1 }),
        },
{
    let ghost t = toks(ts);
    let a = &ts[i];
    assert(t[i as int] == a@);
    if is_help_flag_x(a) {
        return (Some(Ok(Command::Help)), i);
    }
    if is_target_flag_x(a) {
        match &*flag {
            Some(e) => {
                let mut m: Vec<char> = Vec::new();
                push_str(&mut m, "specify only one capture target (");
                push_chars(&mut m, e);
                push_str(&mut m, " and ");
                push_chars(&mut m, a);
                push_str(&mut m, " both given)");
                assert(Seq::<char>::empty() + "specify only one capture target ("@ == "specify only one capture target ("@);
                return (Some(Err(string_of(&m))), i);
            },
            None => {},
        }
        if i + 1 >= ts.len() {
            return (Some(Err(missing_value(a))), i);
        }
        assert(t[i + 1] == ts@[i + 1]@);
        match apply_target(a, &ts[i + 1], out) {
            Ok(()) => {},
            Err(e) => return (Some(Err(e)), i),
        }
        *flag = Some(slice(a, 0, a.len()));
        assert(a@.subrange(0, a@.len() as int) == a@);
        return (None, i + 2);
    }
    if is_value_flag_x(a) {
        if i + 1 >= ts.len() {
            return (Some(Err(missing_value(a))), i);
        }
        assert(t[i + 1] == ts@[i + 1]@);
        let reading = reading_at_x(rs, i + 1);
        match apply_value(a, &ts[i + 1], reading, out) {
            Ok(()) => {},
            Err(e) => return (Some(Err(e)), i),
        }
        return (None, i + 2);
    }
    if is_switch_x(a) {
        apply_switch(a, out);
        return (None, i + 1);
    }
    let m = text_with_usage("unknown option for `record`: ", a, "");
    assert("unknown option for `record`: "@ + a@ + ""@ == "unknown option for `record`: "@ + a@) by {
        reveal_strlit("");
    }
    (Some(Err(m)), i)
}

fn parse_record(ts: &Vec<Vec<char>>, rs: &Vec<AmountReading>, start: usize) -> (r: Result<Command, String>)
    requires
        start <= ts.len(),
    ensures
        result_view(r) == record_loop(toks(ts), rs@, start as int, default_record_view(), None),
{
    let ghost t = toks(ts);
    let mut out = RecordArgs::defaults();
    let mut flag: Option<Vec<char>> = None;
    let mut i = start;
    while i < ts.len()
        invariant
            start <= i <= ts.len(),
            t == toks(ts),
            record_loop(t, rs@, start as int, default_record_view(), None)
                == record_loop(t, rs@, i as int, out@, flag_view(flag)),
        decreases ts.len() - i,
    {
        let (done, next) = record_step_x(ts, rs, i, &mut out, &mut flag);
        match done {
            Some(r) => return r,
            None => {},
        }
        if next > ts.len() {
            return Ok(Command::Record(out));
        }
        i = next;
    }
    Ok(Command::Record(out))
}


/// The message for `record pause|resume|stop|status`, which moved to jobs.
pub open spec fn moved_to_jobs(a: Seq<char>) -> Seq<char> {
    "`record "@ + a + "` is now handled through daemon jobs.\nUse `wrec jobs --json` to find the active job, then `wrec job "@
        + (if a == "status"@ { "show"@ } else { a }) + " <id>`."@
}

/// `wrec record ...`, the first token at index `i`.
pub open spec fn record_command_spec(ts: Seq<Seq<char>>, rs: Seq<AmountReading>, i: int) -> Result<CommandView, Seq<char>> {
    if i < 0 || i >= ts.len() {
        record_loop(ts, rs, i, default_record_view(), None)
    } else if ts[i] == "start"@ {
        record_loop(ts, rs, i + 1, default_record_view(), None)
    } else if is_help_word(ts[i]) {
        Ok(CommandView::Help)
    } else if ts[i] == "pause"@ || ts[i] == "resume"@ || ts[i] == "stop"@ || ts[i] == "status"@ {
        Err(moved_to_jobs(ts[i]))
    } else if has_prefix(ts[i], "-"@) {
        record_loop(ts, rs, i, default_record_view(), None)
    } else {
        Err(with_usage("unknown subcommand for `record`: "@ + ts[i]))
    }
}

fn parse_record_command(ts: &Vec<Vec<char>>, rs: &Vec<AmountReading>, start: usize) -> (r: Result<Command, String>)
    requires
        start <= ts.len(),
    ensures
        result_view(r) == record_command_spec(toks(ts), rs@, start as int),
{
    if start >= ts.len() {
        return parse_record(ts, rs, start);
    }
    let first = &ts[start];
    assert(toks(ts)[start as int] == first@);
    let dash = chars_of("-");
    if is_lit(first, "start") {
        parse_record(ts, rs, start + 1)
    } else if is_help_word_x(first) {
        Ok(Command::Help)
    } else if is_lit(first, "pause") || is_lit(first, "resume") || is_lit(first, "stop") || is_lit(first, "status") {
        let mut m: Vec<char> = Vec::new();
        push_str(&mut m, "`record ");
        push_chars(&mut m, first);
        push_str(&mut m, "` is now handled through daemon jobs.\nUse `wrec jobs --json` to find the active job, then `wrec job ");
        if is_lit(first, "status") {
            push_str(&mut m, "show");
        } else {
            push_chars(&mut m, first);
        }
        push_str(&mut m, " <id>`.");
        assert(Seq::<char>::empty() + "`record "@ == "`record "@);
        Err(string_of(&m))
    } else if starts_with(first, &dash) {
        parse_record(ts, rs, start)
    } else {
        let r = text_with_usage("unknown subcommand for `record`: ", first, "");
        assert("unknown subcommand for `record`: "@ + first@ + ""@ == "unknown subcommand for `record`: "@ + first@) by {
            reveal_strlit("");
        }
        Err(r)
    }
}

/// One argument with `--flag=value` written out as `--flag` and `value`.
pub open spec fn inline_split(arg: Seq<char>) -> Seq<Seq<char>> {
    if has_prefix(arg, "--"@) {
        match split_once_spec(arg, "="@) {
            Some((flag, value)) => seq![flag, value],
            None => seq![arg],
        }
    } else {
        seq![arg]
    }
}

/// All arguments with every `--flag=value` written out as two tokens.
#[verifier::opaque]
pub open spec fn split_inline_spec(args: Seq<Seq<char>>) -> Seq<Seq<char>>
    decreases args.len(),
{
    if args.len() == 0 {
        Seq::empty()
    } else {
        split_inline_spec(args.drop_last()) + inline_split(args.last())
    }
}

#[verifier::rlimit(40)]
proof fn lemma_split_inline_concat(a: Seq<Seq<char>>, b: Seq<Seq<char>>)
    ensures
        split_inline_spec(a + b) == split_inline_spec(a) + split_inline_spec(b),
    decreases b.len(),
{
    if b.len() == 0 {
        assert(a + b =~= a);
        reveal_with_fuel(split_inline_spec, 1);
        assert(split_inline_spec(b) =~= Seq::<Seq<char>>::empty());
        assert(split_inline_spec(a) + split_inline_spec(b) =~= split_inline_spec(a));
    } else {
        lemma_split_inline_concat(a, b.drop_last());
        let ab = a + b;
        assert(ab.drop_last() =~= a + b.drop_last());
        assert(ab.last() == b.last());
        let x = inline_split(b.last());
        assert(split_inline_spec(ab) == split_inline_spec(ab.drop_last()) + x) by {
            reveal(split_inline_spec);
        }
        assert(split_inline_spec(b) == split_inline_spec(b.drop_last()) + x) by {
            reveal(split_inline_spec);
        }
        let sa = split_inline_spec(a);
        let sb = split_inline_spec(b.drop_last());
        assert(sa + sb + x =~= sa + (sb + x));
    }
}

proof fn lemma_split_inline_one(t: Seq<char>)
    ensures
        split_inline_spec(seq![t]) == inline_split(t),
{
    reveal_with_fuel(split_inline_spec, 2);
    assert(seq![t].drop_last() =~= Seq::<Seq<char>>::empty());
    assert(Seq::<Seq<char>>::empty() + inline_split(t) =~= inline_split(t));
}

#[verifier::rlimit(60)]
proof fn lemma_inline_tokens_split_alike(
    before: Seq<Seq<char>>,
    flag: Seq<char>,
    value: Seq<char>,
    after: Seq<Seq<char>>,
)
    requires
        has_prefix(flag, "--"@),
        !flag.contains('='),
        inline_split(value) == seq![value],
    ensures
        split_inline_spec(before + seq![flag + "="@ + value] + after) == split_inline_spec(before + seq![flag, value] + after),
{
    reveal_strlit("=");
    reveal_strlit("--");
    let joined = flag + "="@ + value;
    assert(joined.subrange(0, flag.len() as int) =~= flag);
    assert(has_prefix(joined, "--"@)) by {
        assert(joined.subrange(0, 2) =~= flag.subrange(0, 2));
    }
    assert(occurs_at(joined, "="@, flag.len() as int)) by {
        assert(joined.subrange(flag.len() as int, flag.len() as int + 1) =~= "="@);
    }
    assert forall|j: int| 0 <= j < flag.len() implies !occurs_at(joined, "="@, j) by {
        if occurs_at(joined, "="@, j) {
            assert(joined.subrange(j, j + 1)[0] == joined[j]);
            assert(joined[j] == flag[j]);
            assert(flag.contains('='));
        }
    }
    lemma_first_occurrence(joined, "="@, flag.len() as int);
    assert(joined.take(flag.len() as int) =~= flag);
    assert(joined.skip(flag.len() as int + 1) =~= value);
    assert(inline_split(joined) == seq![flag, value]);
    assert(!contains_seq(flag, "="@)) by {
        if contains_seq(flag, "="@) {
            let i = choose|i: int| occurs_at(flag, "="@, i);
            assert(flag.subrange(i, i + 1)[0] == flag[i]);
            assert(flag.contains('='));
        }
    }
    assert(inline_split(flag) == seq![flag]);
    lemma_split_inline_concat(before + seq![joined], after);
    lemma_split_inline_concat(before, seq![joined]);
    lemma_split_inline_one(joined);
    let two = seq![flag, value];
    lemma_split_inline_concat(before + two, after);
    lemma_split_inline_concat(before, two);
    assert(two =~= seq![flag] + seq![value]);
    lemma_split_inline_concat(seq![flag], seq![value]);
    lemma_split_inline_one(flag);
    lemma_split_inline_one(value);
    assert(split_inline_spec(two) =~= seq![flag, value]);
    assert(split_inline_spec(before + seq![joined] + after) == split_inline_spec(before + two + after));
}

/// A `--flag=value` token reads as the two tokens `--flag` and `value`,
/// wherever it stands on the command line, when the flag has no `=` in it
/// and the value is not itself a `--flag=value` token.
pub proof fn inline_values_read_as_separate_tokens(
    before: Seq<Seq<char>>,
    flag: Seq<char>,
    value: Seq<char>,
    after: Seq<Seq<char>>,
    rs: Seq<AmountReading>,
)
    requires
        has_prefix(flag, "--"@),
        !flag.contains('='),
        inline_split(value) == seq![value],
    ensures
        parse_spec(before + seq![flag + "="@ + value] + after, rs) == parse_spec(before + seq![flag, value] + after, rs),
{
    lemma_inline_tokens_split_alike(before, flag, value, after);
}

fn inline_tokens(arg: &Vec<char>) -> (out: Vec<Vec<char>>)
    ensures
        toks(&out) == inline_split(arg@),
{
    let dashes = chars_of("--");
    let eq = chars_of("=");
    let mut out: Vec<Vec<char>> = Vec::new();
    if starts_with(arg, &dashes) {
        match split_once(arg, &eq) {
            Some((flag, value)) => {
                out.push(flag);
                out.push(value);
                assert(toks(&out) =~= inline_split(arg@));
                return out;
            },
            None => {},
        }
    }
    out.push(slice(arg, 0, arg.len()));
    assert(arg@.subrange(0, arg@.len() as int) == arg@);
    assert(toks(&out) =~= inline_split(arg@));
    out
}

fn append_tokens(out: &mut Vec<Vec<char>>, more: &Vec<Vec<char>>)
    ensures
        toks(final(out)) == toks(old(out)) + toks(more),
{
    let ghost start = toks(out);
    let mut k: usize = 0;
    while k < more.len()
        invariant
            k <= more.len(),
            toks(out) == start + toks(more).take(k as int),
        decreases more.len() - k,
    {
        let t = &more[k];
        let ghost before = toks(out);
        out.push(slice(t, 0, t.len()));
        assert(t@.subrange(0, t@.len() as int) == t@);
        assert(toks(out) =~= before.push(t@));
        assert(toks(more).take(k + 1) =~= toks(more).take(k as int).push(t@));
        k = k + 1;
    }
    assert(toks(more).take(more.len() as int) == toks(more));
}

proof fn lemma_split_inline_step(s: Seq<Seq<char>>, i: int)
    requires
        0 <= i < s.len(),
    ensures
        split_inline_spec(s.take(i + 1)) == split_inline_spec(s.take(i)) + inline_split(s[i]),
{
    assert(s.take(i + 1).drop_last() == s.take(i));
    assert(s.take(i + 1).last() == s[i]);
    reveal(split_inline_spec);
}

proof fn lemma_split_inline_empty(s: Seq<Seq<char>>)
    requires
        s.len() == 0,
    ensures
        split_inline_spec(s) == Seq::<Seq<char>>::empty(),
{
    reveal(split_inline_spec);
}

/// Expands `--flag=value` into separate `--flag` and `value` tokens, so the
/// rest of the parser only handles the space-separated form.
pub fn split_inline_values(args: &Vec<Vec<char>>) -> (out: Vec<Vec<char>>)
    ensures
        toks(&out) == split_inline_spec(toks(args)),
{
    let mut out: Vec<Vec<char>> = Vec::new();
    let mut i: usize = 0;
    proof {
        lemma_split_inline_empty(toks(args).take(0));
    }
    assert(toks(&out) =~= Seq::<Seq<char>>::empty());
    while i < args.len()
        invariant
            i <= args.len(),
            toks(&out) == split_inline_spec(toks(args).take(i as int)),
        decreases args.len() - i,
    {
        let parts = inline_tokens(&args[i]);
        append_tokens(&mut out, &parts);
        proof {
            lemma_split_inline_step(toks(args), i as int);
        }
        i = i + 1;
    }
    assert(toks(args).take(args.len() as int) == toks(args));
    out
}

/// What `wrec` makes of its arguments (without the program name), where
/// `rs` holds the float reading of each token once `--flag=value` is
/// written out.
pub open spec fn parse_spec(args: Seq<Seq<char>>, rs: Seq<AmountReading>) -> Result<CommandView, Seq<char>> {
    parse_spec_tokens(split_inline_spec(args), rs)
}

/// What `wrec` makes of its tokens once `--flag=value` is written out.
pub open spec fn parse_spec_tokens(ts: Seq<Seq<char>>, rs: Seq<AmountReading>) -> Result<CommandView, Seq<char>> {
    if ts.len() == 0 {
        Ok(CommandView::Help)
    } else {
        let c = ts[0];
        if c == "list"@ {
            list_loop(ts, 1, false)
        } else if c == "targets"@ {
            targets_spec(ts, 1)
        } else if c == "record"@ {
            record_command_spec(ts, rs, 1)
        } else if c == "daemon"@ {
            daemon_spec(ts, 1)
        } else if c == "jobs"@ {
            jobs_spec(ts, 1)
        } else if c == "job"@ {
            job_spec(ts, 1)
        } else if is_help_word(c) {
            Ok(CommandView::Help)
        } else if c == "-V"@ || c == "--version"@ {
            Ok(CommandView::Version)
        } else {
            Err(with_usage("unknown command `"@ + c + "`"@))
        }
    }
}

/// The arguments as character sequences.
pub open spec fn args_view(args: &Vec<String>) -> Seq<Seq<char>> {
    args@.map_values(|a: String| a@)
}

fn args_to_tokens(args: &Vec<String>) -> (raw: Vec<Vec<char>>)
    ensures
        toks(&raw) == args_view(args),
{
    let mut raw: Vec<Vec<char>> = Vec::new();
    let mut i: usize = 0;
    while i < args.len()
        invariant
            i <= args.len(),
            toks(&raw) == args_view(args).take(i as int),
        decreases args.len() - i,
    {
        let cs = chars_of(args[i].as_str());
        let ghost before = toks(&raw);
        raw.push(cs);
        assert(toks(&raw) =~= before.push(args@[i as int]@));
        assert(args_view(args).take(i + 1) =~= args_view(args).take(i as int).push(args@[i as int]@));
        i = i + 1;
    }
    assert(args_view(args).take(args.len() as int) == args_view(args));
    raw
}

/// Parses the arguments of `wrec`, which must not include the program
/// name. `readings[i]` is how the number of token `i` (the arguments with
/// `--flag=value` written out, see `split_inline_values`) read as a float,
/// for the token that follows `--duration`; see `duration_parts` and
/// `AmountReading`.
pub fn parse(args: Vec<String>, readings: &Vec<AmountReading>) -> (r: Result<Command, String>)
    ensures
        result_view(r) == parse_spec(args_view(&args), readings@),
{
    let raw = args_to_tokens(&args);
    let ts = split_inline_values(&raw);
    dispatch(&ts, readings)
}

fn dispatch(ts: &Vec<Vec<char>>, rs: &Vec<AmountReading>) -> (r: Result<Command, String>)
    ensures
        result_view(r) == parse_spec_tokens(toks(ts), rs@),
{
    if ts.len() == 0 {
        return Ok(Command::Help);
    }
    let c = &ts[0];
    assert(toks(ts)[0] == c@);
    if is_lit(c, "list") {
        parse_list(ts, 1)
    } else if is_lit(c, "targets") {
        parse_targets(ts, 1)
    } else if is_lit(c, "record") {
        parse_record_command(ts, rs, 1)
    } else if is_lit(c, "daemon") {
        parse_daemon(ts, 1)
    } else if is_lit(c, "jobs") {
        parse_jobs(ts, 1)
    } else if is_lit(c, "job") {
        parse_job(ts, 1)
    } else if is_help_word_x(c) {
        Ok(Command::Help)
    } else if is_lit(c, "-V") || is_lit(c, "--version") {
        Ok(Command::Version)
    } else {
        Err(text_with_usage("unknown command `", c, "`"))
    }
}

} // verus!

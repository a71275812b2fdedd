//! The Windows capture engine's own decisions: reading its command line,
//! the commands it takes on its input, the messages it writes, when it
//! reports metrics, and turning captured audio into 16-bit samples.

use vstd::prelude::*;
use crate::digits::{decimal, decimal_chars, parse_u64, parse_u64_spec};
use crate::settings::{CaptureSourceKind, Codec, Quality};
use crate::text::{chars_of, is_lit, lowercase, push_chars, push_str, string_of, to_lowercase, trim, trim_spec};

verus! {

/// How the capture engine captures frames.
#[derive(Clone, Copy, Debug, PartialEq, Eq, Structural)]
pub enum EngineBackend {
    WindowsCapture,
    Raw,
}

/// What the capture engine is asked to record.
#[derive(Debug)]
pub struct EngineArgs {
    pub output_path: String,
    pub fps: u32,
    pub include_cursor: bool,
    pub target_kind: String,
    pub target_id: u64,
    pub codec: String,
    pub quality: String,
    pub resolution: String,
    pub include_system_audio: bool,
    pub hide_wrec: bool,
    pub backend: EngineBackend,
}

/// The capture engine's usage line.
pub const ENGINE_USAGE: &'static str = "usage: capture-engine <output-path> <fps> <include-cursor> <display|window> <id> <hevc|h264> <efficient|balanced|high> <native|720p|1080p|2k|4k> [include-system-audio] [hide-wrec] [backend]";

/// The frame rate argument: a number held between 1 and 120, or 30 if it
/// is not one.
pub open spec fn engine_fps(arg: Seq<char>) -> u32 {
    match parse_u64_spec(arg) {
        Some(n) => if n > u32::MAX as u64 { 30 } else if n < 1 { 1 } else if n > 120 { 120 } else { n as u32 },
        None => 30,
    }
}

/// The capture backend: `raw` from the argument, or from the environment
/// where there is no argument; Windows Graphics Capture otherwise.
pub open spec fn engine_backend(arg: Option<Seq<char>>, env: Option<Seq<char>>) -> EngineBackend {
    let chosen = match arg {
        Some(a) => Some(a),
        None => env,
    };
    if chosen == Some("raw"@) { EngineBackend::Raw } else { EngineBackend::WindowsCapture }
}

/// The arguments as characters.
pub open spec fn arg_texts(args: Seq<String>) -> Seq<Seq<char>> {
    args.map_values(|a: String| a@)
}

/// `EngineArgs` with its text as characters.
pub struct EngineArgsView {
    pub output_path: Seq<char>,
    pub fps: u32,
    pub include_cursor: bool,
    pub target_kind: Seq<char>,
    pub target_id: u64,
    pub codec: Seq<char>,
    pub quality: Seq<char>,
    pub resolution: Seq<char>,
    pub include_system_audio: bool,
    pub hide_wrec: bool,
    pub backend: EngineBackend,
}

impl View for EngineArgs {
    type V = EngineArgsView;

    open spec fn view(&self) -> EngineArgsView {
        EngineArgsView {
            output_path: self.output_path@,
            fps: self.fps,
            include_cursor: self.include_cursor,
            target_kind: self.target_kind@,
            target_id: self.target_id,
            codec: self.codec@,
            quality: self.quality@,
            resolution: self.resolution@,
            include_system_audio: self.include_system_audio,
            hide_wrec: self.hide_wrec,
            backend: self.backend,
        }
    }
}

/// The capture engine's command line read, with the backend the
/// environment names: the usage line when fewer than eight arguments
/// follow the program, an error for a target id that is not a number.
pub open spec fn engine_args_spec(args: Seq<Seq<char>>, env_backend: Option<Seq<char>>) -> Result<EngineArgsView, Seq<char>> {
    if args.len() < 9 {
        Err(ENGINE_USAGE@)
    } else {
        match parse_u64_spec(args[5]) {
            None => Err("invalid target id `"@ + args[5] + "`"@),
            Some(id) => Ok(EngineArgsView {
                output_path: args[1],
                fps: engine_fps(args[2]),
                include_cursor: args[3] == "true"@,
                target_kind: lowercase(args[4]),
                target_id: id,
                codec: lowercase(args[6]),
                quality: lowercase(args[7]),
                resolution: lowercase(args[8]),
                include_system_audio: args.len() > 9 && args[9] == "true"@,
                hide_wrec: args.len() <= 10 || args[10] == "true"@,
                backend: engine_backend(if args.len() > 11 { Some(args[11]) } else { None }, env_backend),
            }),
        }
    }
}

fn lower(s: &String) -> (r: String)
    ensures
        r@ == lowercase(s@),
{
    string_of(&to_lowercase(&chars_of(s.as_str())))
}

fn is_true(s: &String) -> (r: bool)
    ensures
        r == (s@ == "true"@),
{
    is_lit(&chars_of(s.as_str()), "true")
}

/// Reads the capture engine's command line; `env_backend` is the backend
/// the environment names, if any.
pub fn parse_engine_args(args: &Vec<String>, env_backend: Option<String>) -> (r: Result<EngineArgs, String>)
    ensures
        match (r, engine_args_spec(arg_texts(args@), match env_backend { Some(e) => Some(e@), None => None })) {
            (Ok(a), Ok(b)) => a@ == b,
            (Err(m), Err(n)) => m@ == n,
            _ => false,
        },
{
    let ghost texts = arg_texts(args@);
    if args.len() < 9 {
        return Err(ENGINE_USAGE.to_string());
    }
    assert forall|i: int| 0 <= i < args@.len() implies texts[i] == #[trigger] args@[i]@ by {}
    let id_chars = chars_of(args[5].as_str());
    let target_id = match parse_u64(&id_chars) {
        Some(id) => id,
        None => {
            let mut m: Vec<char> = Vec::new();
            push_str(&mut m, "invalid target id `");
            push_chars(&mut m, &id_chars);
            push_str(&mut m, "`");
            assert(Seq::<char>::empty() + "invalid target id `"@ == "invalid target id `"@);
            return Err(string_of(&m));
        },
    };
    let fps = match parse_u64(&chars_of(args[2].as_str())) {
        Some(n) => if n > 4294967295 { 30 } else if n < 1 { 1 } else if n > 120 { 120 } else { n as u32 },
        None => 30,
    };
    let backend_arg: Option<String> = if args.len() > 11 { Some(args[11].clone()) } else { None };
    let chosen = match backend_arg {
        Some(a) => Some(a),
        None => env_backend,
    };
    let backend = match &chosen {
        Some(c) => if is_lit(&chars_of(c.as_str()), "raw") { EngineBackend::Raw } else { EngineBackend::WindowsCapture },
        None => EngineBackend::WindowsCapture,
    };
    Ok(EngineArgs {
        output_path: args[1].clone(),
        fps,
        include_cursor: is_true(&args[3]),
        target_kind: lower(&args[4]),
        target_id,
        codec: lower(&args[6]),
        quality: lower(&args[7]),
        resolution: lower(&args[8]),
        include_system_audio: args.len() > 9 && is_true(&args[9]),
        hide_wrec: args.len() <= 10 || is_true(&args[10]),
        backend,
    })
}

/// A command the capture engine takes on its input.
#[derive(Clone, Copy, Debug, PartialEq, Eq, Structural)]
pub enum CaptureCommand {
    Pause,
    Resume,
    Stop,
}

/// The command an input line gives, read without surrounding white space
/// and without regard to case; other lines give none.
pub open spec fn capture_command_spec(line: Seq<char>) -> Option<CaptureCommand> {
    let word = lowercase(trim_spec(line));
    if word == "pause"@ {
        Some(CaptureCommand::Pause)
    } else if word == "resume"@ {
        Some(CaptureCommand::Resume)
    } else if word == "stop"@ {
        Some(CaptureCommand::Stop)
    } else {
        None
    }
}

/// The command an input line gives, if any.
pub fn parse_capture_command(line: &String) -> (r: Option<CaptureCommand>)
    ensures
        r == capture_command_spec(line@),
{
    let word = to_lowercase(&trim(&chars_of(line.as_str())));
    if is_lit(&word, "pause") {
        Some(CaptureCommand::Pause)
    } else if is_lit(&word, "resume") {
        Some(CaptureCommand::Resume)
    } else if is_lit(&word, "stop") {
        Some(CaptureCommand::Stop)
    } else {
        None
    }
}

/// Why display `target_id` could not be recorded when `count` displays
/// are connected.
pub open spec fn display_not_found_spec(target_id: u64, count: u64) -> Seq<char> {
    if count == 0 {
        "no displays available"@
    } else if count == 1 {
        "display "@ + decimal(target_id as nat) + " not found (only 1 display available, index 0)"@
    } else {
        "display "@ + decimal(target_id as nat) + " not found (only "@ + decimal(count as nat) + " displays available, indices 0-"@
            + decimal((count - 1) as nat) + ")"@
    }
}

/// Why display `target_id` could not be recorded.
pub fn display_not_found_message(target_id: u64, count: u64) -> (r: String)
    ensures
        r@ == display_not_found_spec(target_id, count),
{
    if count == 0 {
        return "no displays available".to_string();
    }
    let mut m: Vec<char> = Vec::new();
    push_str(&mut m, "display ");
    push_chars(&mut m, &decimal_chars(target_id));
    if count == 1 {
        push_str(&mut m, " not found (only 1 display available, index 0)");
    } else {
        push_str(&mut m, " not found (only ");
        push_chars(&mut m, &decimal_chars(count));
        push_str(&mut m, " displays available, indices 0-");
        push_chars(&mut m, &decimal_chars(count - 1));
        push_str(&mut m, ")");
    }
    assert(Seq::<char>::empty() + "display "@ == "display "@);
    string_of(&m)
}

/// The time between two frames at `fps`, in microseconds, rounded down.
pub fn frame_interval_micros(fps: u32) -> (r: u64)
    requires
        fps > 0,
    ensures
        r == 1_000_000int / fps as int,
{
    1_000_000 / fps as u64
}

/// The raw capture loop reports metrics once a second has passed, every
/// five seconds' worth of frames.
pub fn metrics_due(elapsed_secs: u64, frame_count: u64, fps: u32) -> (r: bool)
    requires
        fps > 0,
    ensures
        r == (elapsed_secs > 0 && (frame_count as int) % (fps as int * 5) == 0),
{
    let period = fps as u64 * 5;
    elapsed_secs > 0 && frame_count % period == 0
}

/// Integer PCM audio as 16-bit samples: silence stays silence; 16-bit
/// samples are kept; of 24-bit and 32-bit little-endian samples the top
/// two bytes are kept, which is the sample shifted down to 16 bits; any
/// other depth becomes silence.
pub open spec fn pcm16_spec(raw: Seq<u8>, bits: u16, samples: nat, silent: bool) -> Seq<u8> {
    if silent || raw.len() == 0 {
        Seq::new(samples * 2, |i: int| 0u8)
    } else if bits == 16 {
        if raw.len() >= samples * 2 { raw.take((samples * 2) as int) } else { raw }
    } else if bits == 24 {
        let n = if raw.len() / 3 < samples { raw.len() / 3 } else { samples };
        Seq::new(n * 2, |i: int| raw[(i / 2) * 3 + 1 + i % 2])
    } else if bits == 32 {
        Seq::new(samples * 2, |i: int| raw[(i / 2) * 4 + 2 + i % 2])
    } else {
        Seq::new(samples * 2, |i: int| 0u8)
    }
}

fn zeros(n: usize) -> (r: Vec<u8>)
    ensures
        r@ == Seq::new(n as nat, |i: int| 0u8),
{
    let mut out: Vec<u8> = Vec::new();
    while out.len() < n
        invariant
            out@.len() <= n,
            out@ == Seq::new(out@.len(), |i: int| 0u8),
        decreases n - out.len(),
    {
        out.push(0u8);
    }
    out
}

/// Turns integer PCM audio of `frames` frames of `channels` channels into
/// 16-bit samples.
pub fn convert_integer_pcm(raw_data: &[u8], bits_per_sample: u16, frames: u32, channels: u16, silent: bool) -> (r: Vec<u8>)
    requires
        frames as nat * channels as nat * 4 <= usize::MAX,
        bits_per_sample == 32 && !silent && raw_data@.len() > 0 ==> raw_data@.len() >= frames as nat * channels as nat * 4,
    ensures
        r@ == pcm16_spec(raw_data@, bits_per_sample, frames as nat * channels as nat, silent),
{
    let samples = frames as usize * channels as usize;
    if silent || raw_data.len() == 0 {
        return zeros(samples * 2);
    }
    let mut out: Vec<u8> = Vec::new();
    if bits_per_sample == 16 {
        let need = samples * 2;
        let end = if raw_data.len() >= need { need } else { raw_data.len() };
        let mut i: usize = 0;
        while i < end
            invariant
                end <= raw_data@.len(),
                i <= end,
                out@ == raw_data@.take(i as int),
            decreases end - i,
        {
            out.push(raw_data[i]);
            assert(raw_data@.take(i + 1) =~= raw_data@.take(i as int).push(raw_data@[i as int]));
            i = i + 1;
        }
        assert(raw_data@.take(raw_data@.len() as int) =~= raw_data@);
        return out;
    }
    if bits_per_sample == 24 {
        let len = raw_data.len();
        let n = if len / 3 < samples { len / 3 } else { samples };
        let ghost want = Seq::new((n * 2) as nat, |i: int| raw_data@[(i / 2) * 3 + 1 + i % 2]);
        let mut k: usize = 0;
        while k < n
            invariant
                n <= raw_data@.len() / 3,
                len == raw_data@.len(),
                k <= n,
                want == Seq::new((n * 2) as nat, |i: int| raw_data@[(i / 2) * 3 + 1 + i % 2]),
                out@ == want.take((k * 2) as int),
            decreases n - k,
        {
            assert(k * 3 + 2 < raw_data@.len()) by (nonlinear_arith)
                requires k < n, n <= raw_data@.len() / 3;
            out.push(raw_data[k * 3 + 1]);
            out.push(raw_data[k * 3 + 2]);
            assert(want.take(((k + 1) * 2) as int) =~= want.take((k * 2) as int).push(raw_data@[k * 3 + 1]).push(raw_data@[k * 3 + 2])) by {
                assert((k * 2) / 2 == k && (k * 2) % 2 == 0) by (nonlinear_arith);
                assert((k * 2 + 1) / 2 == k && (k * 2 + 1) % 2 == 1) by (nonlinear_arith);
            }
            k = k + 1;
        }
        assert(want.take((n * 2) as int) =~= want);
        return out;
    }
    if bits_per_sample == 32 {
        let len = raw_data.len();
        let ghost want = Seq::new((samples * 2) as nat, |i: int| raw_data@[(i / 2) * 4 + 2 + i % 2]);
        let mut k: usize = 0;
        while k < samples
            invariant
                samples == frames as nat * channels as nat,
                raw_data@.len() >= samples * 4,
                len == raw_data@.len(),
                k <= samples,
                want == Seq::new((samples * 2) as nat, |i: int| raw_data@[(i / 2) * 4 + 2 + i % 2]),
                out@ == want.take((k * 2) as int),
            decreases samples - k,
        {
            assert(k * 4 + 3 < len) by (nonlinear_arith)
                requires k < samples, samples * 4 <= len;
            out.push(raw_data[k * 4 + 2]);
            out.push(raw_data[k * 4 + 3]);
            assert(want.take(((k + 1) * 2) as int) =~= want.take((k * 2) as int).push(raw_data@[k * 4 + 2]).push(raw_data@[k * 4 + 3])) by {
                assert((k * 2) / 2 == k && (k * 2) % 2 == 0) by (nonlinear_arith);
                assert((k * 2 + 1) / 2 == k && (k * 2 + 1) % 2 == 1) by (nonlinear_arith);
            }
            k = k + 1;
        }
        assert(want.take((samples * 2) as int) =~= want);
        return out;
    }
    zeros(samples * 2)
}


/// The codec a codec name asks for: `h264`, else HEVC.
pub fn engine_codec(arg: &String) -> (r: Codec)
    ensures
        r == (if arg@ == "h264"@ { Codec::H264 } else { Codec::Hevc }),
{
    if is_lit(&chars_of(arg.as_str()), "h264") { Codec::H264 } else { Codec::Hevc }
}

/// The quality preset a quality name asks for: `efficient` or `high`,
/// else balanced.
pub fn engine_quality(arg: &String) -> (r: Quality)
    ensures
        r == (if arg@ == "efficient"@ {
            Quality::Efficient
        } else if arg@ == "high"@ {
            Quality::High
        } else {
            Quality::Balanced
        }),
{
    let cs = chars_of(arg.as_str());
    if is_lit(&cs, "efficient") {
        Quality::Efficient
    } else if is_lit(&cs, "high") {
        Quality::High
    } else {
        Quality::Balanced
    }
}

/// The kind of target a kind name asks the frame grabber for: `window`,
/// else a display.
pub fn engine_target_kind(arg: &String) -> (r: CaptureSourceKind)
    ensures
        r == (if arg@ == "window"@ { CaptureSourceKind::Window } else { CaptureSourceKind::Display }),
{
    if is_lit(&chars_of(arg.as_str()), "window") { CaptureSourceKind::Window } else { CaptureSourceKind::Display }
}

/// What polling the command reader gave.
pub enum CommandPoll {
    Command(CaptureCommand),
    Empty,
    Disconnected,
}

/// What a capture loop does after polling its commands: whether it goes
/// on, and the line it logs.
pub struct CommandStep {
    pub stop: bool,
    pub log: Option<&'static str>,
}

/// The counters of a capture and whether it is paused.
pub struct CaptureCounters {
    pub paused: bool,
    pub frame_count: u64,
    pub dropped_frame_count: u64,
}

/// The deadline of the next frame: one frame after the last deadline, or
/// one frame after `now_us` when that deadline has already passed, so a
/// slow frame drops schedule slots instead of catching up on them.
pub fn next_frame_deadline(deadline_us: u64, frame_us: u64, now_us: u64) -> (r: u64)
    requires
        deadline_us as int + frame_us as int <= u64::MAX,
        now_us as int + frame_us as int <= u64::MAX,
    ensures
        r == (if deadline_us + frame_us < now_us { now_us + frame_us } else { deadline_us + frame_us }),
        r >= now_us,
{
    let next = deadline_us + frame_us;
    if next < now_us { now_us + frame_us } else { next }
}

impl CaptureCounters {
    /// A capture that has not taken a frame yet.
    pub fn new() -> (r: CaptureCounters)
        ensures
            !r.paused && r.frame_count == 0 && r.dropped_frame_count == 0,
    {
        CaptureCounters { paused: false, frame_count: 0, dropped_frame_count: 0 }
    }

    /// Takes what polling the commands gave: pause and resume switch the
    /// pause and are logged; stop, or a reader that went away, ends the
    /// capture.
    pub fn on_command(&mut self, poll: CommandPoll) -> (r: CommandStep)
        ensures
            final(self).frame_count == old(self).frame_count,
            final(self).dropped_frame_count == old(self).dropped_frame_count,
            match poll {
                CommandPoll::Command(CaptureCommand::Pause) => final(self).paused && !r.stop
                    && (r.log matches Some(l) && l@ == "capture-engine: recording paused"@),
                CommandPoll::Command(CaptureCommand::Resume) => !final(self).paused && !r.stop
                    && (r.log matches Some(l) && l@ == "capture-engine: recording resumed"@),
                CommandPoll::Command(CaptureCommand::Stop) | CommandPoll::Disconnected => final(self).paused == old(self).paused
                    && r.stop && r.log is None,
                CommandPoll::Empty => final(self).paused == old(self).paused && !r.stop && r.log is None,
            },
    {
        match poll {
            CommandPoll::Command(CaptureCommand::Pause) => {
                self.paused = true;
                CommandStep { stop: false, log: Some("capture-engine: recording paused") }
            },
            CommandPoll::Command(CaptureCommand::Resume) => {
                self.paused = false;
                CommandStep { stop: false, log: Some("capture-engine: recording resumed") }
            },
            CommandPoll::Command(CaptureCommand::Stop) | CommandPoll::Disconnected => CommandStep { stop: true, log: None },
            CommandPoll::Empty => CommandStep { stop: false, log: None },
        }
    }

    /// A frame arrived while the encoder is open or not: it is counted as
    /// sent when the capture is not paused and the encoder is open, and as
    /// dropped otherwise. Says whether it is sent.
    pub fn on_frame(&mut self, encoder_open: bool) -> (r: bool)
        requires
            old(self).frame_count < u64::MAX,
            old(self).dropped_frame_count < u64::MAX,
        ensures
            r == (!old(self).paused && encoder_open),
            final(self).paused == old(self).paused,
            final(self).frame_count == old(self).frame_count + (if r { 1int } else { 0 }),
            final(self).dropped_frame_count == old(self).dropped_frame_count + (if r { 0int } else { 1 }),
    {
        if self.paused || !encoder_open {
            self.dropped_frame_count = self.dropped_frame_count + 1;
            false
        } else {
            self.frame_count = self.frame_count + 1;
            true
        }
    }
}

/// The line reporting progress: seconds since the start, frames sent and
/// frames dropped.
pub fn metrics_line(elapsed_secs: u64, frames: u64, dropped: u64) -> (r: String)
    ensures
        r@ == "capture-engine: metrics elapsed="@ + decimal(elapsed_secs as nat) + " frames="@ + decimal(frames as nat)
            + " dropped="@ + decimal(dropped as nat),
{
    let mut m: Vec<char> = Vec::new();
    push_str(&mut m, "capture-engine: metrics elapsed=");
    push_chars(&mut m, &decimal_chars(elapsed_secs));
    push_str(&mut m, " frames=");
    push_chars(&mut m, &decimal_chars(frames));
    push_str(&mut m, " dropped=");
    push_chars(&mut m, &decimal_chars(dropped));
    assert(Seq::<char>::empty() + "capture-engine: metrics elapsed="@ == "capture-engine: metrics elapsed="@);
    string_of(&m)
}

/// The line reporting the end of a recording, with the frames sent and,
/// where the backend counts them, the frames dropped.
pub fn finished_line(frames: u64, dropped: Option<u64>) -> (r: String)
    ensures
        r@ == "capture-engine: recording finished frames="@ + decimal(frames as nat) + match dropped {
            Some(d) => " dropped="@ + decimal(d as nat),
            None => Seq::empty(),
        },
{
    let mut m: Vec<char> = Vec::new();
    push_str(&mut m, "capture-engine: recording finished frames=");
    push_chars(&mut m, &decimal_chars(frames));
    match dropped {
        Some(d) => {
            push_str(&mut m, " dropped=");
            push_chars(&mut m, &decimal_chars(d));
        },
        None => {},
    }
    assert(Seq::<char>::empty() + "capture-engine: recording finished frames="@ == "capture-engine: recording finished frames="@);
    string_of(&m)
}

} // verus!

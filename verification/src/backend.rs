//! Turning saved settings and per-recording overrides into the settings a
//! recording uses, picking its capture target, and reading what the capture
//! helper reports.

use vstd::prelude::*;
use crate::digits::{decimal, decimal_chars, parse_i64, parse_i64_spec, parse_u64, parse_u64_spec};
use crate::settings::{
    codec_arg, fps_value, preset_limited, quality_arg, resolution_arg, resolution_rank, within_preset_limits,
    CaptureSourceKind, CaptureTarget, CaptureTargetView, Codec, FrameRate, Quality, RecorderEvent,
    RecorderEventView, RecorderSettings, Resolution,
};
use crate::store::{
    opt_chars, CaptureDimensions, EventLevel, EventRecord, EventRecordView, EventSource,
    RecordingRecord, RecordingRecordView,
};
use std::collections::HashSet;
use crate::text::{
    contains, contains_seq, chars_of, has_prefix, is_lit, is_whitespace, is_ws, push_chars, push_str, skip_ws_from,
    slice, split_once, split_once_spec, starts_with, string_of,
};

verus! {

/// Settings that one recording asks for in place of the saved ones.
#[derive(Clone, Debug, PartialEq, Eq)]
pub struct RecordingOverrides {
    pub source_kind: Option<CaptureSourceKind>,
    pub target_id: Option<u64>,
    pub fps: Option<FrameRate>,
    pub codec: Option<Codec>,
    pub quality: Option<Quality>,
    pub resolution: Option<Resolution>,
    pub output_dir: Option<String>,
    pub include_cursor: Option<bool>,
    pub include_system_audio: Option<bool>,
    pub hide_wrec: Option<bool>,
}

impl RecordingOverrides {
    /// No overrides at all.
    pub fn none() -> (r: RecordingOverrides)
        ensures
            r.source_kind is None && r.target_id is None && r.fps is None && r.codec is None
                && r.quality is None && r.resolution is None && r.output_dir is None
                && r.include_cursor is None && r.include_system_audio is None && r.hide_wrec is None,
    {
        RecordingOverrides {
            source_kind: None,
            target_id: None,
            fps: None,
            codec: None,
            quality: None,
            resolution: None,
            output_dir: None,
            include_cursor: None,
            include_system_audio: None,
            hide_wrec: None,
        }
    }
}

impl Default for RecordingOverrides {
    /// No overrides at all.
    fn default() -> (r: RecordingOverrides)
        ensures
            r.source_kind is None && r.target_id is None && r.fps is None && r.codec is None
                && r.quality is None && r.resolution is None && r.output_dir is None
                && r.include_cursor is None && r.include_system_audio is None && r.hide_wrec is None,
    {
        RecordingOverrides::none()
    }
}

/// Level of an event that a client of the backend logs.
#[derive(Clone, Copy, Debug, PartialEq, Eq, Structural)]
pub enum ClientEventLevel {
    Info,
    Error,
}

/// `Some(x)`'s value, else `d`.
pub open spec fn or_else<T>(o: Option<T>, d: T) -> T {
    match o {
        Some(x) => x,
        None => d,
    }
}

/// The saved settings with every given override in place.
pub open spec fn overridden(saved: RecorderSettings, o: RecordingOverrides) -> RecorderSettings {
    RecorderSettings {
        source: or_else(o.source_kind, saved.source),
        fps: or_else(o.fps, saved.fps),
        codec: or_else(o.codec, saved.codec),
        quality: or_else(o.quality, saved.quality),
        resolution: or_else(o.resolution, saved.resolution),
        output_dir: or_else(o.output_dir, saved.output_dir),
        include_cursor: or_else(o.include_cursor, saved.include_cursor),
        include_system_audio: or_else(o.include_system_audio, saved.include_system_audio),
        hide_wrec: or_else(o.hide_wrec, saved.hide_wrec),
    }
}

fn pick<T: Copy>(o: Option<T>, d: T) -> (r: T)
    ensures
        r == or_else(o, d),
{
    match o {
        Some(x) => x,
        None => d,
    }
}

/// The saved settings with every given override in place.
pub fn settings_with_overrides(saved: &RecorderSettings, overrides: &RecordingOverrides) -> (r: RecorderSettings)
    ensures
        r == overridden(*saved, *overrides),
{
    let output_dir = match &overrides.output_dir {
        Some(d) => d.clone(),
        None => saved.output_dir.clone(),
    };
    RecorderSettings {
        source: pick(overrides.source_kind, saved.source),
        fps: pick(overrides.fps, saved.fps),
        codec: pick(overrides.codec, saved.codec),
        quality: pick(overrides.quality, saved.quality),
        resolution: pick(overrides.resolution, saved.resolution),
        output_dir,
        include_cursor: pick(overrides.include_cursor, saved.include_cursor),
        include_system_audio: pick(overrides.include_system_audio, saved.include_system_audio),
        hide_wrec: pick(overrides.hide_wrec, saved.hide_wrec),
    }
}

/// The changes that preset limiting made, as `fps A -> B` and
/// `resolution A -> B`, joined by `, `.
pub open spec fn limit_changes(before: RecorderSettings, after: RecorderSettings) -> Seq<char> {
    let fps_part = "fps "@ + decimal(fps_value(before.fps)) + " -> "@ + decimal(fps_value(after.fps));
    let res_part = "resolution "@ + resolution_arg(before.resolution) + " -> "@ + resolution_arg(after.resolution);
    if before.fps != after.fps && before.resolution != after.resolution {
        fps_part + ", "@ + res_part
    } else if before.fps != after.fps {
        fps_part
    } else {
        res_part
    }
}

/// The warning shown when preset limits lowered what was asked for.
pub open spec fn limit_warning(before: RecorderSettings, after: RecorderSettings) -> Option<Seq<char>> {
    if before.fps == after.fps && before.resolution == after.resolution {
        None
    } else {
        Some("preset limits applied: "@ + quality_arg(after.quality) + " caps "@ + limit_changes(before, after)
            + ". Use --quality high to allow native/60 FPS."@)
    }
}

fn fps_change(before: FrameRate, after: FrameRate) -> (r: Vec<char>)
    ensures
        r@ == "fps "@ + decimal(fps_value(before)) + " -> "@ + decimal(fps_value(after)),
{
    let mut m: Vec<char> = Vec::new();
    push_str(&mut m, "fps ");
    push_chars(&mut m, &decimal_chars(before.as_u32() as u64));
    push_str(&mut m, " -> ");
    push_chars(&mut m, &decimal_chars(after.as_u32() as u64));
    assert(Seq::<char>::empty() + "fps "@ == "fps "@);
    m
}

fn resolution_change(before: Resolution, after: Resolution) -> (r: Vec<char>)
    ensures
        r@ == "resolution "@ + resolution_arg(before) + " -> "@ + resolution_arg(after),
{
    let mut m: Vec<char> = Vec::new();
    push_str(&mut m, "resolution ");
    push_str(&mut m, before.as_arg());
    push_str(&mut m, " -> ");
    push_str(&mut m, after.as_arg());
    assert(Seq::<char>::empty() + "resolution "@ == "resolution "@);
    m
}

/// The warning for settings that preset limiting changed from `before` to
/// `after`, or `None` when it changed neither frame rate nor resolution.
pub fn preset_limit_warning(before: &RecorderSettings, after: &RecorderSettings) -> (r: Option<String>)
    ensures
        match (r, limit_warning(*before, *after)) {
            (Some(a), Some(b)) => a@ == b,
            (None, None) => true,
            _ => false,
        },
{
    let fps_changed = before.fps != after.fps;
    let res_changed = before.resolution != after.resolution;
    if !fps_changed && !res_changed {
        return None;
    }
    let mut changes: Vec<char> = Vec::new();
    if fps_changed {
        push_chars(&mut changes, &fps_change(before.fps, after.fps));
        if res_changed {
            push_str(&mut changes, ", ");
        }
    }
    if res_changed {
        push_chars(&mut changes, &resolution_change(before.resolution, after.resolution));
    }
    assert(changes@ == limit_changes(*before, *after));
    let mut m: Vec<char> = Vec::new();
    push_str(&mut m, "preset limits applied: ");
    push_str(&mut m, after.quality.as_arg());
    push_str(&mut m, " caps ");
    push_chars(&mut m, &changes);
    push_str(&mut m, ". Use --quality high to allow native/60 FPS.");
    assert(Seq::<char>::empty() + "preset limits applied: "@ == "preset limits applied: "@);
    Some(string_of(&m))
}

/// The settings a recording uses, with the warning about preset limits
/// when they lowered the frame rate or resolution asked for.
pub fn build_settings_report(saved: &RecorderSettings, overrides: &RecordingOverrides) -> (r: (RecorderSettings, Option<String>))
    ensures
        r.0 == preset_limited(overridden(*saved, *overrides)),
        match (r.1, limit_warning(overridden(*saved, *overrides), preset_limited(overridden(*saved, *overrides)))) {
            (Some(a), Some(b)) => a@ == b,
            (None, None) => true,
            _ => false,
        },
{
    let settings = settings_with_overrides(saved, overrides);
    let capped = settings.duplicate().with_preset_limits();
    let warning = preset_limit_warning(&settings, &capped);
    (capped, warning)
}

/// The settings a recording uses: saved settings, overrides, preset limits.
pub fn build_settings(saved: &RecorderSettings, overrides: &RecordingOverrides) -> (r: RecorderSettings)
    ensures
        r == preset_limited(overridden(*saved, *overrides)),
{
    build_settings_report(saved, overrides).0
}

/// The settings a recording uses never exceed their preset limits, and the
/// warning is missing exactly when the limits changed nothing.
pub proof fn built_settings_respect_limits(saved: RecorderSettings, o: RecordingOverrides)
    ensures
        within_preset_limits(preset_limited(overridden(saved, o))),
        limit_warning(overridden(saved, o), preset_limited(overridden(saved, o))) is None
            <==> within_preset_limits(overridden(saved, o)),
{
    let s = overridden(saved, o);
    if limit_warning(s, preset_limited(s)) is None {
        assert(preset_limited(s).fps == s.fps);
    }
}

/// Each override that is given wins over the saved setting, and each one
/// that is absent keeps the saved setting, field by field.
pub proof fn given_overrides_win_and_absent_ones_keep_the_saved_settings(saved: RecorderSettings, o: RecordingOverrides)
    ensures
        forall|k: CaptureSourceKind| o.source_kind == Some(k) ==> overridden(saved, o).source == k,
        o.source_kind is None ==> overridden(saved, o).source == saved.source,
        forall|f: FrameRate| o.fps == Some(f) ==> overridden(saved, o).fps == f,
        o.fps is None ==> overridden(saved, o).fps == saved.fps,
        forall|c: Codec| o.codec == Some(c) ==> overridden(saved, o).codec == c,
        o.codec is None ==> overridden(saved, o).codec == saved.codec,
        forall|q: Quality| o.quality == Some(q) ==> overridden(saved, o).quality == q,
        o.quality is None ==> overridden(saved, o).quality == saved.quality,
        forall|r: Resolution| o.resolution == Some(r) ==> overridden(saved, o).resolution == r,
        o.resolution is None ==> overridden(saved, o).resolution == saved.resolution,
        forall|d: String| o.output_dir == Some(d) ==> overridden(saved, o).output_dir == d,
        o.output_dir is None ==> overridden(saved, o).output_dir == saved.output_dir,
        forall|b: bool| o.include_cursor == Some(b) ==> overridden(saved, o).include_cursor == b,
        o.include_cursor is None ==> overridden(saved, o).include_cursor == saved.include_cursor,
        forall|b: bool| o.include_system_audio == Some(b) ==> overridden(saved, o).include_system_audio == b,
        o.include_system_audio is None ==> overridden(saved, o).include_system_audio == saved.include_system_audio,
        forall|b: bool| o.hide_wrec == Some(b) ==> overridden(saved, o).hide_wrec == b,
        o.hide_wrec is None ==> overridden(saved, o).hide_wrec == saved.hide_wrec,
{
}

/// The settings a recording uses keep the source, codec, quality, output
/// folder, cursor, audio and hiding that the overrides give (or the saved
/// ones where none is given); only the frame rate and resolution are
/// capped by the quality preset, and never raised above what was asked.
pub proof fn built_settings_keep_what_limits_do_not_touch(saved: RecorderSettings, o: RecordingOverrides)
    ensures
        ({
            let b = preset_limited(overridden(saved, o));
            &&& b.source == overridden(saved, o).source
            &&& b.codec == overridden(saved, o).codec
            &&& b.quality == overridden(saved, o).quality
            &&& b.output_dir == overridden(saved, o).output_dir
            &&& b.include_cursor == overridden(saved, o).include_cursor
            &&& b.include_system_audio == overridden(saved, o).include_system_audio
            &&& b.hide_wrec == overridden(saved, o).hide_wrec
            &&& fps_value(b.fps) <= fps_value(overridden(saved, o).fps)
            &&& resolution_rank(b.resolution) <= resolution_rank(overridden(saved, o).resolution)
        }),
{
}

/// The spelling of a source kind in target keys and messages.
pub open spec fn kind_arg(kind: CaptureSourceKind) -> Seq<char> {
    match kind {
        CaptureSourceKind::Display => "display"@,
        CaptureSourceKind::Window => "window"@,
    }
}

/// The spelling of a source kind in target keys and messages.
pub fn capture_kind_arg(kind: CaptureSourceKind) -> (r: &'static str)
    ensures
        r@ == kind_arg(kind),
{
    match kind {
        CaptureSourceKind::Display => "display",
        CaptureSourceKind::Window => "window",
    }
}

/// The targets as views.
pub open spec fn targets_view(ts: &Vec<CaptureTarget>) -> Seq<CaptureTargetView> {
    ts@.map_values(|t: CaptureTarget| t@)
}

/// The first index from `i` of a target of `kind` (with id `id`, when given).
pub open spec fn find_target(ts: Seq<CaptureTargetView>, kind: CaptureSourceKind, id: Option<u64>, i: int) -> Option<int>
    decreases ts.len() - i,
{
    if i < 0 || i >= ts.len() {
        None
    } else if ts[i].kind == kind && (id is None || ts[i].id == id->0) {
        Some(i)
    } else {
        find_target(ts, kind, id, i + 1)
    }
}

/// The target that a recording of `kind` uses: the one with the explicit id;
/// else the saved one, if it is still there; else the first of that kind.
pub open spec fn resolve_target_spec(
    ts: Seq<CaptureTargetView>,
    kind: CaptureSourceKind,
    explicit_id: Option<u64>,
    saved_id: Option<u64>,
) -> Result<CaptureTargetView, Seq<char>> {
    match explicit_id {
        Some(id) => match find_target(ts, kind, Some(id), 0) {
            Some(i) => Ok(ts[i]),
            None => Err("no "@ + kind_arg(kind) + " with id "@ + decimal(id as nat)
                + ". Run `wrec targets --json` and pass one of the listed `"@ + kind_arg(kind) + "` ids."@),
        },
        None => {
            let saved = match saved_id {
                Some(id) => find_target(ts, kind, Some(id), 0),
                None => None,
            };
            match saved {
                Some(i) => Ok(ts[i]),
                None => match find_target(ts, kind, None, 0) {
                    Some(i) => Ok(ts[i]),
                    None => Err("no "@ + kind_arg(kind)
                        + " capture targets available. Run `wrec targets --json` to inspect targets; if it fails, grant Screen Recording permission."@),
                },
            }
        },
    }
}

proof fn lemma_find_target_range(ts: Seq<CaptureTargetView>, kind: CaptureSourceKind, id: Option<u64>, i: int)
    requires
        0 <= i,
    ensures
        match find_target(ts, kind, id, i) {
            Some(j) => i <= j < ts.len() && ts[j].kind == kind && (id is None || ts[j].id == id->0),
            None => true,
        },
    decreases ts.len() - i,
{
    if i < ts.len() {
        lemma_find_target_range(ts, kind, id, i + 1);
    }
}

fn find_target_x(ts: &Vec<CaptureTarget>, kind: CaptureSourceKind, id: Option<u64>) -> (r: Option<usize>)
    ensures
        match (r, find_target(targets_view(ts), kind, id, 0)) {
            (Some(a), Some(b)) => a == b && a < ts.len(),
            (None, None) => true,
            _ => false,
        },
{
    let ghost t = targets_view(ts);
    let mut i: usize = 0;
    while i < ts.len()
        invariant
            i <= ts.len(),
            t == targets_view(ts),
            find_target(t, kind, id, 0) == find_target(t, kind, id, i as int),
        decreases ts.len() - i,
    {
        assert(t[i as int] == ts@[i as int]@);
        let matches = match id {
            Some(want) => ts[i].kind == kind && ts[i].id == want,
            None => ts[i].kind == kind,
        };
        if matches {
            return Some(i);
        }
        i = i + 1;
    }
    None
}

/// Picks the target of `kind` to record: the one with `explicit_id` if given
/// (an error when there is none), else the saved one if it is still there,
/// else the first of that kind (an error when there is none).
pub fn resolve_target(
    targets: &Vec<CaptureTarget>,
    kind: CaptureSourceKind,
    explicit_id: Option<u64>,
    saved_id: Option<u64>,
) -> (r: Result<CaptureTarget, String>)
    ensures
        match (r, resolve_target_spec(targets_view(targets), kind, explicit_id, saved_id)) {
            (Ok(a), Ok(b)) => a@ == b,
            (Err(e), Err(m)) => e@ == m,
            _ => false,
        },
        r is Ok ==> r->Ok_0.kind == kind,
{
    proof {
        lemma_find_target_range(targets_view(targets), kind, explicit_id, 0);
        lemma_find_target_range(targets_view(targets), kind, saved_id, 0);
        lemma_find_target_range(targets_view(targets), kind, None, 0);
    }
    match explicit_id {
        Some(id) => {
            match find_target_x(targets, kind, Some(id)) {
                Some(i) => {
                    assert(targets_view(targets)[i as int] == targets@[i as int]@);
                    return Ok(targets[i].duplicate());
                },
                None => {
                    let mut m: Vec<char> = Vec::new();
                    push_str(&mut m, "no ");
                    push_str(&mut m, capture_kind_arg(kind));
                    push_str(&mut m, " with id ");
                    push_chars(&mut m, &decimal_chars(id));
                    push_str(&mut m, ". Run `wrec targets --json` and pass one of the listed `");
                    push_str(&mut m, capture_kind_arg(kind));
                    push_str(&mut m, "` ids.");
                    assert(Seq::<char>::empty() + "no "@ == "no "@);
                    return Err(string_of(&m));
                },
            }
        },
        None => {},
    }
    let saved = match saved_id {
        Some(id) => find_target_x(targets, kind, Some(id)),
        None => None,
    };
    match saved {
        Some(i) => {
            assert(targets_view(targets)[i as int] == targets@[i as int]@);
            return Ok(targets[i].duplicate());
        },
        None => {},
    }
    match find_target_x(targets, kind, None) {
        Some(i) => {
            assert(targets_view(targets)[i as int] == targets@[i as int]@);
            Ok(targets[i].duplicate())
        },
        None => {
            let mut m: Vec<char> = Vec::new();
            push_str(&mut m, "no ");
            push_str(&mut m, capture_kind_arg(kind));
            push_str(&mut m, " capture targets available. Run `wrec targets --json` to inspect targets; if it fails, grant Screen Recording permission.");
            assert(Seq::<char>::empty() + "no "@ == "no "@);
            Err(string_of(&m))
        },
    }
}

/// A saved target key `kind:id`.
pub open spec fn parse_target_key_spec(key: Seq<char>) -> Option<(CaptureSourceKind, u64)> {
    match split_once_spec(key, ":"@) {
        Some((kind, id)) => {
            if kind == "display"@ || kind == "window"@ {
                match parse_u64_spec(id) {
                    Some(n) => Some((if kind == "display"@ { CaptureSourceKind::Display } else { CaptureSourceKind::Window }, n)),
                    None => None,
                }
            } else {
                None
            }
        },
        None => None,
    }
}

/// Reads a saved target key `kind:id`.
pub fn parse_target_key(key: &Vec<char>) -> (r: Option<(CaptureSourceKind, u64)>)
    ensures
        r == parse_target_key_spec(key@),
{
    let colon = chars_of(":");
    match split_once(key, &colon) {
        Some((kind, id)) => {
            let k = if is_lit(&kind, "display") {
                CaptureSourceKind::Display
            } else if is_lit(&kind, "window") {
                CaptureSourceKind::Window
            } else {
                return None;
            };
            match parse_u64(&id) {
                Some(n) => Some((k, n)),
                None => None,
            }
        },
        None => None,
    }
}

/// The saved target's id, when the saved target key names one of `kind`.
pub open spec fn selected_target_id_spec(key: Option<Seq<char>>, kind: CaptureSourceKind) -> Option<u64> {
    match key {
        Some(k) => match parse_target_key_spec(k) {
            Some((sk, id)) => if sk == kind { Some(id) } else { None },
            None => None,
        },
        None => None,
    }
}

/// The saved target's id, when the saved target key names one of `kind`.
pub fn selected_target_id(selected_target_key: &Option<String>, kind: CaptureSourceKind) -> (r: Option<u64>)
    ensures
        r == selected_target_id_spec(
            match selected_target_key { Some(k) => Some(k@), None => None },
            kind,
        ),
{
    match selected_target_key {
        Some(k) => {
            let cs = chars_of(k.as_str());
            match parse_target_key(&cs) {
                Some((sk, id)) => if sk == kind { Some(id) } else { None },
                None => None,
            }
        },
        None => None,
    }
}

/// Lines that start with `wrec-helper:` come from the helper.
pub fn recorder_event_source(message: &Vec<char>) -> (r: EventSource)
    ensures
        r == (if has_prefix(message@, "wrec-helper:"@) { EventSource::Helper } else { EventSource::Backend }),
{
    let p = chars_of("wrec-helper:");
    if starts_with(message, &p) {
        EventSource::Helper
    } else {
        EventSource::Backend
    }
}

/// The end of the run of non-white-space characters that starts at `i`.
pub open spec fn token_end(s: Seq<char>, i: int) -> int
    decreases s.len() - i,
{
    if 0 <= i < s.len() && !is_ws(s[i]) {
        token_end(s, i + 1)
    } else {
        i
    }
}

/// The first white-space separated word of `s`, if any.
pub open spec fn first_word(s: Seq<char>) -> Option<Seq<char>> {
    let start = skip_ws_from(s, 0);
    if start >= s.len() {
        None
    } else {
        Some(s.subrange(start, token_end(s, start)))
    }
}

proof fn lemma_skip_ws_range(s: Seq<char>, i: int)
    requires
        0 <= i <= s.len(),
    ensures
        i <= skip_ws_from(s, i) <= s.len(),
    decreases s.len() - i,
{
    if i < s.len() && is_ws(s[i]) {
        lemma_skip_ws_range(s, i + 1);
    }
}

proof fn lemma_token_end_range(s: Seq<char>, i: int)
    requires
        0 <= i <= s.len(),
    ensures
        i <= token_end(s, i) <= s.len(),
    decreases s.len() - i,
{
    if i < s.len() && !is_ws(s[i]) {
        lemma_token_end_range(s, i + 1);
    }
}

/// The first white-space separated word of `s`, if any.
pub fn first_word_x(s: &Vec<char>) -> (r: Option<Vec<char>>)
    ensures
        match (r, first_word(s@)) {
            (Some(a), Some(b)) => a@ == b,
            (None, None) => true,
            _ => false,
        },
{
    let mut i: usize = 0;
    while i < s.len() && is_whitespace(s[i])
        invariant
            i <= s.len(),
            skip_ws_from(s@, 0) == skip_ws_from(s@, i as int),
        decreases s.len() - i,
    {
        i = i + 1;
    }
    if i >= s.len() {
        return None;
    }
    let mut j: usize = i;
    while j < s.len() && !is_whitespace(s[j])
        invariant
            i <= j <= s.len(),
            token_end(s@, i as int) == token_end(s@, j as int),
        decreases s.len() - j,
    {
        j = j + 1;
    }
    Some(slice(s, i, j))
}

/// The `WIDTHxHEIGHT` word right after `key` in `message`.
pub open spec fn size_after_spec(message: Seq<char>, key: Seq<char>) -> Option<(i64, i64)> {
    match split_once_spec(message, key) {
        None => None,
        Some((_, rest)) => match first_word(rest) {
            None => None,
            Some(token) => match split_once_spec(token, "x"@) {
                None => None,
                Some((w, h)) => match (parse_i64_spec(w), parse_i64_spec(h)) {
                    (Some(a), Some(b)) => Some((a, b)),
                    _ => None,
                },
            },
        },
    }
}

/// Reads the `WIDTHxHEIGHT` word right after `key` in `message`.
pub fn parse_size_after(message: &Vec<char>, key: &str) -> (r: Option<(i64, i64)>)
    ensures
        r == size_after_spec(message@, key@),
{
    let k = chars_of(key);
    let rest = match split_once(message, &k) {
        None => return None,
        Some((_, rest)) => rest,
    };
    let token = match first_word_x(&rest) {
        None => return None,
        Some(t) => t,
    };
    let x = chars_of("x");
    match split_once(&token, &x) {
        None => None,
        Some((w, h)) => match (parse_i64(&w), parse_i64(&h)) {
            (Some(a), Some(b)) => Some((a, b)),
            _ => None,
        },
    }
}

/// The sizes in a helper line `... native=WxH size=WxH`.
pub open spec fn capture_dimensions_spec(message: Seq<char>) -> Option<CaptureDimensions> {
    match (size_after_spec(message, "native="@), size_after_spec(message, "size="@)) {
        (Some((nw, nh)), Some((ow, oh))) => Some(CaptureDimensions {
            native_width: nw,
            native_height: nh,
            output_width: ow,
            output_height: oh,
        }),
        _ => None,
    }
}

/// Reads the sizes in a helper line `... native=WxH size=WxH`.
pub fn parse_capture_dimensions(message: &Vec<char>) -> (r: Option<CaptureDimensions>)
    ensures
        r == capture_dimensions_spec(message@),
{
    let native = match parse_size_after(message, "native=") {
        Some(n) => n,
        None => return None,
    };
    let output = match parse_size_after(message, "size=") {
        Some(o) => o,
        None => return None,
    };
    Some(CaptureDimensions {
        native_width: native.0,
        native_height: native.1,
        output_width: output.0,
        output_height: output.1,
    })
}

/// What the backend tells the app after an engine event.
pub enum BackendEvent {
    Starting { session_id: u64, target: CaptureTarget, settings: RecorderSettings, output_path: String },
    Log { session_id: Option<u64>, message: String, marked_started: bool },
    Metrics { session_id: u64, elapsed_secs: u64, output_bytes: u64 },
    Failed { recording_id: Option<u64>, message: String },
    Exited { session_id: u64, success: bool, status: String, output_path: Option<String> },
}

/// `BackendEvent` with its text as characters.
pub enum BackendEventView {
    Starting { session_id: u64, target: CaptureTargetView, settings: RecorderSettings, output_path: Seq<char> },
    Log { session_id: Option<u64>, message: Seq<char>, marked_started: bool },
    Metrics { session_id: u64, elapsed_secs: u64, output_bytes: u64 },
    Failed { recording_id: Option<u64>, message: Seq<char> },
    Exited { session_id: u64, success: bool, status: Seq<char>, output_path: Option<Seq<char>> },
}

impl View for BackendEvent {
    type V = BackendEventView;

    open spec fn view(&self) -> BackendEventView {
        match self {
            BackendEvent::Starting { session_id, target, settings, output_path } => BackendEventView::Starting {
                session_id: *session_id,
                target: target@,
                settings: *settings,
                output_path: output_path@,
            },
            BackendEvent::Log { session_id, message, marked_started } => BackendEventView::Log {
                session_id: *session_id,
                message: message@,
                marked_started: *marked_started,
            },
            BackendEvent::Metrics { session_id, elapsed_secs, output_bytes } => BackendEventView::Metrics {
                session_id: *session_id,
                elapsed_secs: *elapsed_secs,
                output_bytes: *output_bytes,
            },
            BackendEvent::Failed { recording_id, message } => BackendEventView::Failed {
                recording_id: *recording_id,
                message: message@,
            },
            BackendEvent::Exited { session_id, success, status, output_path } => BackendEventView::Exited {
                session_id: *session_id,
                success: *success,
                status: status@,
                output_path: opt_chars(*output_path),
            },
        }
    }
}

/// A write to the recording history that an engine event calls for. The
/// caller makes it where a history is open, and adds to a completed
/// recording the size of its file and to a metric the bitrate estimate.
pub enum StoreWrite {
    UpsertRecording(RecordingRecord),
    MarkStarted { id: u64 },
    UpdateDimensions { id: u64, dimensions: CaptureDimensions },
    AppendEvent(EventRecord),
    AppendMetric { recording_id: u64, timestamp_ms: i64, elapsed_secs: u64, output_bytes: u64 },
    MarkCompleted { id: u64, stopped_at_ms: i64, output_path: Option<String> },
    MarkFailed { id: u64, stopped_at_ms: i64, message: String },
}

/// `StoreWrite` with its text as characters.
pub enum StoreWriteView {
    UpsertRecording(RecordingRecordView),
    MarkStarted { id: u64 },
    UpdateDimensions { id: u64, dimensions: CaptureDimensions },
    AppendEvent(EventRecordView),
    AppendMetric { recording_id: u64, timestamp_ms: i64, elapsed_secs: u64, output_bytes: u64 },
    MarkCompleted { id: u64, stopped_at_ms: i64, output_path: Option<Seq<char>> },
    MarkFailed { id: u64, stopped_at_ms: i64, message: Seq<char> },
}

impl View for StoreWrite {
    type V = StoreWriteView;

    open spec fn view(&self) -> StoreWriteView {
        match self {
            StoreWrite::UpsertRecording(r) => StoreWriteView::UpsertRecording(r@),
            StoreWrite::MarkStarted { id } => StoreWriteView::MarkStarted { id: *id },
            StoreWrite::UpdateDimensions { id, dimensions } => StoreWriteView::UpdateDimensions { id: *id, dimensions: *dimensions },
            StoreWrite::AppendEvent(e) => StoreWriteView::AppendEvent(e@),
            StoreWrite::AppendMetric { recording_id, timestamp_ms, elapsed_secs, output_bytes } => StoreWriteView::AppendMetric {
                recording_id: *recording_id,
                timestamp_ms: *timestamp_ms,
                elapsed_secs: *elapsed_secs,
                output_bytes: *output_bytes,
            },
            StoreWrite::MarkCompleted { id, stopped_at_ms, output_path } => StoreWriteView::MarkCompleted {
                id: *id,
                stopped_at_ms: *stopped_at_ms,
                output_path: opt_chars(*output_path),
            },
            StoreWrite::MarkFailed { id, stopped_at_ms, message } => StoreWriteView::MarkFailed {
                id: *id,
                stopped_at_ms: *stopped_at_ms,
                message: message@,
            },
        }
    }
}

/// A list of history writes, each as its view.
pub open spec fn writes_view(ws: Seq<StoreWrite>) -> Seq<StoreWriteView> {
    ws.map_values(|w: StoreWrite| w@)
}

/// What the backend remembers between engine events: the session being
/// recorded, its output file, and the sessions that failed before their
/// helper exited.
pub struct BackendState {
    pub active_session_id: Option<u64>,
    pub active_output_path: Option<Seq<char>>,
    pub failed: Set<u64>,
}

/// How a capture kind prints in a log line.
pub open spec fn kind_debug(k: CaptureSourceKind) -> Seq<char> {
    match k {
        CaptureSourceKind::Display => "Display"@,
        CaptureSourceKind::Window => "Window"@,
    }
}

/// The log line for a capture that starts.
pub open spec fn starting_message(t: CaptureTargetView) -> Seq<char> {
    "starting capture: "@ + t.name + " ("@ + kind_debug(t.kind) + ")"@
}

/// The history row of a recording that starts at `now`.
pub open spec fn recording_row(id: u64, t: CaptureTargetView, st: RecorderSettings, path: Seq<char>, now: i64) -> RecordingRecordView {
    RecordingRecordView {
        id,
        started_at_ms: now,
        output_path: path,
        target_kind: kind_arg(t.kind),
        target_id: t.id,
        target_name: t.name,
        codec: codec_arg(st.codec),
        quality: quality_arg(st.quality),
        resolution: resolution_arg(st.resolution),
        fps: fps_value(st.fps) as u32,
        include_cursor: st.include_cursor,
        include_system_audio: st.include_system_audio,
    }
}

/// A history event without extra fields.
pub open spec fn event_row(rid: Option<u64>, now: i64, level: EventLevel, source: EventSource, message: Seq<char>) -> EventRecordView {
    EventRecordView { recording_id: rid, timestamp_ms: now, level, source, message, fields_json: None }
}

/// Where a log line of the recorder came from.
pub open spec fn log_source(message: Seq<char>) -> EventSource {
    if has_prefix(message, "wrec-helper:"@) { EventSource::Helper } else { EventSource::Backend }
}

/// The writes for a log line: the recording is marked started when the line
/// says so, its sizes are kept when the line reports them, and the line
/// itself is kept.
#[verifier::opaque]
pub open spec fn log_writes(sid: Option<u64>, message: Seq<char>, now: i64) -> Seq<StoreWriteView> {
    let started: Seq<StoreWriteView> = if contains_seq(message, "recording started"@) && sid is Some {
        seq![StoreWriteView::MarkStarted { id: sid->0 }]
    } else {
        seq![]
    };
    let sized: Seq<StoreWriteView> = match (sid, capture_dimensions_spec(message)) {
        (Some(id), Some(d)) => seq![StoreWriteView::UpdateDimensions { id, dimensions: d }],
        _ => seq![],
    };
    started + sized + seq![StoreWriteView::AppendEvent(event_row(sid, now, EventLevel::Info, log_source(message), message))]
}

/// One engine event: the backend's next state, what it tells the app, and
/// the history writes, in order.
pub open spec fn backend_step(st: BackendState, e: RecorderEventView, now: i64) -> (BackendState, BackendEventView, Seq<StoreWriteView>) {
    match e {
        RecorderEventView::Starting { session_id, target, settings, output_path } => (
            BackendState { active_session_id: Some(session_id), active_output_path: Some(output_path), failed: st.failed.remove(session_id) },
            BackendEventView::Starting { session_id, target, settings, output_path },
            seq![
                StoreWriteView::UpsertRecording(recording_row(session_id, target, settings, output_path, now)),
                StoreWriteView::AppendEvent(event_row(Some(session_id), now, EventLevel::Info, EventSource::Backend, starting_message(target))),
            ],
        ),
        RecorderEventView::Log { session_id, message } => (
            st,
            BackendEventView::Log { session_id, message, marked_started: contains_seq(message, "recording started"@) },
            log_writes(session_id, message, now),
        ),
        RecorderEventView::Metrics { session_id, elapsed_secs, output_bytes } => (
            st,
            BackendEventView::Metrics { session_id, elapsed_secs, output_bytes },
            seq![StoreWriteView::AppendMetric { recording_id: session_id, timestamp_ms: now, elapsed_secs, output_bytes }],
        ),
        RecorderEventView::Failed { session_id, message } => {
            let rid = match session_id { Some(id) => Some(id), None => st.active_session_id };
            let failed_row: Seq<StoreWriteView> = match rid {
                Some(id) => seq![StoreWriteView::MarkFailed { id, stopped_at_ms: now, message }],
                None => seq![],
            };
            (
                BackendState {
                    active_session_id: None,
                    active_output_path: None,
                    failed: match rid { Some(id) => st.failed.insert(id), None => st.failed },
                },
                BackendEventView::Failed { recording_id: rid, message },
                failed_row + seq![StoreWriteView::AppendEvent(event_row(rid, now, EventLevel::Error, EventSource::Backend, "error: "@ + message))],
            )
        },
        RecorderEventView::Exited { session_id, success, status } => {
            let failed_before = st.failed.contains(session_id);
            let ok = success && !failed_before;
            let finish: Seq<StoreWriteView> = if ok {
                seq![StoreWriteView::MarkCompleted { id: session_id, stopped_at_ms: now, output_path: st.active_output_path }]
            } else if !failed_before {
                seq![StoreWriteView::MarkFailed { id: session_id, stopped_at_ms: now, message: status }]
            } else {
                seq![]
            };
            (
                BackendState { active_session_id: None, active_output_path: None, failed: st.failed.remove(session_id) },
                BackendEventView::Exited { session_id, success: ok, status, output_path: st.active_output_path },
                finish + seq![StoreWriteView::AppendEvent(event_row(
                    Some(session_id),
                    now,
                    if ok { EventLevel::Info } else { EventLevel::Error },
                    EventSource::Backend,
                    "helper exited: "@ + status,
                ))],
            )
        },
    }
}

/// The backend between the recorder engine and the app: it follows the
/// session being recorded and says what the history should keep of each
/// engine event.
pub struct WrecBackend {
    active_session_id: Option<u64>,
    active_output_path: Option<String>,
    failed_session_ids: HashSet<u64>,
}

impl View for WrecBackend {
    type V = BackendState;

    closed spec fn view(&self) -> BackendState {
        BackendState {
            active_session_id: self.active_session_id,
            active_output_path: opt_chars(self.active_output_path),
            failed: self.failed_session_ids@,
        }
    }
}

fn copy_text(s: &String) -> (r: String)
    ensures
        r@ == s@,
{
    s.clone()
}

fn copy_opt_text(s: &Option<String>) -> (r: Option<String>)
    ensures
        opt_chars(r) == opt_chars(*s),
{
    match s {
        Some(t) => Some(copy_text(t)),
        None => None,
    }
}

fn starting_text(target: &CaptureTarget) -> (r: String)
    ensures
        r@ == starting_message(target@),
{
    let mut m: Vec<char> = Vec::new();
    push_str(&mut m, "starting capture: ");
    push_chars(&mut m, &chars_of(target.name.as_str()));
    push_str(&mut m, " (");
    match target.kind {
        CaptureSourceKind::Display => push_str(&mut m, "Display"),
        CaptureSourceKind::Window => push_str(&mut m, "Window"),
    }
    push_str(&mut m, ")");
    assert(Seq::<char>::empty() + "starting capture: "@ == "starting capture: "@);
    string_of(&m)
}

fn prefixed_text(prefix: &str, s: &String) -> (r: String)
    ensures
        r@ == prefix@ + s@,
{
    let mut m: Vec<char> = Vec::new();
    push_str(&mut m, prefix);
    push_chars(&mut m, &chars_of(s.as_str()));
    assert(Seq::<char>::empty() + prefix@ == prefix@);
    string_of(&m)
}

fn event_write(rid: Option<u64>, now: i64, level: EventLevel, source: EventSource, message: String) -> (r: StoreWrite)
    ensures
        r@ == StoreWriteView::AppendEvent(event_row(rid, now, level, source, message@)),
{
    StoreWrite::AppendEvent(EventRecord { recording_id: rid, timestamp_ms: now, level, source, message, fields_json: None })
}

impl WrecBackend {
    /// A backend with no session.
    pub fn new() -> (r: WrecBackend)
        ensures
            r@ == (BackendState { active_session_id: None, active_output_path: None, failed: Set::empty() }),
    {
        WrecBackend { active_session_id: None, active_output_path: None, failed_session_ids: HashSet::new() }
    }

    /// The session being recorded.
    pub fn active_session_id(&self) -> (r: Option<u64>)
        ensures
            r == self@.active_session_id,
    {
        self.active_session_id
    }

    /// The output file of the session being recorded.
    pub fn active_output_path(&self) -> (r: Option<String>)
        ensures
            opt_chars(r) == self@.active_output_path,
    {
        copy_opt_text(&self.active_output_path)
    }

    #[verifier::rlimit(60)]
    fn on_starting(&mut self, sid: u64, target: &CaptureTarget, settings: &RecorderSettings, output_path: &String, now_ms: i64) -> (r: (BackendEvent, Vec<StoreWrite>))
        ensures
            (final(self)@, r.0@, writes_view(r.1@)) == backend_step(
                old(self)@,
                RecorderEventView::Starting { session_id: sid, target: target@, settings: *settings, output_path: output_path@ },
                now_ms,
            ),
    {
        broadcast use vstd::std_specs::hash::group_hash_axioms;
        let ghost before = self@;
        let mut writes: Vec<StoreWrite> = Vec::new();
        self.active_session_id = Some(sid);
        self.active_output_path = Some(copy_text(output_path));
        self.failed_session_ids.remove(&sid);
        let row = RecordingRecord {
            id: sid,
            started_at_ms: now_ms,
            output_path: copy_text(output_path),
            target_kind: capture_kind_arg(target.kind).to_string(),
            target_id: target.id,
            target_name: copy_text(&target.name),
            codec: settings.codec.as_arg().to_string(),
            quality: settings.quality.as_arg().to_string(),
            resolution: settings.resolution.as_arg().to_string(),
            fps: settings.fps.as_u32(),
            include_cursor: settings.include_cursor,
            include_system_audio: settings.include_system_audio,
        };
        writes.push(StoreWrite::UpsertRecording(row));
        writes.push(event_write(Some(sid), now_ms, EventLevel::Info, EventSource::Backend, starting_text(target)));
        let reply = BackendEvent::Starting {
            session_id: sid,
            target: target.duplicate(),
            settings: settings.duplicate(),
            output_path: copy_text(output_path),
        };
        assert(self@.failed =~= before.failed.remove(sid));
        assert(writes_view(writes@) =~= seq![
            StoreWriteView::UpsertRecording(recording_row(sid, target@, *settings, output_path@, now_ms)),
            StoreWriteView::AppendEvent(event_row(Some(sid), now_ms, EventLevel::Info, EventSource::Backend, starting_message(target@))),
        ]);
        (reply, writes)
    }

    #[verifier::rlimit(60)]
    fn on_log(&self, session_id: Option<u64>, message: &String, now_ms: i64) -> (r: (BackendEvent, Vec<StoreWrite>))
        ensures
            r.0@ == (BackendEventView::Log {
                session_id,
                message: message@,
                marked_started: contains_seq(message@, "recording started"@),
            }),
            writes_view(r.1@) == log_writes(session_id, message@, now_ms),
    {
        let mut writes: Vec<StoreWrite> = Vec::new();
        let cs = chars_of(message.as_str());
        let marked_started = contains(&cs, &chars_of("recording started"));
        if marked_started {
            match session_id {
                Some(sid) => writes.push(StoreWrite::MarkStarted { id: sid }),
                None => {},
            }
        }
        let ghost w1 = writes_view(writes@);
        let dims = parse_capture_dimensions(&cs);
        match (session_id, dims) {
            (Some(sid), Some(d)) => {
                writes.push(StoreWrite::UpdateDimensions { id: sid, dimensions: d });
            },
            _ => {},
        }
        let ghost w2 = writes_view(writes@);
        let source = recorder_event_source(&cs);
        writes.push(event_write(session_id, now_ms, EventLevel::Info, source, copy_text(message)));
        let reply = BackendEvent::Log { session_id, message: copy_text(message), marked_started };
        assert(writes_view(writes@) =~= w2.push(StoreWriteView::AppendEvent(event_row(session_id, now_ms, EventLevel::Info, log_source(message@), message@))));
        assert(writes_view(writes@) =~= log_writes(session_id, message@, now_ms)) by {
            reveal(log_writes);
        }
        (reply, writes)
    }

    #[verifier::rlimit(60)]
    fn on_failed(&mut self, session_id: Option<u64>, message: &String, now_ms: i64) -> (r: (BackendEvent, Vec<StoreWrite>))
        ensures
            final(self)@ == backend_step(old(self)@, RecorderEventView::Failed { session_id, message: message@ }, now_ms).0,
            r.0@ == backend_step(old(self)@, RecorderEventView::Failed { session_id, message: message@ }, now_ms).1,
            writes_view(r.1@) == backend_step(old(self)@, RecorderEventView::Failed { session_id, message: message@ }, now_ms).2,
    {
        broadcast use vstd::std_specs::hash::group_hash_axioms;
        let ghost before = self@;
        let mut writes: Vec<StoreWrite> = Vec::new();
        let rid = match session_id {
            Some(id) => Some(id),
            None => self.active_session_id,
        };
        if let Some(id) = rid {
            self.failed_session_ids.insert(id);
            writes.push(StoreWrite::MarkFailed { id, stopped_at_ms: now_ms, message: copy_text(message) });
        }
        let ghost w1 = writes_view(writes@);
        writes.push(event_write(rid, now_ms, EventLevel::Error, EventSource::Backend, prefixed_text("error: ", message)));
        self.active_session_id = None;
        self.active_output_path = None;
        let reply = BackendEvent::Failed { recording_id: rid, message: copy_text(message) };
        proof { reveal_strlit("error: "); }
        assert(writes_view(writes@) =~= w1.push(StoreWriteView::AppendEvent(event_row(rid, now_ms, EventLevel::Error, EventSource::Backend, "error: "@ + message@))));
        assert(self@.failed =~= (match rid { Some(id) => before.failed.insert(id), None => before.failed }));
        (reply, writes)
    }

    #[verifier::rlimit(60)]
    fn on_exited(&mut self, sid: u64, success: bool, status: &String, now_ms: i64) -> (r: (BackendEvent, Vec<StoreWrite>))
        ensures
            final(self)@ == backend_step(old(self)@, RecorderEventView::Exited { session_id: sid, success, status: status@ }, now_ms).0,
            r.0@ == backend_step(old(self)@, RecorderEventView::Exited { session_id: sid, success, status: status@ }, now_ms).1,
            writes_view(r.1@) == backend_step(old(self)@, RecorderEventView::Exited { session_id: sid, success, status: status@ }, now_ms).2,
    {
        broadcast use vstd::std_specs::hash::group_hash_axioms;
        let ghost before = self@;
        let mut writes: Vec<StoreWrite> = Vec::new();
        let output_path = copy_opt_text(&self.active_output_path);
        let failed_before_exit = self.failed_session_ids.remove(&sid);
        assert(failed_before_exit == before.failed.contains(sid));
        assert(opt_chars(output_path) == before.active_output_path);
        let ok = success && !failed_before_exit;
        if ok {
            writes.push(StoreWrite::MarkCompleted { id: sid, stopped_at_ms: now_ms, output_path: copy_opt_text(&output_path) });
        } else if !failed_before_exit {
            writes.push(StoreWrite::MarkFailed { id: sid, stopped_at_ms: now_ms, message: copy_text(status) });
        }
        let ghost w1 = writes_view(writes@);
        assert(w1 =~= (if ok {
            seq![StoreWriteView::MarkCompleted { id: sid, stopped_at_ms: now_ms, output_path: before.active_output_path }]
        } else if !failed_before_exit {
            seq![StoreWriteView::MarkFailed { id: sid, stopped_at_ms: now_ms, message: status@ }]
        } else {
            Seq::<StoreWriteView>::empty()
        }));
        let level = if ok { EventLevel::Info } else { EventLevel::Error };
        writes.push(event_write(Some(sid), now_ms, level, EventSource::Backend, prefixed_text("helper exited: ", status)));
        self.active_session_id = None;
        self.active_output_path = None;
        let reply = BackendEvent::Exited { session_id: sid, success: ok, status: copy_text(status), output_path };
        assert(writes_view(writes@) =~= w1.push(StoreWriteView::AppendEvent(event_row(Some(sid), now_ms, level, EventSource::Backend, "helper exited: "@ + status@))));
        assert(self@.failed =~= before.failed.remove(sid));
        (reply, writes)
    }

    /// Follows one engine event at time `now_ms`: says what to tell the app
    /// and which history writes to make, in order.
    #[verifier::rlimit(60)]
    pub fn handle_recorder_event(&mut self, event: &RecorderEvent, now_ms: i64) -> (r: (BackendEvent, Vec<StoreWrite>))
        ensures
            (final(self)@, r.0@, writes_view(r.1@)) == backend_step(old(self)@, event@, now_ms),
    {
        match event {
            RecorderEvent::Starting { session_id, target, settings, output_path } => {
                self.on_starting(*session_id, target, settings, output_path, now_ms)
            },
            RecorderEvent::Log { session_id, message } => self.on_log(*session_id, message, now_ms),
            RecorderEvent::Metrics { session_id, elapsed_secs, output_bytes } => {
                let mut writes: Vec<StoreWrite> = Vec::new();
                writes.push(StoreWrite::AppendMetric {
                    recording_id: *session_id,
                    timestamp_ms: now_ms,
                    elapsed_secs: *elapsed_secs,
                    output_bytes: *output_bytes,
                });
                let reply = BackendEvent::Metrics { session_id: *session_id, elapsed_secs: *elapsed_secs, output_bytes: *output_bytes };
                assert(writes_view(writes@) =~= seq![StoreWriteView::AppendMetric {
                    recording_id: *session_id,
                    timestamp_ms: now_ms,
                    elapsed_secs: *elapsed_secs,
                    output_bytes: *output_bytes,
                }]);
                (reply, writes)
            },
            RecorderEvent::Failed { session_id, message } => self.on_failed(*session_id, message, now_ms),
            RecorderEvent::Exited { session_id, success, status } => self.on_exited(*session_id, *success, status, now_ms),
        }
    }

    /// The history write for a line that the app logs at time `now_ms`.
    pub fn append_app_event(&self, recording_id: Option<u64>, level: ClientEventLevel, message: String, now_ms: i64) -> (r: StoreWrite)
        ensures
            r@ == StoreWriteView::AppendEvent(event_row(
                recording_id,
                now_ms,
                match level { ClientEventLevel::Info => EventLevel::Info, ClientEventLevel::Error => EventLevel::Error },
                EventSource::App,
                message@,
            )),
    {
        let lv = match level {
            ClientEventLevel::Info => EventLevel::Info,
            ClientEventLevel::Error => EventLevel::Error,
        };
        event_write(recording_id, now_ms, lv, EventSource::App, message)
    }
}

/// A session that failed while recording stays failed when its helper
/// exits, even with a successful exit status: the exit is reported as a
/// failure and the history is not marked a second time.
pub proof fn failure_before_exit_is_kept(
    st: BackendState,
    sid: u64,
    target: CaptureTargetView,
    settings: RecorderSettings,
    path: Seq<char>,
    message: Seq<char>,
    status: Seq<char>,
    t1: i64,
    t2: i64,
    t3: i64,
)
    ensures
        ({
            let a = backend_step(st, RecorderEventView::Starting { session_id: sid, target, settings, output_path: path }, t1).0;
            let b = backend_step(a, RecorderEventView::Failed { session_id: Some(sid), message }, t2).0;
            let e = backend_step(b, RecorderEventView::Exited { session_id: sid, success: true, status }, t3);
            &&& e.1 matches BackendEventView::Exited { success: false, .. }
            &&& e.2.len() == 1
            &&& e.2[0] matches StoreWriteView::AppendEvent(row) && row.level == EventLevel::Error
            &&& !e.0.failed.contains(sid)
        }),
{
}

/// A session that starts again is no longer counted as failed: a clean exit
/// after the new start completes the recording into its output file.
pub proof fn restart_clears_failure(st: BackendState, sid: u64, target: CaptureTargetView, settings: RecorderSettings, path: Seq<char>, status: Seq<char>, t1: i64, t2: i64)
    requires
        st.failed.contains(sid),
    ensures
        ({
            let a = backend_step(st, RecorderEventView::Starting { session_id: sid, target, settings, output_path: path }, t1).0;
            let e = backend_step(a, RecorderEventView::Exited { session_id: sid, success: true, status }, t2);
            &&& e.1 == BackendEventView::Exited { session_id: sid, success: true, status, output_path: Some(path) }
            &&& e.2[0] == StoreWriteView::MarkCompleted { id: sid, stopped_at_ms: t2, output_path: Some(path) }
        }),
{
    assert(!st.failed.remove(sid).contains(sid));
}

/// A failure or an exit ends the active session; log lines and metrics
/// leave the backend's state as it was.
pub proof fn session_lifecycle(st: BackendState, e: RecorderEventView, now: i64)
    ensures
        (e is Failed || e is Exited) ==> backend_step(st, e, now).0.active_session_id is None
            && backend_step(st, e, now).0.active_output_path is None,
        (e is Log || e is Metrics) ==> backend_step(st, e, now).0 == st,
        e matches RecorderEventView::Starting { session_id, .. } ==> backend_step(st, e, now).0.active_session_id == Some(session_id),
{
}

} // verus!

//! The settings form of the desktop app: how each choice the user makes
//! changes the saved configuration, and what the window does in turn.

use vstd::prelude::*;
use crate::desktop::{
    first_of_kind, fps_from_label, fps_disabled, preset_limit_message, quality_text, resolution_from_label,
    resolution_disabled, resolution_off, resolution_of_text, resolution_text, selected_index, selected_target,
    target_key, target_key_spec, AppTab,
};
use crate::digits::{decimal, decimal_chars};
use crate::settings::{
    fps_min, fps_value, preset_limited, spec_max_fps, CaptureSourceKind, CaptureTarget, Codec, FrameRate, Quality,
    RecorderSettings,
};
use crate::text::{chars_of, is_lit, push_chars, push_str, string_of, trim, trim_spec};

verus! {

/// The part of the desktop app's state that the settings form edits.
pub struct SettingsForm {
    pub settings: RecorderSettings,
    pub selected_target_key: Option<String>,
    pub show_nerd_logs: bool,
    pub active_tab: AppTab,
}

/// Something the window does after a choice.
pub enum FormAction {
    /// Adds a line to the log.
    Log(String),
    /// Fills the target select again for the source and selects the key.
    SyncTargetSelect,
    /// Sets the codec, quality, resolution and frame rate selects again.
    SyncCaptureSelects,
    /// Saves the configuration.
    SaveConfig,
    /// Draws the window again.
    Redraw,
}

/// `FormAction` with its text as characters.
pub enum FormActionView {
    Log(Seq<char>),
    SyncTargetSelect,
    SyncCaptureSelects,
    SaveConfig,
    Redraw,
}

impl View for FormAction {
    type V = FormActionView;

    open spec fn view(&self) -> FormActionView {
        match self {
            FormAction::Log(m) => FormActionView::Log(m@),
            FormAction::SyncTargetSelect => FormActionView::SyncTargetSelect,
            FormAction::SyncCaptureSelects => FormActionView::SyncCaptureSelects,
            FormAction::SaveConfig => FormActionView::SaveConfig,
            FormAction::Redraw => FormActionView::Redraw,
        }
    }
}

/// The actions as views.
pub open spec fn form_actions_view(a: Seq<FormAction>) -> Seq<FormActionView> {
    a.map_values(|x: FormAction| x@)
}

/// The optional text as characters.
pub open spec fn opt_key(o: Option<String>) -> Option<Seq<char>> {
    match o {
        Some(s) => Some(s@),
        None => None,
    }
}

/// The index of the first target at or after `i` of kind `kind` whose key
/// is `key`.
pub open spec fn first_option_with_key(ts: Seq<CaptureTarget>, kind: CaptureSourceKind, key: Seq<char>, i: int) -> Option<int>
    decreases ts.len() - i,
{
    if i < 0 || i >= ts.len() {
        None
    } else if ts[i].kind == kind && target_key_spec(ts[i]@) == key {
        Some(i)
    } else {
        first_option_with_key(ts, kind, key, i + 1)
    }
}

/// The key the target select shows for `source`: the chosen key while a
/// target of that source has it, else the key of the first target of that
/// source, else none.
pub open spec fn synced_key(ts: Seq<CaptureTarget>, key: Option<Seq<char>>, source: CaptureSourceKind) -> Option<Seq<char>> {
    let kept = match key {
        Some(k) => first_option_with_key(ts, source, k, 0) is Some,
        None => false,
    };
    if kept {
        key
    } else {
        match first_of_kind(ts, source, 0) {
            Some(i) => Some(target_key_spec(ts[i]@)),
            None => None,
        }
    }
}

/// The key the target select shows for `source` after the target list or
/// the source changed.
pub fn synced_target_key(targets: &Vec<CaptureTarget>, key: &Option<String>, source: CaptureSourceKind) -> (r: Option<String>)
    ensures
        opt_key(r) == synced_key(targets@, opt_key(*key), source),
{
    let ghost ts = targets@;
    match key {
        Some(k) => {
            let kc = chars_of(k.as_str());
            let mut i: usize = 0;
            while i < targets.len()
                invariant
                    ts == targets@,
                    i <= targets@.len(),
                    kc@ == k@,
                    match key { Some(kk) => kk@ == k@, None => false },
                    first_option_with_key(ts, source, k@, 0) == first_option_with_key(ts, source, k@, i as int),
                decreases targets.len() - i,
            {
                if targets[i].kind == source {
                    let tk = target_key(&targets[i]);
                    if crate::text::chars_eq(&chars_of(tk.as_str()), &kc) {
                        assert(first_option_with_key(ts, source, k@, i as int) == Some(i as int));
                        let kept = k.clone();
                        assert(kept@ == k@);
                        return Some(kept);
                    }
                }
                i = i + 1;
            }
            assert(first_option_with_key(ts, source, k@, 0) is None);
        },
        None => {},
    }
    assert(match key { Some(kk) => first_option_with_key(ts, source, kk@, 0) is None, None => true });
    let mut i: usize = 0;
    while i < targets.len()
        invariant
            ts == targets@,
            i <= targets@.len(),
            match key { Some(kk) => first_option_with_key(ts, source, kk@, 0) is None, None => true },
            first_of_kind(ts, source, 0) == first_of_kind(ts, source, i as int),
        decreases targets.len() - i,
    {
        if targets[i].kind == source {
            assert(first_of_kind(ts, source, i as int) == Some(i as int));
            let found = target_key(&targets[i]);
            assert(targets@[i as int]@ == ts[i as int]@);
            return Some(found);
        }
        i = i + 1;
    }
    None
}

/// The log line of an on/off switch.
pub open spec fn switch_text(name: Seq<char>, on: bool) -> Seq<char> {
    name + (if on { "on"@ } else { "off"@ })
}

/// What preset limiting logs when it changed the resolution or frame
/// rate of `before`.
pub open spec fn limits_log(before: RecorderSettings) -> Seq<FormActionView> {
    let after = preset_limited(before);
    if before.resolution == after.resolution && before.fps == after.fps {
        Seq::empty()
    } else {
        seq![FormActionView::Log(
            "preset limit: "@ + quality_text(after.quality) + " maxes at "@ + resolution_text(after.resolution) + ", "@
                + decimal(fps_value(after.fps)) + " fps"@,
        )]
    }
}

/// The codec a label names; anything but `H.264` names HEVC.
pub open spec fn codec_of_text(label: Seq<char>) -> Codec {
    if label == "H.264"@ { Codec::H264 } else { Codec::Hevc }
}

/// The quality a label names; anything but `Efficient` and `High` names
/// balanced.
pub open spec fn quality_of_text(label: Seq<char>) -> Quality {
    if label == "Efficient"@ {
        Quality::Efficient
    } else if label == "High"@ {
        Quality::High
    } else {
        Quality::Balanced
    }
}

/// The frame rate a label names; anything but `60 FPS` names 30.
pub open spec fn fps_of_text(label: Seq<char>) -> FrameRate {
    if label == "60 FPS"@ { FrameRate::Fps60 } else { FrameRate::Fps30 }
}

fn emit(actions: &mut Vec<FormAction>, a: FormAction)
    ensures
        form_actions_view(final(actions)@) == form_actions_view(old(actions)@).push(a@),
{
    let ghost before = actions@;
    actions.push(a);
    assert(form_actions_view(actions@) =~= form_actions_view(before).push(a@));
}

fn log_line(prefix: &str, s: &Vec<char>) -> (r: FormAction)
    ensures
        r@ == FormActionView::Log(prefix@ + s@),
{
    let mut m: Vec<char> = Vec::new();
    push_str(&mut m, prefix);
    push_chars(&mut m, s);
    assert(Seq::<char>::empty() + prefix@ == prefix@);
    FormAction::Log(string_of(&m))
}

fn switch_line(name: &str, on: bool) -> (r: FormAction)
    ensures
        r@ == FormActionView::Log(switch_text(name@, on)),
{
    let mut m: Vec<char> = Vec::new();
    push_str(&mut m, name);
    push_str(&mut m, if on { "on" } else { "off" });
    assert(Seq::<char>::empty() + name@ == name@);
    FormAction::Log(string_of(&m))
}

impl SettingsForm {
    /// Lowers the resolution and frame rate to what the quality allows,
    /// logs what changed, and sets the selects again.
    fn apply_preset_limits(&mut self, actions: &mut Vec<FormAction>)
        ensures
            final(self).settings == preset_limited(old(self).settings),
            final(self).selected_target_key == old(self).selected_target_key,
            final(self).show_nerd_logs == old(self).show_nerd_logs,
            final(self).active_tab == old(self).active_tab,
            form_actions_view(final(actions)@) == form_actions_view(old(actions)@) + limits_log(old(self).settings)
                + seq![FormActionView::SyncCaptureSelects],
    {
        let ghost a0 = form_actions_view(actions@);
        let before = self.settings.duplicate();
        let after = self.settings.duplicate().with_preset_limits();
        match preset_limit_message(&before, &after) {
            Some(m) => emit(actions, FormAction::Log(m)),
            None => {},
        }
        let ghost a1 = form_actions_view(actions@);
        assert(a1 == a0 + limits_log(old(self).settings));
        self.settings = after;
        emit(actions, FormAction::SyncCaptureSelects);
    }

    fn finish(actions: &mut Vec<FormAction>)
        ensures
            form_actions_view(final(actions)@) == form_actions_view(old(actions)@)
                + seq![FormActionView::SaveConfig, FormActionView::Redraw],
    {
        let ghost a0 = form_actions_view(actions@);
        emit(actions, FormAction::SaveConfig);
        emit(actions, FormAction::Redraw);
        assert(form_actions_view(actions@) =~= a0 + seq![FormActionView::SaveConfig, FormActionView::Redraw]);
    }

    /// A new source: the chosen target is dropped and the target select is
    /// filled for that source.
    pub fn choose_source(&mut self, label: &String, targets: &Vec<CaptureTarget>) -> (r: Vec<FormAction>)
        ensures
            final(self).settings == (RecorderSettings {
                source: if label@ == "Window"@ { CaptureSourceKind::Window } else { CaptureSourceKind::Display },
                ..old(self).settings
            }),
            opt_key(final(self).selected_target_key) == synced_key(targets@, None, final(self).settings.source),
            final(self).show_nerd_logs == old(self).show_nerd_logs,
            final(self).active_tab == old(self).active_tab,
            form_actions_view(r@) == seq![
                FormActionView::SyncTargetSelect,
                FormActionView::Log("source: "@ + label@),
                FormActionView::SaveConfig,
                FormActionView::Redraw,
            ],
    {
        let cs = chars_of(label.as_str());
        self.settings.source = if is_lit(&cs, "Window") { CaptureSourceKind::Window } else { CaptureSourceKind::Display };
        self.selected_target_key = synced_target_key(targets, &None, self.settings.source);
        let mut actions: Vec<FormAction> = Vec::new();
        emit(&mut actions, FormAction::SyncTargetSelect);
        emit(&mut actions, log_line("source: ", &cs));
        Self::finish(&mut actions);
        assert(form_actions_view(actions@) =~= seq![
            FormActionView::SyncTargetSelect,
            FormActionView::Log("source: "@ + label@),
            FormActionView::SaveConfig,
            FormActionView::Redraw,
        ]);
        actions
    }

    /// A target is chosen by its key; its name is logged when the key
    /// picks a target.
    pub fn choose_target(&mut self, key: String, targets: &Vec<CaptureTarget>) -> (r: Vec<FormAction>)
        ensures
            final(self).settings == old(self).settings,
            opt_key(final(self).selected_target_key) == Some(key@),
            final(self).show_nerd_logs == old(self).show_nerd_logs,
            final(self).active_tab == old(self).active_tab,
            form_actions_view(r@) == (match selected_index(targets@, Some(key@), old(self).settings.source) {
                Some(i) => seq![FormActionView::Log("target: "@ + targets@[i].name@)],
                None => Seq::empty(),
            }) + seq![FormActionView::SaveConfig, FormActionView::Redraw],
    {
        let mut actions: Vec<FormAction> = Vec::new();
        self.selected_target_key = Some(key);
        match selected_target(targets, &self.selected_target_key, self.settings.source) {
            Some(t) => emit(&mut actions, log_line("target: ", &chars_of(t.name.as_str()))),
            None => {},
        }
        Self::finish(&mut actions);
        actions
    }

    /// A codec is chosen by its label.
    pub fn choose_codec(&mut self, label: &String) -> (r: Vec<FormAction>)
        ensures
            final(self).settings == (RecorderSettings { codec: codec_of_text(label@), ..old(self).settings }),
            final(self).selected_target_key == old(self).selected_target_key,
            final(self).show_nerd_logs == old(self).show_nerd_logs,
            final(self).active_tab == old(self).active_tab,
            form_actions_view(r@) == seq![
                FormActionView::Log("codec: "@ + label@),
                FormActionView::SaveConfig,
                FormActionView::Redraw,
            ],
    {
        let cs = chars_of(label.as_str());
        self.settings.codec = if is_lit(&cs, "H.264") { Codec::H264 } else { Codec::Hevc };
        let mut actions: Vec<FormAction> = Vec::new();
        emit(&mut actions, log_line("codec: ", &cs));
        Self::finish(&mut actions);
        assert(form_actions_view(actions@) =~= seq![
            FormActionView::Log("codec: "@ + label@),
            FormActionView::SaveConfig,
            FormActionView::Redraw,
        ]);
        actions
    }

    /// A quality preset is chosen by its label; its limits then apply.
    pub fn choose_quality(&mut self, label: &String) -> (r: Vec<FormAction>)
        ensures
            final(self).settings == preset_limited(RecorderSettings { quality: quality_of_text(label@), ..old(self).settings }),
            final(self).selected_target_key == old(self).selected_target_key,
            final(self).show_nerd_logs == old(self).show_nerd_logs,
            final(self).active_tab == old(self).active_tab,
            form_actions_view(r@) == seq![FormActionView::Log("preset: "@ + label@)]
                + limits_log(RecorderSettings { quality: quality_of_text(label@), ..old(self).settings })
                + seq![FormActionView::SyncCaptureSelects, FormActionView::SaveConfig, FormActionView::Redraw],
    {
        let cs = chars_of(label.as_str());
        self.settings.quality = if is_lit(&cs, "Efficient") {
            Quality::Efficient
        } else if is_lit(&cs, "High") {
            Quality::High
        } else {
            Quality::Balanced
        };
        let mut actions: Vec<FormAction> = Vec::new();
        emit(&mut actions, log_line("preset: ", &cs));
        self.apply_preset_limits(&mut actions);
        Self::finish(&mut actions);
        actions
    }

    /// A resolution is chosen by its label. One the preset rules out only
    /// resets the selects; another is taken, the limits apply, and it is
    /// logged.
    pub fn choose_resolution(&mut self, label: &String) -> (r: Vec<FormAction>)
        ensures
            final(self).selected_target_key == old(self).selected_target_key,
            final(self).show_nerd_logs == old(self).show_nerd_logs,
            final(self).active_tab == old(self).active_tab,
            resolution_off(old(self).settings.quality, resolution_of_text(label@)) ==> {
                &&& final(self).settings == old(self).settings
                &&& form_actions_view(r@) == seq![FormActionView::SyncCaptureSelects, FormActionView::Redraw]
            },
            !resolution_off(old(self).settings.quality, resolution_of_text(label@)) ==> {
                let chosen = RecorderSettings { resolution: resolution_of_text(label@), ..old(self).settings };
                &&& final(self).settings == preset_limited(chosen)
                &&& form_actions_view(r@) == limits_log(chosen) + seq![
                    FormActionView::SyncCaptureSelects,
                    FormActionView::Log("resolution: "@ + label@),
                    FormActionView::SaveConfig,
                    FormActionView::Redraw,
                ]
            },
    {
        let mut actions: Vec<FormAction> = Vec::new();
        let resolution = resolution_from_label(label);
        if resolution_disabled(self.settings.quality, resolution) {
            emit(&mut actions, FormAction::SyncCaptureSelects);
            emit(&mut actions, FormAction::Redraw);
            assert(form_actions_view(actions@) =~= seq![FormActionView::SyncCaptureSelects, FormActionView::Redraw]);
            return actions;
        }
        self.settings.resolution = resolution;
        self.apply_preset_limits(&mut actions);
        emit(&mut actions, log_line("resolution: ", &chars_of(label.as_str())));
        Self::finish(&mut actions);
        actions
    }

    /// A frame rate is chosen by its label. One the preset rules out only
    /// resets the selects; another is taken, the limits apply, and it is
    /// logged.
    pub fn choose_fps(&mut self, label: &String) -> (r: Vec<FormAction>)
        ensures
            final(self).selected_target_key == old(self).selected_target_key,
            final(self).show_nerd_logs == old(self).show_nerd_logs,
            final(self).active_tab == old(self).active_tab,
            fps_min(fps_of_text(label@), spec_max_fps(old(self).settings.quality)) != fps_of_text(label@) ==> {
                &&& final(self).settings == old(self).settings
                &&& form_actions_view(r@) == seq![FormActionView::SyncCaptureSelects, FormActionView::Redraw]
            },
            fps_min(fps_of_text(label@), spec_max_fps(old(self).settings.quality)) == fps_of_text(label@) ==> {
                let chosen = RecorderSettings { fps: fps_of_text(label@), ..old(self).settings };
                &&& final(self).settings == preset_limited(chosen)
                &&& form_actions_view(r@) == limits_log(chosen) + seq![
                    FormActionView::SyncCaptureSelects,
                    FormActionView::Log("fps: "@ + decimal(fps_value(fps_of_text(label@)))),
                    FormActionView::SaveConfig,
                    FormActionView::Redraw,
                ]
            },
    {
        let mut actions: Vec<FormAction> = Vec::new();
        let fps = fps_from_label(label);
        if fps_disabled(self.settings.quality, fps) {
            emit(&mut actions, FormAction::SyncCaptureSelects);
            emit(&mut actions, FormAction::Redraw);
            assert(form_actions_view(actions@) =~= seq![FormActionView::SyncCaptureSelects, FormActionView::Redraw]);
            return actions;
        }
        self.settings.fps = fps;
        self.apply_preset_limits(&mut actions);
        emit(&mut actions, log_line("fps: ", &decimal_chars(fps.as_u32() as u64)));
        Self::finish(&mut actions);
        actions
    }

    /// The output folder is typed in; blank input changes nothing.
    pub fn enter_output_dir(&mut self, value: &String) -> (r: Vec<FormAction>)
        ensures
            final(self).selected_target_key == old(self).selected_target_key,
            final(self).show_nerd_logs == old(self).show_nerd_logs,
            final(self).active_tab == old(self).active_tab,
            trim_spec(value@).len() == 0 ==> final(self).settings == old(self).settings && r@.len() == 0,
            trim_spec(value@).len() > 0 ==> {
                &&& final(self).settings.output_dir@ == trim_spec(value@)
                &&& final(self).settings == (RecorderSettings { output_dir: final(self).settings.output_dir, ..old(self).settings })
                &&& form_actions_view(r@) == seq![
                    FormActionView::Log("output dir: "@ + trim_spec(value@)),
                    FormActionView::SaveConfig,
                    FormActionView::Redraw,
                ]
            },
    {
        let mut actions: Vec<FormAction> = Vec::new();
        let v = trim(&chars_of(value.as_str()));
        if v.len() == 0 {
            return actions;
        }
        self.settings.output_dir = string_of(&v);
        emit(&mut actions, log_line("output dir: ", &v));
        Self::finish(&mut actions);
        assert(form_actions_view(actions@) =~= seq![
            FormActionView::Log("output dir: "@ + trim_spec(value@)),
            FormActionView::SaveConfig,
            FormActionView::Redraw,
        ]);
        actions
    }

    /// The cursor switch.
    pub fn set_include_cursor(&mut self, on: bool) -> (r: Vec<FormAction>)
        ensures
            final(self).settings == (RecorderSettings { include_cursor: on, ..old(self).settings }),
            final(self).selected_target_key == old(self).selected_target_key,
            final(self).show_nerd_logs == old(self).show_nerd_logs,
            final(self).active_tab == old(self).active_tab,
            form_actions_view(r@) == seq![
                FormActionView::Log(switch_text("cursor: "@, on)),
                FormActionView::SaveConfig,
                FormActionView::Redraw,
            ],
    {
        self.settings.include_cursor = on;
        let mut actions: Vec<FormAction> = Vec::new();
        emit(&mut actions, switch_line("cursor: ", on));
        Self::finish(&mut actions);
        assert(form_actions_view(actions@) =~= seq![
            FormActionView::Log(switch_text("cursor: "@, on)),
            FormActionView::SaveConfig,
            FormActionView::Redraw,
        ]);
        actions
    }

    /// The system audio switch.
    pub fn set_include_system_audio(&mut self, on: bool) -> (r: Vec<FormAction>)
        ensures
            final(self).settings == (RecorderSettings { include_system_audio: on, ..old(self).settings }),
            final(self).selected_target_key == old(self).selected_target_key,
            final(self).show_nerd_logs == old(self).show_nerd_logs,
            final(self).active_tab == old(self).active_tab,
            form_actions_view(r@) == seq![
                FormActionView::Log(switch_text("system audio: "@, on)),
                FormActionView::SaveConfig,
                FormActionView::Redraw,
            ],
    {
        self.settings.include_system_audio = on;
        let mut actions: Vec<FormAction> = Vec::new();
        emit(&mut actions, switch_line("system audio: ", on));
        Self::finish(&mut actions);
        assert(form_actions_view(actions@) =~= seq![
            FormActionView::Log(switch_text("system audio: "@, on)),
            FormActionView::SaveConfig,
            FormActionView::Redraw,
        ]);
        actions
    }

    /// The switch that keeps wrec's windows out of recordings.
    pub fn set_hide_wrec(&mut self, on: bool) -> (r: Vec<FormAction>)
        ensures
            final(self).settings == (RecorderSettings { hide_wrec: on, ..old(self).settings }),
            final(self).selected_target_key == old(self).selected_target_key,
            final(self).show_nerd_logs == old(self).show_nerd_logs,
            final(self).active_tab == old(self).active_tab,
            form_actions_view(r@) == seq![
                FormActionView::Log(switch_text("hide wrec: "@, on)),
                FormActionView::SaveConfig,
                FormActionView::Redraw,
            ],
    {
        self.settings.hide_wrec = on;
        let mut actions: Vec<FormAction> = Vec::new();
        emit(&mut actions, switch_line("hide wrec: ", on));
        Self::finish(&mut actions);
        assert(form_actions_view(actions@) =~= seq![
            FormActionView::Log(switch_text("hide wrec: "@, on)),
            FormActionView::SaveConfig,
            FormActionView::Redraw,
        ]);
        actions
    }

    /// The switch of the detailed log; hiding it leaves its tab for the
    /// settings tab.
    pub fn set_show_nerd_logs(&mut self, on: bool) -> (r: Vec<FormAction>)
        ensures
            final(self).settings == old(self).settings,
            final(self).selected_target_key == old(self).selected_target_key,
            final(self).show_nerd_logs == on,
            final(self).active_tab == (if !on && old(self).active_tab == AppTab::Nerd { AppTab::Settings } else { old(self).active_tab }),
            form_actions_view(r@) == seq![
                FormActionView::Log(switch_text("nerd logs: "@, on)),
                FormActionView::SaveConfig,
                FormActionView::Redraw,
            ],
    {
        self.show_nerd_logs = on;
        if !on && self.active_tab == AppTab::Nerd {
            self.active_tab = AppTab::Settings;
        }
        let mut actions: Vec<FormAction> = Vec::new();
        emit(&mut actions, switch_line("nerd logs: ", on));
        Self::finish(&mut actions);
        assert(form_actions_view(actions@) =~= seq![
            FormActionView::Log(switch_text("nerd logs: "@, on)),
            FormActionView::SaveConfig,
            FormActionView::Redraw,
        ]);
        actions
    }
}

} // verus!

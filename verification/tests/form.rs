use wrec::desktop::AppTab;
use wrec::form::{synced_target_key, FormAction, SettingsForm};
use wrec::settings::{CaptureSourceKind, CaptureTarget, Codec, FrameRate, Quality, RecorderSettings, Resolution};

fn form() -> SettingsForm {
    SettingsForm {
        settings: RecorderSettings::with_output_dir("/tmp/Wrec".to_string()),
        selected_target_key: Some("display:1".to_string()),
        show_nerd_logs: true,
        active_tab: AppTab::Nerd,
    }
}

fn targets() -> Vec<CaptureTarget> {
    vec![
        CaptureTarget { id: 1, name: "Main".to_string(), kind: CaptureSourceKind::Display },
        CaptureTarget { id: 5, name: "Notes".to_string(), kind: CaptureSourceKind::Window },
        CaptureTarget { id: 6, name: "Terminal".to_string(), kind: CaptureSourceKind::Window },
    ]
}

fn logs(actions: &[FormAction]) -> Vec<String> {
    actions
        .iter()
        .filter_map(|a| match a {
            FormAction::Log(m) => Some(m.clone()),
            _ => None,
        })
        .collect()
}

#[test]
fn switching_source_picks_the_first_target_of_that_source() {
    let mut f = form();
    let actions = f.choose_source(&"Window".to_string(), &targets());
    assert_eq!(f.settings.source, CaptureSourceKind::Window);
    assert_eq!(f.selected_target_key, Some("window:5".to_string()));
    assert!(matches!(actions[0], FormAction::SyncTargetSelect));
    assert_eq!(logs(&actions), vec!["source: Window".to_string()]);
    assert!(matches!(actions.last(), Some(FormAction::Redraw)));
}

#[test]
fn synced_key_keeps_a_key_that_still_exists() {
    let ts = targets();
    assert_eq!(synced_target_key(&ts, &Some("window:6".to_string()), CaptureSourceKind::Window), Some("window:6".to_string()));
    assert_eq!(synced_target_key(&ts, &Some("window:9".to_string()), CaptureSourceKind::Window), Some("window:5".to_string()));
    assert_eq!(synced_target_key(&ts, &Some("window:6".to_string()), CaptureSourceKind::Display), Some("display:1".to_string()));
    assert_eq!(synced_target_key(&Vec::new(), &None, CaptureSourceKind::Display), None);
}

#[test]
fn choosing_a_target_logs_its_name() {
    let mut f = form();
    let actions = f.choose_target("window:6".to_string(), &targets());
    assert_eq!(f.selected_target_key, Some("window:6".to_string()));
    assert_eq!(logs(&actions), vec!["target: Terminal".to_string()]);
}

#[test]
fn efficient_quality_lowers_resolution_and_frame_rate() {
    let mut f = form();
    f.settings.fps = FrameRate::Fps60;
    f.settings.quality = Quality::High;
    f.settings.resolution = Resolution::R4k;
    let actions = f.choose_quality(&"Efficient".to_string());
    assert_eq!(f.settings.quality, Quality::Efficient);
    assert_eq!(f.settings.resolution, Resolution::R720p);
    assert_eq!(f.settings.fps, FrameRate::Fps30);
    assert_eq!(
        logs(&actions),
        vec!["preset: Efficient".to_string(), "preset limit: Efficient maxes at 720p, 30 fps".to_string()]
    );
    assert!(actions.iter().any(|a| matches!(a, FormAction::SyncCaptureSelects)));
}

#[test]
fn ruled_out_choices_only_reset_the_selects() {
    let mut f = form();
    let actions = f.choose_resolution(&"4K".to_string());
    assert_eq!(f.settings.resolution, Resolution::R1080p);
    assert_eq!(actions.len(), 2);
    assert!(matches!(actions[0], FormAction::SyncCaptureSelects));
    let actions = f.choose_fps(&"60 FPS".to_string());
    assert_eq!(f.settings.fps, FrameRate::Fps30);
    assert_eq!(actions.len(), 2);
    let actions = f.choose_resolution(&"720p".to_string());
    assert_eq!(f.settings.resolution, Resolution::R720p);
    assert_eq!(logs(&actions), vec!["resolution: 720p".to_string()]);
}

#[test]
fn codec_output_and_switches_are_saved() {
    let mut f = form();
    f.choose_codec(&"HEVC".to_string());
    assert_eq!(f.settings.codec, Codec::Hevc);
    let actions = f.enter_output_dir(&"  /data/videos ".to_string());
    assert_eq!(f.settings.output_dir, "/data/videos");
    assert_eq!(logs(&actions), vec!["output dir: /data/videos".to_string()]);
    assert!(f.enter_output_dir(&"   ".to_string()).is_empty());
    assert_eq!(f.settings.output_dir, "/data/videos");
    assert_eq!(logs(&f.set_include_cursor(false)), vec!["cursor: off".to_string()]);
    assert!(!f.settings.include_cursor);
    assert_eq!(logs(&f.set_include_system_audio(true)), vec!["system audio: on".to_string()]);
    assert_eq!(logs(&f.set_hide_wrec(false)), vec!["hide wrec: off".to_string()]);
    assert!(!f.settings.hide_wrec);
}

#[test]
fn hiding_the_detailed_log_leaves_its_tab() {
    let mut f = form();
    f.set_show_nerd_logs(false);
    assert!(!f.show_nerd_logs);
    assert_eq!(f.active_tab, AppTab::Settings);
    f.set_show_nerd_logs(true);
    assert_eq!(f.active_tab, AppTab::Settings);
}

use wrec::settings::{CaptureSourceKind, Codec, FrameRate, Quality, RecorderSettings, Resolution};

fn default_settings() -> RecorderSettings {
    RecorderSettings::with_output_dir("/tmp/Wrec".to_string())
}

#[test]
fn codec_args_match_capture_engine_contract() {
    assert_eq!(Codec::Hevc.as_arg(), "hevc");
    assert_eq!(Codec::H264.as_arg(), "h264");
}

#[test]
fn quality_args_match_capture_engine_contract() {
    assert_eq!(Quality::Efficient.as_arg(), "efficient");
    assert_eq!(Quality::Balanced.as_arg(), "balanced");
    assert_eq!(Quality::High.as_arg(), "high");
}

#[test]
fn resolution_args_match_capture_engine_contract() {
    assert_eq!(Resolution::Native.as_arg(), "native");
    assert_eq!(Resolution::R720p.as_arg(), "720p");
    assert_eq!(Resolution::R1080p.as_arg(), "1080p");
    assert_eq!(Resolution::R2k.as_arg(), "2k");
    assert_eq!(Resolution::R4k.as_arg(), "4k");
}

#[test]
fn default_settings_are_low_overhead() {
    let settings = default_settings();

    assert_eq!(settings.source, CaptureSourceKind::Display);
    assert_eq!(settings.fps, FrameRate::Fps30);
    assert_eq!(settings.codec, Codec::H264);
    assert_eq!(settings.quality, Quality::Balanced);
    assert_eq!(settings.resolution, Resolution::R1080p);
    assert!(settings.include_cursor);
    assert!(settings.include_system_audio);
    assert!(settings.hide_wrec);
}

#[test]
fn preset_limits_cap_expensive_settings() {
    assert_eq!(Quality::Efficient.max_resolution(), Some(Resolution::R720p));
    assert_eq!(Quality::Balanced.max_resolution(), Some(Resolution::R1080p));
    assert_eq!(Quality::High.max_resolution(), None);

    assert_eq!(FrameRate::Fps60.capped_at(FrameRate::Fps30), FrameRate::Fps30);
    assert_eq!(Resolution::Native.capped_at(Resolution::R1080p), Resolution::R1080p);
    assert_eq!(Resolution::R4k.capped_at(Resolution::R720p), Resolution::R720p);
    assert_eq!(Resolution::R720p.capped_at(Resolution::R1080p), Resolution::R720p);
}

#[test]
fn recorder_settings_enforce_preset_limits() {
    let settings = RecorderSettings {
        quality: Quality::Efficient,
        fps: FrameRate::Fps60,
        resolution: Resolution::Native,
        ..default_settings()
    }
    .with_preset_limits();

    assert_eq!(settings.fps, FrameRate::Fps30);
    assert_eq!(settings.resolution, Resolution::R720p);
}

#[test]
fn preset_limits_applied_twice_change_nothing_more() {
    let once = RecorderSettings {
        quality: Quality::Balanced,
        fps: FrameRate::Fps60,
        resolution: Resolution::R4k,
        ..default_settings()
    }
    .with_preset_limits();
    let twice = once.duplicate().with_preset_limits();

    assert_eq!(once.fps, FrameRate::Fps30);
    assert_eq!(once.resolution, Resolution::R1080p);
    assert_eq!(twice.fps, once.fps);
    assert_eq!(twice.resolution, once.resolution);
}

#[test]
fn high_quality_keeps_native_sixty_fps() {
    let settings = RecorderSettings {
        quality: Quality::High,
        fps: FrameRate::Fps60,
        resolution: Resolution::Native,
        ..default_settings()
    }
    .with_preset_limits();

    assert_eq!(settings.fps, FrameRate::Fps60);
    assert_eq!(settings.resolution, Resolution::Native);
    assert_eq!(Quality::High.max_fps(), FrameRate::Fps60);
    assert_eq!(FrameRate::Fps60.as_u32(), 60);
}

use wrec::capture::{silence_plan, SilenceWrite};
use wrec::capture::{
    bgra_to_nv12, encoder_size, even_dimension, frames_from_hns, hns_from_frames, next_session_id_after, pack_pair,
    recording_file_name, scale_bgra_nearest, target_bitrate, MfEncoder,
};
use wrec::settings::{Codec, Quality};

#[test]
fn bgra_to_nv12_small() {
    let w = 4u32;
    let h = 4u32;
    let bgra = vec![128u8; (w * h * 4) as usize];
    let nv12 = bgra_to_nv12(&bgra, w, h, w * 4);
    assert_eq!(nv12.len(), (w * h + (w / 2) * (h / 2) * 2) as usize);
}

#[test]
fn bgra_to_nv12_mid_grey_has_bt601_values() {
    let bgra = vec![128u8; 4 * 4 * 4];
    let nv12 = bgra_to_nv12(&bgra, 4, 4, 16);
    assert!(nv12[..16].iter().all(|&y| y == 126));
    assert!(nv12[16..].iter().all(|&c| c == 128));
}

#[test]
fn bgra_to_nv12_leaves_missing_pixels_zero() {
    let bgra = vec![255u8; 4];
    let nv12 = bgra_to_nv12(&bgra, 2, 2, 8);
    assert_eq!(nv12.len(), 6);
    assert_eq!(nv12[0], 235);
    assert_eq!(&nv12[1..4], &[0, 0, 0]);
    assert_eq!(&nv12[4..], &[128, 128]);
}

#[test]
fn target_bitrate_minimum_is_1_5_mbps() {
    let rate = MfEncoder::target_bitrate(320, 240, 10, Quality::Efficient, Codec::Hevc);
    assert!(rate >= 1_500_000);
}

#[test]
fn encoder_target_bitrate_exact_values() {
    assert_eq!(MfEncoder::target_bitrate(320, 240, 10, Quality::Efficient, Codec::Hevc), 1_500_000);
    assert_eq!(MfEncoder::target_bitrate(1920, 1080, 30, Quality::High, Codec::Hevc), 6_531_840);
    assert_eq!(MfEncoder::target_bitrate(1920, 1080, 30, Quality::Balanced, Codec::H264), 5_878_656);
}

#[test]
fn encoder_size_scales_down_to_requested_maximum() {
    assert_eq!(encoder_size(3840, 2160, "1080p"), (1920, 1080));
    assert_eq!(encoder_size(3025, 1965, "720p"), (1108, 720));
    assert_eq!(encoder_size(1280, 720, "4k"), (1280, 720));
    assert_eq!(encoder_size(3025, 1965, "native"), (3024, 1964));
}

#[test]
fn even_dimensions_are_at_least_two() {
    assert_eq!(even_dimension(0), 2);
    assert_eq!(even_dimension(1), 2);
    assert_eq!(even_dimension(7), 6);
    assert_eq!(even_dimension(8), 8);
}

#[test]
fn scale_bgra_nearest_picks_source_pixels_by_ratio() {
    let source = [
        1, 0, 0, 255, 2, 0, 0, 255, 3, 0, 0, 255, 4, 0, 0, 255, 5, 0, 0, 255, 6, 0, 0, 255, 7, 0, 0, 255, 8, 0, 0,
        255, 9, 0, 0, 255, 10, 0, 0, 255, 11, 0, 0, 255, 12, 0, 0, 255, 13, 0, 0, 255, 14, 0, 0, 255, 15, 0, 0, 255,
        16, 0, 0, 255,
    ];
    let mut output = Vec::new();

    scale_bgra_nearest(&source, 4, 4, 2, 2, &mut output);

    assert_eq!(output, vec![1, 0, 0, 255, 3, 0, 0, 255, 9, 0, 0, 255, 11, 0, 0, 255]);
}

#[test]
fn efficient_bitrate_is_lower_than_high() {
    assert!(target_bitrate(1920, 1080, 30, "efficient", "hevc") < target_bitrate(1920, 1080, 30, "high", "hevc"));
}

#[test]
fn named_bitrate_exact_values() {
    assert_eq!(target_bitrate(1920, 1080, 30, "high", "hevc"), 6_531_840);
    assert_eq!(target_bitrate(1920, 1080, 30, "efficient", "hevc"), 2_799_360);
    assert_eq!(target_bitrate(1920, 1080, 30, "balanced", "h264"), 5_878_656);
    assert_eq!(target_bitrate(16, 16, 1, "balanced", "hevc"), 1_500_000);
}

#[test]
fn audio_time_conversions_truncate() {
    assert_eq!(hns_from_frames(48_000, 48_000), 10_000_000);
    assert_eq!(hns_from_frames(1, 3), 3_333_333);
    assert_eq!(hns_from_frames(5, 0), 0);
    assert_eq!(frames_from_hns(10_000_000, 48_000), 48_000);
    assert_eq!(frames_from_hns(-5, 48_000), 0);
}

#[test]
fn media_attributes_pack_high_then_low() {
    assert_eq!(pack_pair(1920, 1080), (1920u64 << 32) | 1080);
    assert_eq!(pack_pair(30, 1), 0x1e_0000_0001);
}

#[test]
fn session_ids_keep_increasing() {
    assert_eq!(next_session_id_after(100, 5), 100);
    assert_eq!(next_session_id_after(100, 100), 101);
    assert_eq!(next_session_id_after(0, u64::MAX), u64::MAX);
    assert_eq!(recording_file_name(42), "wrec-42.mp4");
}

#[test]
fn silence_fills_the_audio_gap_in_chunks() {

    assert!(silence_plan(500, 500, 48_000, 2).is_empty());
    assert!(silence_plan(600, 500, 48_000, 2).is_empty());

    let plan = silence_plan(0, 450_000, 48_000, 2);
    assert_eq!(
        plan,
        vec![
            SilenceWrite { timestamp: 0, duration: 200_000, bytes: 3_840 },
            SilenceWrite { timestamp: 200_000, duration: 200_000, bytes: 3_840 },
            SilenceWrite { timestamp: 400_000, duration: 50_000, bytes: 960 },
        ]
    );

    let tiny = silence_plan(0, 1, 48_000, 1);
    assert_eq!(tiny, vec![SilenceWrite { timestamp: 0, duration: 208, bytes: 2 }]);
}

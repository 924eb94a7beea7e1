use mediacodec::{has_interior_nul, ColorFormat, MediaFormat, MediaStatus};

#[test]
fn color_format_from_known_codes() {
    assert_eq!(ColorFormat::from_i32(19), ColorFormat::Yuv420Planar);
    assert_eq!(ColorFormat::from_i32(21), ColorFormat::Yuv420SemiPlanar);
    assert_eq!(ColorFormat::from_i32(2135033992), ColorFormat::Yuv420Flexible);
    assert_eq!(ColorFormat::from_i32(2141391872), ColorFormat::Yuv420PackedPlanar);
    assert_eq!(ColorFormat::from_i32(2141391876), ColorFormat::Yuv420SemiPlanarVendorA);
    assert_eq!(ColorFormat::from_i32(2141391878), ColorFormat::Yuv420FlexibleVendorA);
    assert_eq!(ColorFormat::from_i32(2130708361), ColorFormat::Yuv420SemiPlanarVendorA);
    assert_eq!(ColorFormat::from_i32(2130706688), ColorFormat::Yuv420PackedPlanar);
    assert_eq!(ColorFormat::from_i32(2130706944), ColorFormat::TiYuv420PackedSemiPlanar);
    assert_eq!(ColorFormat::from_i32(54), ColorFormat::P010);
}

#[test]
fn color_format_unknown_codes_are_kept() {
    assert_eq!(ColorFormat::from_i32(0), ColorFormat::Unknown(0));
    assert_eq!(ColorFormat::from_i32(20), ColorFormat::Unknown(20));
    assert_eq!(ColorFormat::from_i32(-19), ColorFormat::Unknown(-19));
    assert_eq!(ColorFormat::from_i32(i32::MIN), ColorFormat::Unknown(i32::MIN));
    assert_eq!(ColorFormat::Unknown(7).raw(), 7);
}

#[test]
fn color_format_raw_values() {
    assert_eq!(ColorFormat::Yuv420Planar.raw(), 19);
    assert_eq!(ColorFormat::Yuv420SemiPlanar.raw(), 21);
    assert_eq!(ColorFormat::Yuv420Flexible.raw(), 2135033992);
    assert_eq!(ColorFormat::Yuv420PackedPlanar.raw(), 2141391872);
    assert_eq!(ColorFormat::Yuv420SemiPlanarVendorA.raw(), 2141391876);
    assert_eq!(ColorFormat::Yuv420FlexibleVendorA.raw(), 2141391878);
    assert_eq!(ColorFormat::Yuv420FlexibleVendorB.raw(), 2130708361);
    assert_eq!(ColorFormat::TiYuv420PackedSemiPlanar.raw(), 2130706944);
    assert_eq!(ColorFormat::P010.raw(), 54);
}

#[test]
fn color_code_round_trip_except_aliases() {
    for v in [19, 21, 54, 0, -1, 2135033992, 2141391872, 2141391876, 2141391878, 2130706944, 77] {
        assert_eq!(ColorFormat::from_i32(v).raw(), v);
    }
    assert_eq!(ColorFormat::from_i32(2130706688).raw(), 2141391872);
    assert_eq!(ColorFormat::from_i32(2130708361).raw(), 2141391876);
}

#[test]
fn color_format_round_trip_except_vendor_b() {
    for c in [
        ColorFormat::Yuv420Planar,
        ColorFormat::Yuv420SemiPlanar,
        ColorFormat::Yuv420Flexible,
        ColorFormat::Yuv420PackedPlanar,
        ColorFormat::Yuv420SemiPlanarVendorA,
        ColorFormat::Yuv420FlexibleVendorA,
        ColorFormat::TiYuv420PackedSemiPlanar,
        ColorFormat::P010,
        ColorFormat::Unknown(5),
    ] {
        assert_eq!(ColorFormat::from_i32(c.raw()), c);
    }
    assert_eq!(
        ColorFormat::from_i32(ColorFormat::Yuv420FlexibleVendorB.raw()),
        ColorFormat::Yuv420SemiPlanarVendorA
    );
    assert_eq!(ColorFormat::from_i32(ColorFormat::Unknown(19).raw()), ColorFormat::Yuv420Planar);
}

#[test]
fn media_format_color_format() {
    assert_eq!(MediaFormat::color_format(None), None);
    assert_eq!(MediaFormat::color_format(Some(21)), Some(ColorFormat::Yuv420SemiPlanar));
    assert_eq!(MediaFormat::color_format(Some(3)), Some(ColorFormat::Unknown(3)));
}

#[test]
fn media_format_audio_and_video() {
    assert!(MediaFormat::is_audio(Some("audio/mp4a-latm")));
    assert!(MediaFormat::is_audio(Some("audio/")));
    assert!(!MediaFormat::is_audio(Some("video/avc")));
    assert!(!MediaFormat::is_audio(Some("audio")));
    assert!(!MediaFormat::is_audio(Some("AUDIO/raw")));
    assert!(!MediaFormat::is_audio(Some(" audio/raw")));
    assert!(!MediaFormat::is_audio(Some("")));
    assert!(!MediaFormat::is_audio(None));
    assert!(MediaFormat::is_video(Some("video/avc")));
    assert!(MediaFormat::is_video(Some("video/hevc")));
    assert!(!MediaFormat::is_video(Some("audio/opus")));
    assert!(!MediaFormat::is_video(Some("vidéo/avc")));
    assert!(!MediaFormat::is_video(None));
}

#[test]
fn media_format_never_both_audio_and_video() {
    for m in ["audio/x", "video/x", "audio/video/", "", "text/vtt", "video/audio/"] {
        assert!(!(MediaFormat::is_audio(Some(m)) && MediaFormat::is_video(Some(m))));
    }
}

#[test]
fn media_format_new_refuses_null_handle() {
    assert!(matches!(MediaFormat::new(0), Err(MediaStatus::ErrorUnknown)));
    let f = MediaFormat::new(0x7000).unwrap();
    assert_eq!(f.handle(), 0x7000);
    assert_eq!(MediaFormat::from_raw(0x8000).handle(), 0x8000);
}

#[test]
fn interior_nul_detection() {
    assert!(has_interior_nul("mime\0"));
    assert!(has_interior_nul("\0"));
    assert!(has_interior_nul("a\0b"));
    assert!(!has_interior_nul("color-format"));
    assert!(!has_interior_nul(""));
    assert!(!has_interior_nul("héllo"));
}

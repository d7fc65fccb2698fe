use v210gl::bins::{bin_color_properties, caps_event_update, color_properties, PropertyKind};
use v210gl::caps::CapsStructure;
use v210gl::color::{full_range_from_colorimetry, matrix_from_colorimetry, Matrix};
use v210gl::mxl::{MxlColorimetry, MxlVideoBackend};
use v210gl::properties::{get_color_property, set_color_property, ColorPropertyValue, ColorSettings};

#[test]
fn matrix_names_roundtrip() {
    for m in [Matrix::Bt601, Matrix::Bt709, Matrix::Bt2020] {
        assert_eq!(Matrix::parse(m.as_str()), m);
    }
    assert_eq!(Matrix::parse("auto"), Matrix::Bt709);
    assert_eq!(Matrix::parse("BT601"), Matrix::Bt709);
    assert_eq!(Matrix::default(), Matrix::Bt709);
}

#[test]
fn colorimetry_guesses() {
    assert_eq!(matrix_from_colorimetry("bt601"), Matrix::Bt601);
    assert_eq!(matrix_from_colorimetry("SMPTE170M"), Matrix::Bt601);
    assert_eq!(matrix_from_colorimetry("1:4:7:1"), Matrix::Bt709);
    assert_eq!(matrix_from_colorimetry("bt2100-pq"), Matrix::Bt2020);
    assert_eq!(matrix_from_colorimetry("BT2020"), Matrix::Bt2020);
    assert_eq!(matrix_from_colorimetry("bt709"), Matrix::Bt709);
    assert_eq!(matrix_from_colorimetry(""), Matrix::Bt709);
    assert!(full_range_from_colorimetry("1:4:0:0"));
    assert!(full_range_from_colorimetry("sRGB-FULL"));
    assert!(!full_range_from_colorimetry("2:4:5:4"));
    assert!(!full_range_from_colorimetry("bt709"));
}

#[test]
fn mxl_names_roundtrip() {
    for b in [MxlVideoBackend::Auto, MxlVideoBackend::Gpu, MxlVideoBackend::Cpu] {
        assert_eq!(MxlVideoBackend::parse(b.as_str()), b);
    }
    for c in [MxlColorimetry::Auto, MxlColorimetry::Bt601, MxlColorimetry::Bt709, MxlColorimetry::Bt2020] {
        assert_eq!(MxlColorimetry::parse(c.as_str()), c);
    }
    assert_eq!(MxlColorimetry::parse("nope"), MxlColorimetry::Auto);
    assert_eq!(MxlVideoBackend::default(), MxlVideoBackend::Auto);
    assert_eq!(MxlColorimetry::default(), MxlColorimetry::Auto);
}

#[test]
fn settings_override_by_name() {
    let mut s = ColorSettings::default();
    assert!(s.override_is_auto());
    assert_eq!(s.override_string(), "auto");
    s.set_override_from_string("bt2020");
    assert_eq!(s.matrix(), Matrix::Bt2020);
    assert_eq!(s.override_string(), "bt2020");
    s.set_override_from_string("bt601");
    assert_eq!(s.matrix(), Matrix::Bt601);
    s.set_override_from_string("bt709");
    assert_eq!(s.matrix(), Matrix::Bt709);
    assert!(!s.override_is_auto());
    s.set_override_from_string("weird");
    assert_eq!(s.override_string(), "auto");
    s.video_width = -5;
    s.video_height = 720;
    assert_eq!(s.video_size(), (0, 720));
}

#[test]
fn property_read_after_write() {
    let mut s = ColorSettings::default();
    set_color_property(&mut s, "colorimetry-override", &ColorPropertyValue::Text(Some("bt601".to_string())));
    match get_color_property(&s, "colorimetry-override") {
        ColorPropertyValue::Text(Some(t)) => assert_eq!(t, "bt601"),
        other => panic!("unexpected {other:?}"),
    }
    set_color_property(&mut s, "colorimetry-override", &ColorPropertyValue::Text(None));
    assert!(s.override_is_auto());
    set_color_property(&mut s, "full-range", &ColorPropertyValue::Flag(true));
    assert!(s.full_range());
    set_color_property(&mut s, "video-width", &ColorPropertyValue::Int(1920));
    set_color_property(&mut s, "video-height", &ColorPropertyValue::Int(1080));
    assert!(matches!(get_color_property(&s, "video-width"), ColorPropertyValue::Int(1920)));
    assert!(matches!(get_color_property(&s, "video-height"), ColorPropertyValue::Int(1080)));
    // A value of the wrong kind, or an unknown name, changes nothing.
    set_color_property(&mut s, "full-range", &ColorPropertyValue::Int(0));
    assert!(s.full_range());
    set_color_property(&mut s, "nope", &ColorPropertyValue::Flag(false));
    assert!(s.full_range());
    match get_color_property(&s, "nope") {
        ColorPropertyValue::Text(Some(t)) => assert_eq!(t, ""),
        other => panic!("unexpected {other:?}"),
    }
}

#[test]
fn property_lists() {
    let all = color_properties();
    let names: Vec<&str> = all.iter().map(|p| p.name).collect();
    assert_eq!(names, ["colorimetry-override", "full-range", "video-width", "video-height"]);
    assert_eq!(all[1].kind, PropertyKind::Flag { default: false });
    let bin = bin_color_properties();
    let names: Vec<&str> = bin.iter().map(|p| p.name).collect();
    assert_eq!(names, ["colorimetry-override", "full-range"]);
}

#[test]
fn caps_event_guesses_colour_only_when_auto() {
    let s = CapsStructure {
        name: "video/x-raw".to_string(),
        format: Some("v210".to_string()),
        width: Some(1920),
        height: Some(1080),
        framerate: None,
        pixel_aspect_ratio: None,
        colorimetry: Some("bt601".to_string()),
        interlace_mode: None,
        original_width: None,
    };
    let u = caps_event_update(&s, true);
    assert_eq!(u.video_width, Some(1920));
    assert_eq!(u.video_height, Some(1080));
    assert_eq!(u.colorimetry, Some((Matrix::Bt601, false)));
    assert_eq!(caps_event_update(&s, false).colorimetry, None);
}

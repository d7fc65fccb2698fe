use v210gl::caps::{
    original_width_from_caps, rewrite_proxy_to_v210, rewrite_v210_to_proxy, unit_size,
    v210_caps, CapsStructure, Fraction, VideoCaps,
};
use v210gl::pack::transform_internal_caps;
use v210gl::properties::ColorSettings;
use v210gl::proxy::{CapsError, CapsTransform, PadDirection, V210GlProxy, V210GlUnproxy};

fn raw(format: &str) -> CapsStructure {
    CapsStructure {
        name: "video/x-raw".to_string(),
        format: Some(format.to_string()),
        width: None,
        height: None,
        framerate: None,
        pixel_aspect_ratio: None,
        colorimetry: None,
        interlace_mode: None,
        original_width: None,
    }
}

fn caps(s: CapsStructure) -> VideoCaps {
    VideoCaps { gl_memory: false, structure: Some(s) }
}

#[test]
fn proxy_rewrite_keeps_original_width() {
    let mut s = raw("v210");
    s.width = Some(1920);
    s.height = Some(1080);
    s.interlace_mode = Some("progressive".to_string());
    let out = rewrite_v210_to_proxy(&caps(s)).unwrap();
    let s = out.structure.unwrap();
    assert_eq!(s.format.as_deref(), Some("RGB10A2_LE"));
    assert_eq!(s.width, Some(1280));
    assert_eq!(s.original_width, Some(1920));
    assert_eq!(s.height, Some(1080));
}

#[test]
fn interlaced_v210_is_rejected() {
    let mut s = raw("v210");
    s.width = Some(1920);
    s.height = Some(1080);
    s.interlace_mode = Some("interleaved".to_string());
    assert!(rewrite_v210_to_proxy(&caps(s)).is_none());
}

#[test]
fn unproxy_uses_original_width_field() {
    let mut s = raw("RGB10A2_LE");
    s.width = Some(1280);
    s.height = Some(1080);
    s.original_width = Some(1920);
    let out = rewrite_proxy_to_v210(&caps(s), None).unwrap();
    let s = out.structure.unwrap();
    assert_eq!(s.format.as_deref(), Some("v210"));
    assert_eq!(s.width, Some(1920));
}

#[test]
fn upload_rejects_interlaced_template() {
    let c = v210_caps();
    let s = c.structure.unwrap();
    assert_eq!(s.format.as_deref(), Some("v210"));
    assert_eq!(s.interlace_mode.as_deref(), Some("progressive"));
}

#[test]
fn rewrite_copies_video_fields_and_refuses_other_formats() {
    let mut s = raw("v210");
    s.width = Some(50);
    s.framerate = Some(Fraction { numer: 25, denom: 1 });
    s.pixel_aspect_ratio = Some(Fraction { numer: 1, denom: 1 });
    s.colorimetry = Some("bt709".to_string());
    let out = rewrite_v210_to_proxy(&caps(s.clone())).unwrap().structure.unwrap();
    assert_eq!(out.width, Some(64));
    assert_eq!(out.framerate, Some(Fraction { numer: 25, denom: 1 }));
    assert_eq!(out.colorimetry.as_deref(), Some("bt709"));
    assert_eq!(out.interlace_mode.as_deref(), Some("progressive"));
    let mut no_width = s.clone();
    no_width.width = None;
    assert!(rewrite_v210_to_proxy(&caps(no_width)).is_none());
    let mut other = s.clone();
    other.format = Some("NV12".to_string());
    assert!(rewrite_v210_to_proxy(&caps(other)).is_none());
    let mut audio = s;
    audio.name = "audio/x-raw".to_string();
    assert!(rewrite_v210_to_proxy(&caps(audio)).is_none());
    assert!(rewrite_v210_to_proxy(&VideoCaps { gl_memory: false, structure: None }).is_none());
}

#[test]
fn proxy_to_v210_width_fallbacks() {
    let mut s = raw("RGB10A2_LE");
    s.width = Some(1280);
    // Handed width wins over the caps field.
    s.original_width = Some(1000);
    let out = rewrite_proxy_to_v210(&caps(s.clone()), Some(1920)).unwrap().structure.unwrap();
    assert_eq!(out.width, Some(1920));
    // No original width anywhere: the caps width stays.
    s.original_width = Some(-3);
    let out = rewrite_proxy_to_v210(&caps(s.clone()), None).unwrap().structure.unwrap();
    assert_eq!(out.width, Some(1280));
    assert_eq!(out.original_width, None);
    s.format = Some("v210".to_string());
    assert!(rewrite_proxy_to_v210(&caps(s), None).is_none());
}

#[test]
fn original_width_only_when_positive() {
    let mut s = raw("RGB10A2_LE");
    assert_eq!(original_width_from_caps(&caps(s.clone())), None);
    s.original_width = Some(0);
    assert_eq!(original_width_from_caps(&caps(s.clone())), None);
    s.original_width = Some(720);
    assert_eq!(original_width_from_caps(&caps(s)), Some(720));
}

#[test]
fn unit_sizes_match_across_the_proxy() {
    let mut s = raw("v210");
    s.width = Some(1920);
    s.height = Some(1080);
    let v = caps(s);
    let p = rewrite_v210_to_proxy(&v).unwrap();
    assert_eq!(unit_size(&v), Some(5120 * 1080));
    assert_eq!(unit_size(&p), Some(5120 * 1080));
    let mut missing = raw("v210");
    missing.width = Some(10);
    assert_eq!(unit_size(&caps(missing)), None);
}

#[test]
fn proxy_element_remembers_width_and_rejects_interlaced() {
    let mut proxy = V210GlProxy::new();
    let mut s = raw("v210");
    s.width = Some(720);
    s.height = Some(576);
    match proxy.transform_caps(PadDirection::Sink, &caps(s.clone())) {
        CapsTransform::Rewritten(c) => assert_eq!(c.structure.unwrap().width, Some(480)),
        other => panic!("unexpected {other:?}"),
    }
    assert_eq!(proxy.original_width(), 720);
    let mut p = raw("RGB10A2_LE");
    p.width = Some(480);
    match proxy.transform_caps(PadDirection::Src, &caps(p)) {
        CapsTransform::Rewritten(c) => assert_eq!(c.structure.unwrap().width, Some(720)),
        other => panic!("unexpected {other:?}"),
    }
    assert!(matches!(proxy.transform_caps(PadDirection::Unknown, &caps(s.clone())), CapsTransform::Same));
    let mut interlaced = s.clone();
    interlaced.interlace_mode = Some("mixed".to_string());
    match proxy.set_caps(&caps(interlaced)) {
        Err(CapsError::Interlaced(m)) => assert_eq!(m, "mixed"),
        other => panic!("unexpected {other:?}"),
    }
    s.width = Some(1280);
    assert!(proxy.set_caps(&caps(s)).is_ok());
    assert_eq!(proxy.original_width(), 1280);
}

#[test]
fn unproxy_falls_back_to_sibling_width() {
    let mut unproxy = V210GlUnproxy::new();
    let mut p = raw("RGB10A2_LE");
    p.width = Some(1280);
    match unproxy.transform_caps(PadDirection::Sink, &caps(p.clone()), Some(1920)) {
        CapsTransform::Rewritten(c) => assert_eq!(c.structure.unwrap().width, Some(1920)),
        other => panic!("unexpected {other:?}"),
    }
    assert_eq!(unproxy.original_width, 1920);
    let mut fresh = V210GlUnproxy::new();
    assert!(matches!(fresh.transform_caps(PadDirection::Sink, &caps(p), Some(0)), CapsTransform::Rewritten(_)));
    assert_eq!(fresh.original_width, 0);
}

#[test]
fn pack_negotiates_proxy_width() {
    let mut settings = ColorSettings::default();
    let mut s = raw("RGBA");
    s.width = Some(1920);
    s.height = Some(1080);
    let out = transform_internal_caps(&mut settings, PadDirection::Sink, &VideoCaps {
        gl_memory: true,
        structure: Some(s),
    })
    .unwrap();
    let st = out.structure.unwrap();
    assert!(out.gl_memory);
    assert_eq!(st.format.as_deref(), Some("RGB10A2_LE"));
    assert_eq!(st.width, Some(1280));
    assert_eq!(st.original_width, Some(1920));
    assert_eq!(settings.video_width, 1920);
    settings.video_height = 1080;
    let back = transform_internal_caps(&mut settings, PadDirection::Src, &VideoCaps {
        gl_memory: true,
        structure: Some(raw("RGB10A2_LE")),
    })
    .unwrap()
    .structure
    .unwrap();
    assert_eq!(back.format.as_deref(), Some("RGBA"));
    assert_eq!(back.width, Some(1920));
    assert_eq!(back.height, Some(1080));
    assert!(transform_internal_caps(&mut settings, PadDirection::Sink, &VideoCaps {
        gl_memory: true,
        structure: None,
    })
    .is_none());
}

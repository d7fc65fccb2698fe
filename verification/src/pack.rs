//! Caps negotiation of the `v210glpack` GL filter: RGBA GLMemory of the real
//! size in, an `RGB10A2_LE` GLMemory proxy texture out.
use vstd::prelude::*;
use crate::caps::{
    copy_video_fields, duplicate_caps, raw_template, rgb10a2_gl_caps, rgba_gl_caps,
    spec_copy_video_fields, CapsModel, VideoCaps,
};
use crate::properties::{non_negative, ColorSettings};
use crate::proxy::PadDirection;
use crate::v210::{proxy_width, spec_proxy_width};

verus! {

/// The width the pack filter works from on the sink side: the caps' width,
/// else the configured width.
pub open spec fn spec_pack_sink_width(s: crate::caps::StructureModel, configured: u32) -> i32 {
    match s.width {
        Some(w) => w,
        None => configured as i32,
    }
}

/// The caps on the other side of the pack filter, and the settings after.
///
/// Sink side (RGBA in): `RGB10A2_LE` GL caps with the video fields copied;
/// when the width (from the caps, else the configured width) is positive it
/// becomes the configured width, the proxy width is written and the real
/// width kept as `original-width`; a positive configured height is written.
/// Src side (proxy out): RGBA GL caps with the video fields copied and the
/// positive configured width and height written. Unknown direction: the caps
/// unchanged. Caps without a structure give `None`.
pub open spec fn spec_pack_internal_caps(settings: ColorSettings, direction: PadDirection, caps: CapsModel) -> (Option<CapsModel>, ColorSettings) {
    let ow = non_negative(settings.video_width);
    let oh = non_negative(settings.video_height);
    match caps.structure {
        None => (None, settings),
        Some(s) => match direction {
            PadDirection::Sink => {
                let t = spec_copy_video_fields(s, raw_template("RGB10A2_LE"@, true)).structure->0;
                let w = spec_pack_sink_width(s, ow);
                (
                    Some(
                        CapsModel {
                            gl_memory: true,
                            structure: Some(
                                crate::caps::StructureModel {
                                    width: if w > 0 {
                                        Some(spec_proxy_width(w as u32 as int) as i32)
                                    } else {
                                        t.width
                                    },
                                    original_width: if w > 0 {
                                        Some(w)
                                    } else {
                                        t.original_width
                                    },
                                    height: if oh > 0 {
                                        Some(oh as i32)
                                    } else {
                                        t.height
                                    },
                                    format: Some("RGB10A2_LE"@),
                                    ..t
                                },
                            ),
                        },
                    ),
                    if w > 0 {
                        ColorSettings { video_width: w, ..settings }
                    } else {
                        settings
                    },
                )
            },
            PadDirection::Src => {
                let t = spec_copy_video_fields(s, raw_template("RGBA"@, true)).structure->0;
                (
                    Some(
                        CapsModel {
                            gl_memory: true,
                            structure: Some(
                                crate::caps::StructureModel {
                                    width: if ow > 0 {
                                        Some(ow as i32)
                                    } else {
                                        t.width
                                    },
                                    height: if oh > 0 {
                                        Some(oh as i32)
                                    } else {
                                        t.height
                                    },
                                    format: Some("RGBA"@),
                                    ..t
                                },
                            ),
                        },
                    ),
                    settings,
                )
            },
            PadDirection::Unknown => (Some(caps), settings),
        },
    }
}

/// The caps on the other side of the pack filter (before any filter caps are
/// intersected), updating the configured width from sink caps.
pub fn transform_internal_caps(settings: &mut ColorSettings, direction: PadDirection, caps: &VideoCaps) -> (r: Option<VideoCaps>)
    ensures
        ({
            let (c, st) = spec_pack_internal_caps(*old(settings), direction, caps@);
            &&& match r {
                Some(v) => c == Some(v@),
                None => c is None,
            }
            &&& *final(settings) == st
        }),
{
    let s = match &caps.structure {
        Some(s) => s,
        None => return None,
    };
    let (ow, oh) = settings.video_size();
    match direction {
        PadDirection::Sink => {
            let mut c = copy_video_fields(s, rgb10a2_gl_caps());
            let w = match s.width {
                Some(w) => w,
                None => ow as i32,
            };
            match c.structure {
                Some(ref mut st) => {
                    if w > 0 {
                        settings.video_width = w;
                        st.width = Some(
                            #[verifier::truncate] (proxy_width(#[verifier::truncate] (w as u32)) as i32),
                        );
                        st.original_width = Some(w);
                    }
                    if oh > 0 {
                        st.height = Some(oh as i32);
                    }
                    st.format = Some("RGB10A2_LE".to_owned());
                },
                None => {},
            }
            Some(c)
        },
        PadDirection::Src => {
            let mut c = copy_video_fields(s, rgba_gl_caps());
            match c.structure {
                Some(ref mut st) => {
                    if ow > 0 {
                        st.width = Some(ow as i32);
                    }
                    if oh > 0 {
                        st.height = Some(oh as i32);
                    }
                    st.format = Some("RGBA".to_owned());
                },
                None => {},
            }
            Some(c)
        },
        PadDirection::Unknown => Some(duplicate_caps(caps)),
    }
}

/// What the pack filter negotiates, in terms of the configured size:
///
/// - src side (proxy caps in, RGBA out): RGBA GLMemory caps whose width is the
///   configured width whenever that is positive, whatever width the proxy caps
///   carry (else the incoming width), and whose height is the configured
///   height whenever that is positive (else the incoming height); the
///   settings are unchanged;
/// - sink side (RGBA in, proxy out): `RGB10A2_LE` GLMemory caps; when the
///   incoming width is positive, the output width is its proxy width, the
///   real width is kept as `original-width` and becomes the configured width,
///   and the configured height, when positive, is the output height.
pub proof fn lemma_pack_caps_follow_configured_size(settings: ColorSettings, caps: CapsModel)
    requires
        caps.structure is Some,
    ensures
        ({
            let (c, st) = spec_pack_internal_caps(settings, PadDirection::Src, caps);
            let input = caps.structure->0;
            &&& c is Some && c->0.gl_memory && c->0.structure is Some
            &&& c->0.structure->0.format == Some("RGBA"@)
            &&& settings.video_width > 0 ==> c->0.structure->0.width == Some(settings.video_width)
            &&& settings.video_width <= 0 ==> c->0.structure->0.width == input.width
            &&& settings.video_height > 0 ==> c->0.structure->0.height == Some(
                settings.video_height,
            )
            &&& settings.video_height <= 0 ==> c->0.structure->0.height == input.height
            &&& st == settings
        }),
        ({
            let (c, st) = spec_pack_internal_caps(settings, PadDirection::Sink, caps);
            let input = caps.structure->0;
            &&& c is Some && c->0.gl_memory && c->0.structure is Some
            &&& c->0.structure->0.format == Some("RGB10A2_LE"@)
            &&& (input.width matches Some(w) && w > 0) ==> {
                &&& c->0.structure->0.width == Some(spec_proxy_width(input.width->0 as int) as i32)
                &&& c->0.structure->0.original_width == input.width
                &&& st.video_width == input.width->0
            }
            &&& settings.video_height > 0 ==> c->0.structure->0.height == Some(
                settings.video_height,
            )
            &&& st.override_idx == settings.override_idx
            &&& st.full_range == settings.full_range
            &&& st.video_height == settings.video_height
        }),
{
}

} // verus!

//! Caps rewriting for the v210 ↔ RGB10A2 proxy: the same bytes read as a
//! v210 image of the real width or as an `RGB10A2_LE` image of proxy width.
use vstd::prelude::*;
use crate::text::str_eq;
use crate::v210::{lemma_proxy_bytes_match_stride, frame_size, proxy_width, spec_frame_size, spec_proxy_width, spec_stride};

verus! {

/// A fraction such as a framerate or a pixel aspect ratio.
#[derive(Debug, Clone, Copy, PartialEq, Eq, Structural)]
pub struct Fraction {
    pub numer: i32,
    pub denom: i32,
}

/// The fields of a caps structure that the v210 elements read or write. A
/// field is `None` when the structure lacks it or holds something other than
/// a single value of its type there (a range or a list).
#[derive(Debug, Clone)]
pub struct CapsStructure {
    pub name: String,
    pub format: Option<String>,
    pub width: Option<i32>,
    pub height: Option<i32>,
    pub framerate: Option<Fraction>,
    pub pixel_aspect_ratio: Option<Fraction>,
    pub colorimetry: Option<String>,
    pub interlace_mode: Option<String>,
    pub original_width: Option<i32>,
}

/// Caps as far as the v210 elements read them: their first structure, if
/// any, and whether they carry the `memory:GLMemory` feature.
#[derive(Debug, Clone)]
pub struct VideoCaps {
    pub gl_memory: bool,
    pub structure: Option<CapsStructure>,
}

/// The mathematical content of a [`CapsStructure`].
pub struct StructureModel {
    pub name: Seq<char>,
    pub format: Option<Seq<char>>,
    pub width: Option<i32>,
    pub height: Option<i32>,
    pub framerate: Option<Fraction>,
    pub pixel_aspect_ratio: Option<Fraction>,
    pub colorimetry: Option<Seq<char>>,
    pub interlace_mode: Option<Seq<char>>,
    pub original_width: Option<i32>,
}

/// The mathematical content of a [`VideoCaps`].
pub struct CapsModel {
    pub gl_memory: bool,
    pub structure: Option<StructureModel>,
}

/// The content of an optional text.
pub open spec fn opt_text(o: Option<String>) -> Option<Seq<char>> {
    match o {
        Some(s) => Some(s@),
        None => None,
    }
}

impl View for CapsStructure {
    type V = StructureModel;

    open spec fn view(&self) -> StructureModel {
        StructureModel {
            name: self.name@,
            format: opt_text(self.format),
            width: self.width,
            height: self.height,
            framerate: self.framerate,
            pixel_aspect_ratio: self.pixel_aspect_ratio,
            colorimetry: opt_text(self.colorimetry),
            interlace_mode: opt_text(self.interlace_mode),
            original_width: self.original_width,
        }
    }
}

impl View for VideoCaps {
    type V = CapsModel;

    open spec fn view(&self) -> CapsModel {
        CapsModel {
            gl_memory: self.gl_memory,
            structure: match self.structure {
                Some(s) => Some(s@),
                None => None,
            },
        }
    }
}

/// Raw video caps of one format, progressive, with no other field.
pub open spec fn raw_template(format: Seq<char>, gl_memory: bool) -> CapsModel {
    CapsModel {
        gl_memory,
        structure: Some(
            StructureModel {
                name: "video/x-raw"@,
                format: Some(format),
                width: None,
                height: None,
                framerate: None,
                pixel_aspect_ratio: None,
                colorimetry: None,
                interlace_mode: Some("progressive"@),
                original_width: None,
            },
        ),
    }
}

fn raw_caps(format: &str, gl_memory: bool) -> (r: VideoCaps)
    ensures
        r@ == raw_template(format@, gl_memory),
{
    VideoCaps {
        gl_memory,
        structure: Some(
            CapsStructure {
                name: "video/x-raw".to_owned(),
                format: Some(format.to_owned()),
                width: None,
                height: None,
                framerate: None,
                pixel_aspect_ratio: None,
                colorimetry: None,
                interlace_mode: Some("progressive".to_owned()),
                original_width: None,
            },
        ),
    }
}

pub fn v210_caps() -> (r: VideoCaps)
    ensures
        r@ == raw_template("v210"@, false),
{
    raw_caps("v210", false)
}

pub fn rgb10a2_caps() -> (r: VideoCaps)
    ensures
        r@ == raw_template("RGB10A2_LE"@, false),
{
    raw_caps("RGB10A2_LE", false)
}

pub fn rgba_gl_caps() -> (r: VideoCaps)
    ensures
        r@ == raw_template("RGBA"@, true),
{
    raw_caps("RGBA", true)
}

pub fn rgb10a2_gl_caps() -> (r: VideoCaps)
    ensures
        r@ == raw_template("RGB10A2_LE"@, true),
{
    raw_caps("RGB10A2_LE", true)
}

/// The value of a field after copying: the source's where it has one, else
/// the template's.
pub open spec fn copied<T>(from: Option<T>, into: Option<T>) -> Option<T> {
    match from {
        Some(v) => Some(v),
        None => into,
    }
}

/// The template with width, height, framerate, pixel aspect ratio and
/// colorimetry taken from `from` wherever `from` has them.
pub open spec fn spec_copy_video_fields(from: StructureModel, template: CapsModel) -> CapsModel {
    match template.structure {
        Some(t) => CapsModel {
            gl_memory: template.gl_memory,
            structure: Some(
                StructureModel {
                    width: copied(from.width, t.width),
                    height: copied(from.height, t.height),
                    framerate: copied(from.framerate, t.framerate),
                    pixel_aspect_ratio: copied(from.pixel_aspect_ratio, t.pixel_aspect_ratio),
                    colorimetry: copied(from.colorimetry, t.colorimetry),
                    ..t
                },
            ),
        },
        None => template,
    }
}

fn clone_text(o: &Option<String>) -> (r: Option<String>)
    ensures
        opt_text(r) == opt_text(*o),
{
    match o {
        Some(s) => Some(s.clone()),
        None => None,
    }
}

/// A copy of caps with the same content.
pub fn duplicate_caps(caps: &VideoCaps) -> (r: VideoCaps)
    ensures
        r@ == caps@,
{
    VideoCaps {
        gl_memory: caps.gl_memory,
        structure: match &caps.structure {
            Some(s) => Some(
                CapsStructure {
                    name: s.name.clone(),
                    format: clone_text(&s.format),
                    width: s.width,
                    height: s.height,
                    framerate: s.framerate,
                    pixel_aspect_ratio: s.pixel_aspect_ratio,
                    colorimetry: clone_text(&s.colorimetry),
                    interlace_mode: clone_text(&s.interlace_mode),
                    original_width: s.original_width,
                },
            ),
            None => None,
        },
    }
}

/// Copy width/height/framerate/pixel-aspect-ratio/colorimetry from `from` onto `template`.
pub fn copy_video_fields(from: &CapsStructure, template: VideoCaps) -> (r: VideoCaps)
    ensures
        r@ == spec_copy_video_fields(from@, template@),
{
    let mut caps = template;
    match caps.structure {
        Some(ref mut out) => {
            if let Some(w) = from.width {
                out.width = Some(w);
            }
            if let Some(h) = from.height {
                out.height = Some(h);
            }
            if let Some(fr) = from.framerate {
                out.framerate = Some(fr);
            }
            if let Some(par) = from.pixel_aspect_ratio {
                out.pixel_aspect_ratio = Some(par);
            }
            if from.colorimetry.is_some() {
                out.colorimetry = clone_text(&from.colorimetry);
            }
        },
        None => {},
    }
    caps
}


/// The proxy caps for v210 caps: refused (`None`) unless the caps are raw
/// video in `v210` with a width and are not marked as other than progressive;
/// else `RGB10A2_LE` at proxy width with the video fields copied, progressive,
/// and the real width kept as `original-width`.
pub open spec fn spec_rewrite_v210_to_proxy(caps: CapsModel) -> Option<CapsModel> {
    match caps.structure {
        None => None,
        Some(s) => if s.name != "video/x-raw"@ || s.format != Some("v210"@) || (s.interlace_mode
            is Some && s.interlace_mode->0 != "progressive"@) || s.width is None {
            None
        } else {
            let out = spec_copy_video_fields(s, raw_template("RGB10A2_LE"@, false));
            let t = out.structure->0;
            Some(
                CapsModel {
                    gl_memory: out.gl_memory,
                    structure: Some(
                        StructureModel {
                            width: Some(spec_proxy_width(s.width->0 as u32 as int) as i32),
                            format: Some("RGB10A2_LE"@),
                            interlace_mode: Some("progressive"@),
                            original_width: Some(s.width->0),
                            ..t
                        },
                    ),
                },
            )
        },
    }
}

/// The real width a structure records in `original-width`, when positive.
pub open spec fn spec_original_width(s: StructureModel) -> Option<i32> {
    match s.original_width {
        Some(w) => if w > 0 {
            Some(w)
        } else {
            None
        },
        None => None,
    }
}

/// The v210 caps for proxy caps: refused (`None`) unless the caps are raw
/// video in `RGB10A2_LE`; else `v210` with the video fields copied and
/// progressive. The width is the given original width, else the structure's
/// positive `original-width`, else its width, else 0; it is written only when
/// positive (else the copied proxy width stays).
pub open spec fn spec_rewrite_proxy_to_v210(caps: CapsModel, original_width: Option<i32>) -> Option<CapsModel> {
    match caps.structure {
        None => None,
        Some(s) => if s.name != "video/x-raw"@ || s.format != Some("RGB10A2_LE"@) {
            None
        } else {
            let width = match original_width {
                Some(w) => w,
                None => match spec_original_width(s) {
                    Some(w) => w,
                    None => match s.width {
                        Some(w) => w,
                        None => 0,
                    },
                },
            };
            let out = spec_copy_video_fields(s, raw_template("v210"@, false));
            let t = out.structure->0;
            Some(
                CapsModel {
                    gl_memory: out.gl_memory,
                    structure: Some(
                        StructureModel {
                            width: if width > 0 {
                                Some(width)
                            } else {
                                t.width
                            },
                            format: Some("v210"@),
                            interlace_mode: Some("progressive"@),
                            ..t
                        },
                    ),
                },
            )
        },
    }
}

fn text_is(o: &Option<String>, t: &str) -> (r: bool)
    ensures
        r == (opt_text(*o) == Some(t@)),
{
    match o {
        Some(s) => str_eq(s.as_str(), t),
        None => false,
    }
}

fn proxy_width_i32(width: i32) -> (r: i32)
    ensures
        r == spec_proxy_width(width as u32 as int) as i32,
{
    #[verifier::truncate] (proxy_width(#[verifier::truncate] (width as u32)) as i32)
}

pub fn rewrite_v210_to_proxy(caps: &VideoCaps) -> (r: Option<VideoCaps>)
    ensures
        opt_caps(r) == spec_rewrite_v210_to_proxy(caps@),
{
    let s = match &caps.structure {
        Some(s) => s,
        None => return None,
    };
    if !str_eq(s.name.as_str(), "video/x-raw") {
        return None;
    }
    if !text_is(&s.format, "v210") {
        return None;
    }
    if let Some(mode) = &s.interlace_mode {
        if !str_eq(mode.as_str(), "progressive") {
            return None;
        }
    }
    let width = match s.width {
        Some(w) => w,
        None => return None,
    };
    let mut out = copy_video_fields(s, rgb10a2_caps());
    match out.structure {
        Some(ref mut st) => {
            st.width = Some(proxy_width_i32(width));
            st.format = Some("RGB10A2_LE".to_owned());
            st.interlace_mode = Some("progressive".to_owned());
            // Survives glupload more often than a GObject property set from a CAPS
            // event (that event is too late for GLFilter::transform_internal_caps).
            st.original_width = Some(width);
        },
        None => {},
    }
    Some(out)
}

/// The content of an optional caps value.
pub open spec fn opt_caps(o: Option<VideoCaps>) -> Option<CapsModel> {
    match o {
        Some(c) => Some(c@),
        None => None,
    }
}

fn original_width_from_structure(s: &CapsStructure) -> (r: Option<i32>)
    ensures
        r == spec_original_width(s@),
{
    match s.original_width {
        Some(w) => if w > 0 {
            Some(w)
        } else {
            None
        },
        None => None,
    }
}

pub fn rewrite_proxy_to_v210(caps: &VideoCaps, original_width: Option<i32>) -> (r: Option<VideoCaps>)
    ensures
        opt_caps(r) == spec_rewrite_proxy_to_v210(caps@, original_width),
{
    let s = match &caps.structure {
        Some(s) => s,
        None => return None,
    };
    if !str_eq(s.name.as_str(), "video/x-raw") {
        return None;
    }
    if !text_is(&s.format, "RGB10A2_LE") {
        return None;
    }
    let width = match original_width {
        Some(w) => w,
        None => match original_width_from_structure(s) {
            Some(w) => w,
            None => match s.width {
                Some(w) => w,
                None => 0,
            },
        },
    };
    let mut out = copy_video_fields(s, v210_caps());
    match out.structure {
        Some(ref mut st) => {
            if width > 0 {
                st.width = Some(width);
            }
            st.format = Some("v210".to_owned());
            st.interlace_mode = Some("progressive".to_owned());
        },
        None => {},
    }
    Some(out)
}

/// The positive `original-width` of the first structure, if any.
pub open spec fn spec_original_width_from_caps(caps: CapsModel) -> Option<i32> {
    match caps.structure {
        Some(s) => spec_original_width(s),
        None => None,
    }
}

pub fn original_width_from_caps(caps: &VideoCaps) -> (r: Option<i32>)
    ensures
        r == spec_original_width_from_caps(caps@),
{
    match &caps.structure {
        Some(s) => original_width_from_structure(s),
        None => None,
    }
}


/// The size in bytes of one frame that caps describe, when their first
/// structure has a width, a height and a format: a v210 frame for `v210`,
/// four bytes per pixel for any other format. Width and height are read as
/// unsigned 32-bit numbers.
pub open spec fn spec_unit_size(caps: CapsModel) -> Option<int> {
    match caps.structure {
        None => None,
        Some(s) => if s.width is None || s.height is None || s.format is None {
            None
        } else {
            let w = s.width->0 as u32 as int;
            let h = s.height->0 as u32 as int;
            if s.format->0 == "v210"@ {
                Some(spec_frame_size(w, h))
            } else {
                Some(w * 4 * h)
            }
        },
    }
}

/// Whether the frame size that caps describe can be computed without
/// overflow.
pub open spec fn unit_size_fits(caps: CapsModel) -> bool {
    match caps.structure {
        None => true,
        Some(s) => if s.width is None || s.height is None || s.format is None {
            true
        } else {
            let w = s.width->0 as u32 as int;
            let h = s.height->0 as u32 as int;
            if s.format->0 == "v210"@ {
                spec_stride(w) <= u32::MAX && spec_frame_size(w, h) <= usize::MAX
            } else {
                w * 4 <= usize::MAX && w * 4 * h <= usize::MAX
            }
        },
    }
}

/// Whether [`unit_size`] can be asked about these caps: the frame size they
/// describe fits in memory sizes.
pub fn unit_size_computable(caps: &VideoCaps) -> (r: bool)
    ensures
        r == unit_size_fits(caps@),
{
    let s = match &caps.structure {
        Some(s) => s,
        None => return true,
    };
    let (width, height) = match (s.width, s.height) {
        (Some(w), Some(h)) => (#[verifier::truncate] (w as u32), #[verifier::truncate] (h as u32)),
        _ => return true,
    };
    if s.format.is_none() {
        return true;
    }
    let w = width as u128;
    let h = height as u128;
    if text_is(&s.format, "v210") {
        let stride = (w + 47) / 48 * 128;
        if stride > u32::MAX as u128 {
            return false;
        }
        assert(stride * h <= u32::MAX * u32::MAX) by (nonlinear_arith)
            requires
                stride <= u32::MAX,
                h <= u32::MAX,
        ;
        stride * h <= usize::MAX as u128
    } else {
        assert(w * 4 * h <= 4 * u32::MAX * u32::MAX) by (nonlinear_arith)
            requires
                w <= u32::MAX,
                h <= u32::MAX,
        ;
        w * 4 <= usize::MAX as u128 && w * 4 * h <= usize::MAX as u128
    }
}

/// The size in bytes of one frame that the caps describe.
pub fn unit_size(caps: &VideoCaps) -> (r: Option<usize>)
    requires
        unit_size_fits(caps@),
    ensures
        r matches Some(n) ==> spec_unit_size(caps@) == Some(n as int),
        r is None ==> spec_unit_size(caps@) is None,
{
    let s = match &caps.structure {
        Some(s) => s,
        None => return None,
    };
    let width = match s.width {
        Some(w) => #[verifier::truncate] (w as u32),
        None => return None,
    };
    let height = match s.height {
        Some(h) => #[verifier::truncate] (h as u32),
        None => return None,
    };
    if s.format.is_none() {
        return None;
    }
    let size = if text_is(&s.format, "v210") {
        frame_size(width, height)
    } else {
        proof {
            assert(width * 4 * height == (width as usize) * 4 * (height as usize));
        }
        width as usize * 4 * height as usize
    };
    Some(size)
}


/// Rewriting v210 caps to proxy caps and back restores the v210 caps: the
/// video fields of the original on progressive `v210`, at the original width,
/// whether the way back reads the width from the caps or is handed it.
pub proof fn lemma_proxy_caps_roundtrip(caps: CapsModel)
    requires
        spec_rewrite_v210_to_proxy(caps) is Some,
        caps.structure->0.width->0 >= 0,
    ensures
        spec_rewrite_proxy_to_v210(spec_rewrite_v210_to_proxy(caps)->0, None) == Some(
            spec_copy_video_fields(caps.structure->0, raw_template("v210"@, false)),
        ),
        spec_rewrite_proxy_to_v210(
            spec_rewrite_v210_to_proxy(caps)->0,
            Some(caps.structure->0.width->0),
        ) == Some(spec_copy_video_fields(caps.structure->0, raw_template("v210"@, false))),
{
    reveal_strlit("v210");
    reveal_strlit("RGB10A2_LE");
    let s = caps.structure->0;
    let w = s.width->0;
    assert(spec_proxy_width(w as u32 as int) < 0x8000_0000);
    if w == 0 {
        assert(spec_proxy_width(0) == 0);
    }
}

/// Proxy caps describe frames of exactly as many bytes as the v210 caps they
/// were made from.
pub proof fn lemma_proxy_caps_same_size(caps: CapsModel)
    requires
        spec_rewrite_v210_to_proxy(caps) is Some,
        caps.structure->0.width->0 >= 0,
    ensures
        spec_unit_size(spec_rewrite_v210_to_proxy(caps)->0) == spec_unit_size(caps),
{
    reveal_strlit("v210");
    reveal_strlit("RGB10A2_LE");
    let s = caps.structure->0;
    let w = s.width->0;
    assert(spec_proxy_width(w as u32 as int) < 0x8000_0000);
    lemma_proxy_bytes_match_stride(w as u32 as int);
    assert("RGB10A2_LE"@.len() != "v210"@.len());
}

} // verus!

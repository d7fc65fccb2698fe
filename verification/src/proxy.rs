//! Caps negotiation state of the in-place proxy elements: `v210glproxy`
//! reads v210 system memory as `RGB10A2_LE` of proxy width, `v210glunproxy`
//! reads it back as v210 of the real width. Buffers are not touched.
use vstd::prelude::*;
use crate::caps::{
    lemma_proxy_caps_roundtrip, raw_template, spec_copy_video_fields,
    original_width_from_caps, rewrite_proxy_to_v210, rewrite_v210_to_proxy, opt_caps,
    spec_original_width_from_caps, spec_rewrite_proxy_to_v210, spec_rewrite_v210_to_proxy,
    CapsModel, VideoCaps,
};
use crate::text::str_eq;

verus! {

/// The direction of the pad whose caps are transformed.
#[derive(Debug, Clone, Copy, PartialEq, Eq, Structural)]
pub enum PadDirection {
    Unknown,
    Src,
    Sink,
}

/// The outcome of a caps transform: the caps unchanged (for an unknown
/// direction), the rewritten caps (to be intersected with any filter), or no
/// caps at all.
#[derive(Debug, Clone)]
pub enum CapsTransform {
    Same,
    Rewritten(VideoCaps),
    Refused,
}

/// The mathematical content of a [`CapsTransform`].
pub enum CapsTransformModel {
    Same,
    Rewritten(CapsModel),
    Refused,
}

impl View for CapsTransform {
    type V = CapsTransformModel;

    open spec fn view(&self) -> CapsTransformModel {
        match self {
            CapsTransform::Same => CapsTransformModel::Same,
            CapsTransform::Rewritten(c) => CapsTransformModel::Rewritten(c@),
            CapsTransform::Refused => CapsTransformModel::Refused,
        }
    }
}

/// A rewrite result as a transform outcome.
pub open spec fn rewritten_or_refused(o: Option<CapsModel>) -> CapsTransformModel {
    match o {
        Some(c) => CapsTransformModel::Rewritten(c),
        None => CapsTransformModel::Refused,
    }
}

fn to_transform(o: Option<VideoCaps>) -> (r: CapsTransform)
    ensures
        r@ == rewritten_or_refused(opt_caps(o)),
{
    match o {
        Some(c) => CapsTransform::Rewritten(c),
        None => CapsTransform::Refused,
    }
}

/// Why caps were refused.
#[derive(Debug, Clone)]
pub enum CapsError {
    /// The caps mark the video as interlaced in the given mode.
    Interlaced(String),
}

/// A width known when positive.
pub open spec fn positive(w: i32) -> Option<i32> {
    if w > 0 {
        Some(w)
    } else {
        None
    }
}

/// The width a caps structure carries, if any.
pub open spec fn caps_width(caps: CapsModel) -> Option<i32> {
    match caps.structure {
        Some(s) => s.width,
        None => None,
    }
}

/// The `v210glproxy` element's state: the real width of the v210 video.
pub struct V210GlProxy {
    pub original_width: i32,
}

impl V210GlProxy {
    pub fn new() -> (r: Self)
        ensures
            r.original_width == 0,
    {
        V210GlProxy { original_width: 0 }
    }

    pub fn original_width(&self) -> (r: i32)
        ensures
            r == self.original_width,
    {
        self.original_width
    }

    /// Sink caps (v210) become proxy caps, and a positive width in them is
    /// remembered; src caps (proxy) become v210 caps at the remembered width
    /// when it is positive.
    pub fn transform_caps(&mut self, direction: PadDirection, caps: &VideoCaps) -> (r: CapsTransform)
        ensures
            direction == PadDirection::Sink ==> {
                &&& r@ == rewritten_or_refused(spec_rewrite_v210_to_proxy(caps@))
                &&& final(self).original_width == match caps_width(caps@) {
                    Some(w) => if w > 0 {
                        w
                    } else {
                        old(self).original_width
                    },
                    None => old(self).original_width,
                }
            },
            direction == PadDirection::Src ==> {
                &&& r@ == rewritten_or_refused(
                    spec_rewrite_proxy_to_v210(caps@, positive(old(self).original_width)),
                )
                &&& final(self).original_width == old(self).original_width
            },
            direction == PadDirection::Unknown ==> {
                &&& r@ == CapsTransformModel::Same
                &&& final(self).original_width == old(self).original_width
            },
    {
        match direction {
            PadDirection::Sink => {
                if let Some(s) = &caps.structure {
                    if let Some(w) = s.width {
                        if w > 0 {
                            self.original_width = w;
                        }
                    }
                }
                to_transform(rewrite_v210_to_proxy(caps))
            },
            PadDirection::Src => {
                let w = self.original_width;
                to_transform(rewrite_proxy_to_v210(caps, if w > 0 { Some(w) } else { None }))
            },
            PadDirection::Unknown => CapsTransform::Same,
        }
    }

    /// Accept the negotiated input caps: interlaced v210 is refused; the
    /// width in the caps, if any, is remembered.
    pub fn set_caps(&mut self, incaps: &VideoCaps) -> (r: Result<(), CapsError>)
        ensures
            spec_interlaced(incaps@) is Some ==> {
                &&& r matches Err(CapsError::Interlaced(m)) && Some(m@) == spec_interlaced(incaps@)
                &&& final(self).original_width == old(self).original_width
            },
            spec_interlaced(incaps@) is None ==> {
                &&& r is Ok
                &&& final(self).original_width == match caps_width(incaps@) {
                    Some(w) => w,
                    None => old(self).original_width,
                }
            },
    {
        if let Some(s) = &incaps.structure {
            if let Some(mode) = &s.interlace_mode {
                if !str_eq(mode.as_str(), "progressive") {
                    return Err(CapsError::Interlaced(mode.clone()));
                }
            }
            if let Some(w) = s.width {
                self.original_width = w;
            }
        }
        Ok(())
    }
}

/// The interlace mode of caps that mark their video as other than
/// progressive.
pub open spec fn spec_interlaced(caps: CapsModel) -> Option<Seq<char>> {
    match caps.structure {
        Some(s) => match s.interlace_mode {
            Some(m) => if m != "progressive"@ {
                Some(m)
            } else {
                None
            },
            None => None,
        },
        None => None,
    }
}

/// The `v210glunproxy` element's state: the real width of the v210 video.
pub struct V210GlUnproxy {
    pub original_width: i32,
}

/// The width the unproxy element works with: its remembered width when
/// positive, else the positive `original-width` of the caps, else the
/// positive width of the `pack` element beside it.
pub open spec fn spec_unproxy_width(stored: i32, caps: CapsModel, sibling: Option<i32>) -> i32 {
    if stored > 0 {
        stored
    } else {
        match spec_original_width_from_caps(caps) {
            Some(w) => w,
            None => match sibling {
                Some(v) => if v > 0 {
                    v
                } else {
                    stored
                },
                None => stored,
            },
        }
    }
}

impl V210GlUnproxy {
    pub fn new() -> (r: Self)
        ensures
            r.original_width == 0,
    {
        V210GlUnproxy { original_width: 0 }
    }

    /// Sink caps (proxy) become v210 caps at the real width, src caps (v210)
    /// become proxy caps. The real width is the remembered one when positive,
    /// else the one found in the caps or, failing that, the `video-width`
    /// of the sibling `pack` element (`sibling_width`, read by the caller), and
    /// is remembered.
    pub fn transform_caps(&mut self, direction: PadDirection, caps: &VideoCaps, sibling_width: Option<i32>) -> (r: CapsTransform)
        ensures
            final(self).original_width == spec_unproxy_width(
                old(self).original_width,
                caps@,
                sibling_width,
            ),
            direction == PadDirection::Sink ==> r@ == rewritten_or_refused(
                spec_rewrite_proxy_to_v210(caps@, positive(final(self).original_width)),
            ),
            direction == PadDirection::Src ==> r@ == rewritten_or_refused(
                spec_rewrite_v210_to_proxy(caps@),
            ),
            direction == PadDirection::Unknown ==> r@ == CapsTransformModel::Same,
    {
        let mut w = self.original_width;
        if w <= 0 {
            if let Some(from_caps) = original_width_from_caps(caps) {
                w = from_caps;
                self.original_width = w;
            } else if let Some(from_pack) = sibling_width {
                if from_pack > 0 {
                    w = from_pack;
                    self.original_width = w;
                }
            }
        }
        match direction {
            PadDirection::Sink => to_transform(
                rewrite_proxy_to_v210(caps, if w > 0 { Some(w) } else { None }),
            ),
            PadDirection::Src => to_transform(rewrite_v210_to_proxy(caps)),
            PadDirection::Unknown => CapsTransform::Same,
        }
    }
}


/// An unproxy element that has not yet remembered another width turns the
/// caps a proxy element produced back into the v210 caps the proxy consumed
/// (their video fields on progressive `v210`, at the real width), whatever
/// its sibling reports.
pub proof fn lemma_unproxy_restores_proxy_input(caps: CapsModel, stored: i32, sibling: Option<i32>)
    requires
        spec_rewrite_v210_to_proxy(caps) is Some,
        caps.structure->0.width->0 > 0,
        stored <= 0 || stored == caps.structure->0.width->0,
    ensures
        ({
            let proxied = spec_rewrite_v210_to_proxy(caps)->0;
            spec_rewrite_proxy_to_v210(
                proxied,
                positive(spec_unproxy_width(stored, proxied, sibling)),
            ) == Some(spec_copy_video_fields(caps.structure->0, raw_template("v210"@, false)))
        }),
{
    lemma_proxy_caps_roundtrip(caps);
}

} // verus!

//! The public `v210glupload` / `v210gldownload` bins: which properties they
//! expose, and what a CAPS event on their sink tells the elements inside.
use vstd::prelude::*;
use crate::caps::{CapsStructure, StructureModel};
use crate::color::{
    full_range_from_colorimetry, matrix_from_colorimetry, spec_full_range_from_colorimetry,
    spec_matrix_from_colorimetry, spec_matrix_name, Matrix,
};
use crate::properties::{spec_override_index, spec_override_matrix};
use crate::text::str_eq;

verus! {

/// The kind of a colour property, with its default (and range).
#[derive(Debug, Clone, Copy, PartialEq, Eq)]
pub enum PropertyKind {
    Text { default: &'static str },
    Flag { default: bool },
    Int { minimum: i32, maximum: i32, default: i32 },
}

/// A GObject property of the v210 GL elements.
#[derive(Debug, Clone, Copy)]
pub struct PropertySpec {
    pub name: &'static str,
    pub nick: &'static str,
    pub blurb: &'static str,
    pub kind: PropertyKind,
}

/// The colour properties every v210 GL element has, in order: the override
/// (text, default `auto`), full range (flag, default off), and the video
/// width and height (0 to `i32::MAX`, default 0).
pub open spec fn color_properties_list() -> Seq<PropertySpec> {
    seq![
        PropertySpec {
            name: "colorimetry-override",
            nick: "Colorimetry override",
            blurb: "YCbCr matrix: auto (BT.709 default, or caps colorimetry), bt601, bt709, bt2020",
            kind: PropertyKind::Text { default: "auto" },
        },
        PropertySpec {
            name: "full-range",
            nick: "Full range",
            blurb: "Interpret YCbCr as full range (false = limited/narrow, the broadcast default)",
            kind: PropertyKind::Flag { default: false },
        },
        PropertySpec {
            name: "video-width",
            nick: "Video width",
            blurb: "Original v210 width in pixels (set by the parent bin from sink caps)",
            kind: PropertyKind::Int { minimum: 0, maximum: i32::MAX, default: 0 },
        },
        PropertySpec {
            name: "video-height",
            nick: "Video height",
            blurb: "Original v210 height in pixels (set by the parent bin from sink caps)",
            kind: PropertyKind::Int { minimum: 0, maximum: i32::MAX, default: 0 },
        },
    ]
}

pub fn color_properties() -> (r: Vec<PropertySpec>)
    ensures
        r@ == color_properties_list(),
{
    let mut r: Vec<PropertySpec> = Vec::new();
    r.push(
        PropertySpec {
            name: "colorimetry-override",
            nick: "Colorimetry override",
            blurb: "YCbCr matrix: auto (BT.709 default, or caps colorimetry), bt601, bt709, bt2020",
            kind: PropertyKind::Text { default: "auto" },
        },
    );
    r.push(
        PropertySpec {
            name: "full-range",
            nick: "Full range",
            blurb: "Interpret YCbCr as full range (false = limited/narrow, the broadcast default)",
            kind: PropertyKind::Flag { default: false },
        },
    );
    r.push(
        PropertySpec {
            name: "video-width",
            nick: "Video width",
            blurb: "Original v210 width in pixels (set by the parent bin from sink caps)",
            kind: PropertyKind::Int { minimum: 0, maximum: i32::MAX, default: 0 },
        },
    );
    r.push(
        PropertySpec {
            name: "video-height",
            nick: "Video height",
            blurb: "Original v210 height in pixels (set by the parent bin from sink caps)",
            kind: PropertyKind::Int { minimum: 0, maximum: i32::MAX, default: 0 },
        },
    );
    assert(r@ =~= color_properties_list());
    r
}

/// The properties the public bins expose: the colour properties without the
/// video width and height, which the bins set on their elements themselves.
pub fn bin_color_properties() -> (r: Vec<PropertySpec>)
    ensures
        r@ == color_properties_list().take(2),
{
    let all = color_properties();
    let mut r: Vec<PropertySpec> = Vec::new();
    let mut i: usize = 0;
    while i < all.len()
        invariant
            0 <= i <= all@.len(),
            all@ == color_properties_list(),
            r@ == all@.take(if i < 2 { i as int } else { 2 }),
        decreases all@.len() - i,
    {
        let p = all[i];
        proof {
            reveal_strlit("colorimetry-override");
            reveal_strlit("full-range");
            reveal_strlit("video-width");
            reveal_strlit("video-height");
            assert("colorimetry-override"@.len() != "video-width"@.len());
            assert("colorimetry-override"@.len() != "video-height"@.len());
            assert("full-range"@.len() != "video-height"@.len());
            assert("full-range"@[0] != "video-width"@[0]);
        }
        assert(p == color_properties_list()[i as int]);
        assert(i == 0 ==> p.name@ == "colorimetry-override"@);
        assert(i == 1 ==> p.name@ == "full-range"@);
        assert(i == 2 ==> p.name@ == "video-width"@);
        assert(i == 3 ==> p.name@ == "video-height"@);
        let ghost before = r@;
        if !str_eq(p.name, "video-width") && !str_eq(p.name, "video-height") {
            r.push(p);
            assert(i < 2);
            assert(r@ == before.push(p));
            assert(all@.take(i + 1) =~= all@.take(i as int).push(p));
        }
        assert(r@ =~= all@.take(if i + 1 < 2 { i + 1 } else { 2 }));
        i += 1;
    }
    r
}


/// What a CAPS event on a bin's sink pad tells the elements inside.
#[derive(Debug, Clone, Copy, PartialEq, Eq)]
pub struct CapsEventUpdate {
    /// The `video-width` to set, from the caps' width.
    pub video_width: Option<i32>,
    /// The `video-height` to set, from the caps' height.
    pub video_height: Option<i32>,
    /// The matrix and range to set, guessed from the caps' colorimetry while
    /// the bin's own override is `auto`.
    pub colorimetry: Option<(Matrix, bool)>,
}

/// The update for caps with structure `s`, given whether the bin's override
/// is `auto`.
pub open spec fn spec_caps_event_update(s: StructureModel, override_is_auto: bool) -> CapsEventUpdate {
    CapsEventUpdate {
        video_width: s.width,
        video_height: s.height,
        colorimetry: if override_is_auto {
            match s.colorimetry {
                Some(c) => Some(
                    (spec_matrix_from_colorimetry(c), spec_full_range_from_colorimetry(c)),
                ),
                None => None,
            }
        } else {
            None
        },
    }
}

/// Work out what the elements inside a bin learn from a CAPS event.
pub fn caps_event_update(s: &CapsStructure, override_is_auto: bool) -> (r: CapsEventUpdate)
    ensures
        r == spec_caps_event_update(s@, override_is_auto),
{
    let colorimetry = if override_is_auto {
        match &s.colorimetry {
            Some(c) => Some(
                (matrix_from_colorimetry(c.as_str()), full_range_from_colorimetry(c.as_str())),
            ),
            None => None,
        }
    } else {
        None
    };
    CapsEventUpdate { video_width: s.width, video_height: s.height, colorimetry }
}

/// Setting an element's override to the name of the matrix a CAPS event
/// guessed makes the element use that matrix.
pub proof fn lemma_guessed_matrix_applies(m: Matrix)
    ensures
        spec_override_matrix(spec_override_index(spec_matrix_name(m))) == m,
{
    reveal_strlit("bt601");
    reveal_strlit("bt709");
    reveal_strlit("bt2020");
    assert("bt709"@[2] != "bt601"@[2]);
    assert("bt709"@.len() != "bt2020"@.len());
    assert("bt2020"@.len() != "bt601"@.len());
}

} // verus!

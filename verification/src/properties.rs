//! Shared colour settings of the v210 GL elements and the rules by which
//! their properties read and write them.
use vstd::prelude::*;
use crate::color::{spec_matrix_parse, Matrix};
use crate::text::str_eq;

verus! {

/// The values that `colorimetry-override` takes, indexed by its stored number.
pub const COLORIMETRY_OVERRIDE: [&'static str; 4] = ["auto", "bt601", "bt709", "bt2020"];

/// The name stored under each override number.
pub open spec fn spec_override_name(idx: int) -> Seq<char> {
    if idx == 0 {
        "auto"@
    } else if idx == 1 {
        "bt601"@
    } else if idx == 2 {
        "bt709"@
    } else {
        "bt2020"@
    }
}

/// The override number a name selects: `bt601`, `bt709` and `bt2020` their
/// own, every other name `auto` (0).
pub open spec fn spec_override_index(s: Seq<char>) -> i32 {
    if s == "bt601"@ {
        1
    } else if s == "bt709"@ {
        2
    } else if s == "bt2020"@ {
        3
    } else {
        0
    }
}

/// The matrix an override number selects; `auto` and unknown numbers select BT.709.
pub open spec fn spec_override_matrix(idx: i32) -> Matrix {
    if idx == 1 {
        Matrix::Bt601
    } else if idx == 3 {
        Matrix::Bt2020
    } else {
        Matrix::Bt709
    }
}

/// Colour and geometry settings shared by a v210 GL element and its bin.
#[derive(Debug)]
pub struct ColorSettings {
    pub override_idx: i32,
    pub full_range: bool,
    pub video_width: i32,
    pub video_height: i32,
}

impl Default for ColorSettings {
    fn default() -> (r: Self)
        ensures
            r.override_idx == 0,
            !r.full_range,
            r.video_width == 0,
            r.video_height == 0,
    {
        Self { override_idx: 0, full_range: false, video_width: 0, video_height: 0 }
    }
}

/// A value clamped below at zero.
pub open spec fn non_negative(v: i32) -> u32 {
    if v < 0 {
        0
    } else {
        v as u32
    }
}

impl ColorSettings {
    /// The stored override number is one of the four overrides.
    pub open spec fn wf(&self) -> bool {
        0 <= self.override_idx < 4
    }

    pub fn matrix(&self) -> (r: Matrix)
        ensures
            r == spec_override_matrix(self.override_idx),
    {
        match self.override_idx {
            1 => Matrix::Bt601,
            3 => Matrix::Bt2020,
            _ => Matrix::Bt709,
        }
    }

    pub fn override_is_auto(&self) -> (r: bool)
        ensures
            r == (self.override_idx == 0),
    {
        self.override_idx == 0
    }

    pub fn set_override_from_string(&mut self, value: &str)
        ensures
            final(self).override_idx == spec_override_index(value@),
            final(self).wf(),
            final(self).full_range == old(self).full_range,
            final(self).video_width == old(self).video_width,
            final(self).video_height == old(self).video_height,
    {
        let idx = if str_eq(value, "bt601") {
            1
        } else if str_eq(value, "bt709") {
            2
        } else if str_eq(value, "bt2020") {
            3
        } else {
            0
        };
        self.override_idx = idx;
    }

    pub fn override_string(&self) -> (r: &'static str)
        requires
            self.wf(),
        ensures
            r@ == spec_override_name(self.override_idx as int),
    {
        let names = COLORIMETRY_OVERRIDE;
        names[self.override_idx as usize]
    }

    pub fn full_range(&self) -> (r: bool)
        ensures
            r == self.full_range,
    {
        self.full_range
    }

    pub fn video_size(&self) -> (r: (u32, u32))
        ensures
            r.0 == non_negative(self.video_width),
            r.1 == non_negative(self.video_height),
    {
        let w = if self.video_width < 0 { 0 } else { self.video_width };
        let h = if self.video_height < 0 { 0 } else { self.video_height };
        (w as u32, h as u32)
    }
}


/// A property value as the colour properties carry it.
#[derive(Debug, Clone)]
pub enum ColorPropertyValue {
    Text(Option<String>),
    Flag(bool),
    Int(i32),
}

/// The mathematical content of a [`ColorPropertyValue`].
pub enum PropertyValueModel {
    Text(Option<Seq<char>>),
    Flag(bool),
    Int(i32),
}

impl View for ColorPropertyValue {
    type V = PropertyValueModel;

    open spec fn view(&self) -> PropertyValueModel {
        match self {
            ColorPropertyValue::Text(Some(s)) => PropertyValueModel::Text(Some(s@)),
            ColorPropertyValue::Text(None) => PropertyValueModel::Text(None),
            ColorPropertyValue::Flag(b) => PropertyValueModel::Flag(*b),
            ColorPropertyValue::Int(v) => PropertyValueModel::Int(*v),
        }
    }
}

/// The settings after the property `name` is set to `value`: each of the four
/// colour properties takes a value of its own kind (a missing override text
/// counts as `auto`); any other name or kind changes nothing.
pub open spec fn spec_set_color_property(s: ColorSettings, name: Seq<char>, value: PropertyValueModel) -> ColorSettings {
    if name == "colorimetry-override"@ {
        match value {
            PropertyValueModel::Text(t) => ColorSettings {
                override_idx: spec_override_index(
                    match t {
                        Some(t) => t,
                        None => "auto"@,
                    },
                ),
                ..s
            },
            _ => s,
        }
    } else if name == "full-range"@ {
        match value {
            PropertyValueModel::Flag(b) => ColorSettings { full_range: b, ..s },
            _ => s,
        }
    } else if name == "video-width"@ {
        match value {
            PropertyValueModel::Int(v) => ColorSettings { video_width: v, ..s },
            _ => s,
        }
    } else if name == "video-height"@ {
        match value {
            PropertyValueModel::Int(v) => ColorSettings { video_height: v, ..s },
            _ => s,
        }
    } else {
        s
    }
}

/// The value the property `name` reads: the override's name, the range flag,
/// the stored width or height; an empty text for any other name.
pub open spec fn spec_get_color_property(s: ColorSettings, name: Seq<char>) -> PropertyValueModel {
    if name == "colorimetry-override"@ {
        PropertyValueModel::Text(Some(spec_override_name(s.override_idx as int)))
    } else if name == "full-range"@ {
        PropertyValueModel::Flag(s.full_range)
    } else if name == "video-width"@ {
        PropertyValueModel::Int(s.video_width)
    } else if name == "video-height"@ {
        PropertyValueModel::Int(s.video_height)
    } else {
        PropertyValueModel::Text(Some(""@))
    }
}

/// Apply a property write to the settings.
pub fn set_color_property(settings: &mut ColorSettings, name: &str, value: &ColorPropertyValue)
    ensures
        *final(settings) == spec_set_color_property(*old(settings), name@, value@),
        old(settings).wf() ==> final(settings).wf(),
        name@ == "video-width"@ ==> (value matches ColorPropertyValue::Int(v) ==> {
            &&& final(settings).video_width == v
            &&& final(settings).video_height == old(settings).video_height
        }),
        name@ == "video-height"@ ==> (value matches ColorPropertyValue::Int(v) ==> {
            &&& final(settings).video_height == v
            &&& final(settings).video_width == old(settings).video_width
        }),
        name@ == "full-range"@ ==> (value matches ColorPropertyValue::Flag(b) ==> {
            &&& final(settings).full_range == b
            &&& final(settings).video_width == old(settings).video_width
            &&& final(settings).video_height == old(settings).video_height
        }),
{
    proof {
        lemma_property_writes_set_fields(*old(settings));
    }
    if str_eq(name, "colorimetry-override") {
        if let ColorPropertyValue::Text(t) = value {
            match t {
                Some(t) => settings.set_override_from_string(t.as_str()),
                None => settings.set_override_from_string("auto"),
            }
        }
    } else if str_eq(name, "full-range") {
        if let ColorPropertyValue::Flag(v) = value {
            settings.full_range = *v;
        }
    } else if str_eq(name, "video-width") {
        if let ColorPropertyValue::Int(v) = value {
            settings.video_width = *v;
        }
    } else if str_eq(name, "video-height") {
        if let ColorPropertyValue::Int(v) = value {
            settings.video_height = *v;
        }
    }
}

/// Read a property from the settings.
pub fn get_color_property(settings: &ColorSettings, name: &str) -> (r: ColorPropertyValue)
    requires
        settings.wf(),
    ensures
        r@ == spec_get_color_property(*settings, name@),
{
    if str_eq(name, "colorimetry-override") {
        ColorPropertyValue::Text(Some(settings.override_string().to_owned()))
    } else if str_eq(name, "full-range") {
        ColorPropertyValue::Flag(settings.full_range())
    } else if str_eq(name, "video-width") {
        ColorPropertyValue::Int(settings.video_width)
    } else if str_eq(name, "video-height") {
        ColorPropertyValue::Int(settings.video_height)
    } else {
        ColorPropertyValue::Text(Some("".to_owned()))
    }
}

/// The canonical name under which an override name is stored: one of the four
/// override names is kept, every other name becomes `auto`.
pub open spec fn spec_canonical_override(s: Seq<char>) -> Seq<char> {
    if s == "bt601"@ || s == "bt709"@ || s == "bt2020"@ {
        s
    } else {
        "auto"@
    }
}

/// Setting the override by name and reading it back gives the canonical name,
/// and the matrix it selects is the one that name parses to.
pub proof fn lemma_override_roundtrip(s: Seq<char>)
    ensures
        0 <= spec_override_index(s) < 4,
        spec_override_name(spec_override_index(s) as int) == spec_canonical_override(s),
        spec_override_matrix(spec_override_index(s)) == spec_matrix_parse(s),
{
    reveal_strlit("bt601");
    reveal_strlit("bt709");
    reveal_strlit("bt2020");
    assert("bt709"@[2] != "bt601"@[2]);
    assert("bt709"@.len() != "bt2020"@.len());
}

/// Reading a colour property after writing a value of its kind gives back
/// what was written (the override in canonical form), and leaves the other
/// properties as they were.
pub proof fn lemma_property_read_after_write(s: ColorSettings, name: Seq<char>, value: PropertyValueModel, other: Seq<char>)
    requires
        s.wf(),
        other != name,
    ensures
        name == "colorimetry-override"@ ==> (value matches PropertyValueModel::Text(t) ==> spec_get_color_property(
            spec_set_color_property(s, name, value),
            name,
        ) == PropertyValueModel::Text(Some(spec_canonical_override(
            match t {
                Some(t) => t,
                None => "auto"@,
            },
        )))),
        name == "full-range"@ ==> (value matches PropertyValueModel::Flag(_) ==> spec_get_color_property(
            spec_set_color_property(s, name, value),
            name,
        ) == value),
        (name == "video-width"@ || name == "video-height"@) ==> (value matches PropertyValueModel::Int(_) ==> spec_get_color_property(
            spec_set_color_property(s, name, value),
            name,
        ) == value),
        spec_get_color_property(spec_set_color_property(s, name, value), other)
            == spec_get_color_property(s, other),
        spec_set_color_property(s, name, value).wf(),
{
    reveal_strlit("colorimetry-override");
    reveal_strlit("full-range");
    reveal_strlit("video-width");
    reveal_strlit("video-height");
    reveal_strlit("auto");
    reveal_strlit("bt601");
    reveal_strlit("bt709");
    reveal_strlit("bt2020");
    assert("colorimetry-override"@.len() != "full-range"@.len());
    assert("colorimetry-override"@.len() != "video-width"@.len());
    assert("colorimetry-override"@.len() != "video-height"@.len());
    assert("full-range"@.len() != "video-height"@.len());
    assert("video-width"@.len() != "video-height"@.len());
    assert("full-range"@[0] != "video-width"@[0]);
    assert("bt709"@[2] != "bt601"@[2]);
    assert("bt709"@.len() != "bt2020"@.len());
    assert("bt2020"@.len() != "bt601"@.len());
    assert("auto"@.len() != "bt601"@.len());
    assert("auto"@.len() != "bt709"@.len());
    assert("auto"@.len() != "bt2020"@.len());
}

/// Writing a colour property sets the settings field it names and no other:
/// `video-width` the width, `video-height` the height (so the size the element
/// works at is the written one, clamped below at zero), `full-range` the range
/// flag, and `colorimetry-override` the matrix its text names.
pub proof fn lemma_property_writes_set_fields(s: ColorSettings)
    ensures
        forall|v: i32| {
            let t = #[trigger] spec_set_color_property(s, "video-width"@, PropertyValueModel::Int(v));
            &&& t.video_width == v
            &&& t.video_height == s.video_height
            &&& t.override_idx == s.override_idx
            &&& t.full_range == s.full_range
            &&& non_negative(t.video_width) == if v < 0 { 0 } else { v as u32 }
        },
        forall|v: i32| {
            let t = #[trigger] spec_set_color_property(s, "video-height"@, PropertyValueModel::Int(v));
            &&& t.video_height == v
            &&& t.video_width == s.video_width
            &&& t.override_idx == s.override_idx
            &&& t.full_range == s.full_range
            &&& non_negative(t.video_height) == if v < 0 { 0 } else { v as u32 }
        },
        forall|b: bool| {
            let t = #[trigger] spec_set_color_property(s, "full-range"@, PropertyValueModel::Flag(b));
            &&& t.full_range == b
            &&& t.video_width == s.video_width
            &&& t.video_height == s.video_height
            &&& t.override_idx == s.override_idx
        },
        forall|n: Seq<char>| {
            let t = #[trigger] spec_set_color_property(
                s,
                "colorimetry-override"@,
                PropertyValueModel::Text(Some(n)),
            );
            &&& spec_override_matrix(t.override_idx) == spec_matrix_parse(n)
            &&& t.full_range == s.full_range
            &&& t.video_width == s.video_width
            &&& t.video_height == s.video_height
        },
{
    reveal_strlit("colorimetry-override");
    reveal_strlit("full-range");
    reveal_strlit("video-width");
    reveal_strlit("video-height");
    assert("colorimetry-override"@.len() != "full-range"@.len());
    assert("colorimetry-override"@.len() != "video-width"@.len());
    assert("colorimetry-override"@.len() != "video-height"@.len());
    assert("full-range"@.len() != "video-height"@.len());
    assert("video-width"@.len() != "video-height"@.len());
    assert("full-range"@[0] != "video-width"@[0]);
    assert forall|n: Seq<char>| #[trigger] spec_override_matrix(spec_override_index(n)) == spec_matrix_parse(n) by {
        lemma_override_roundtrip(n);
    }
}

} // verus!

//! Choice of YCbCr matrix and range, as the GL shaders apply them.
use vstd::prelude::*;
use crate::text::{ascii_lowercase, contains, contains_seq, str_eq, to_ascii_lowercase};

verus! {

/// Which matrix to apply. `Auto` is treated as BT.709 (the HD default).
#[derive(Debug, Clone, Copy, PartialEq, Eq, Structural)]
pub enum Matrix {
    Bt601,
    Bt709,
    Bt2020,
}

impl Default for Matrix {
    fn default() -> (r: Self)
        ensures
            r == Matrix::Bt709,
    {
        Matrix::Bt709
    }
}

/// The matrix that a name selects: `bt601` and `bt2020` select their matrix,
/// every other name BT.709.
pub open spec fn spec_matrix_parse(s: Seq<char>) -> Matrix {
    if s == "bt601"@ {
        Matrix::Bt601
    } else if s == "bt2020"@ {
        Matrix::Bt2020
    } else {
        Matrix::Bt709
    }
}

/// The name of a matrix.
pub open spec fn spec_matrix_name(m: Matrix) -> Seq<char> {
    match m {
        Matrix::Bt601 => "bt601"@,
        Matrix::Bt709 => "bt709"@,
        Matrix::Bt2020 => "bt2020"@,
    }
}

impl Matrix {
    pub fn parse(s: &str) -> (r: Self)
        ensures
            r == spec_matrix_parse(s@),
    {
        if str_eq(s, "bt601") {
            Self::Bt601
        } else if str_eq(s, "bt2020") {
            Self::Bt2020
        } else {
            Self::Bt709
        }
    }

    pub fn as_str(self) -> (r: &'static str)
        ensures
            r@ == spec_matrix_name(self),
    {
        match self {
            Self::Bt601 => "bt601",
            Self::Bt709 => "bt709",
            Self::Bt2020 => "bt2020",
        }
    }
}

/// Parsing the name of a matrix gives the matrix back.
pub proof fn lemma_matrix_name_roundtrip(m: Matrix)
    ensures
        spec_matrix_parse(spec_matrix_name(m)) == m,
{
    reveal_strlit("bt601");
    reveal_strlit("bt709");
    reveal_strlit("bt2020");
    assert("bt709"@[2] != "bt601"@[2]);
    assert("bt709"@.len() != "bt2020"@.len());
    assert("bt2020"@.len() != "bt601"@.len());
}

/// The matrix that a GStreamer `colorimetry` field names, compared without
/// regard to ASCII case: BT.601 for `bt601`, `smpte170m` or `bt470`, else
/// BT.2020 for `bt2020` or `bt2100`, else BT.709.
pub open spec fn spec_matrix_from_colorimetry(c: Seq<char>) -> Matrix {
    let s = ascii_lowercase(c);
    if contains_seq(s, "bt601"@) || contains_seq(s, "smpte170m"@) || contains_seq(s, "bt470"@) {
        Matrix::Bt601
    } else if contains_seq(s, "bt2020"@) || contains_seq(s, "bt2100"@) {
        Matrix::Bt2020
    } else {
        Matrix::Bt709
    }
}

/// Whether a GStreamer `colorimetry` field names full range, compared without
/// regard to ASCII case: it holds `1:` or `full`.
pub open spec fn spec_full_range_from_colorimetry(c: Seq<char>) -> bool {
    let s = ascii_lowercase(c);
    contains_seq(s, "1:"@) || contains_seq(s, "full"@)
}

/// Guess a matrix from a GStreamer `colorimetry` field. Unknown → BT.709.
pub fn matrix_from_colorimetry(colorimetry: &str) -> (r: Matrix)
    ensures
        r == spec_matrix_from_colorimetry(colorimetry@),
{
    let s = to_ascii_lowercase(colorimetry);
    if contains(&s, "bt601") || contains(&s, "smpte170m") || contains(&s, "bt470") {
        Matrix::Bt601
    } else if contains(&s, "bt2020") || contains(&s, "bt2100") {
        Matrix::Bt2020
    } else {
        Matrix::Bt709
    }
}

/// Guess limited vs full from a GStreamer `colorimetry` field.
pub fn full_range_from_colorimetry(colorimetry: &str) -> (r: bool)
    ensures
        r == spec_full_range_from_colorimetry(colorimetry@),
{
    let s = to_ascii_lowercase(colorimetry);
    contains(&s, "1:") || contains(&s, "full")
}

/// The colorimetry guesses look for a name anywhere in the field, without
/// regard to ASCII case: a field with `bt601`, `smpte170m` or `bt470` in it
/// selects BT.601; one with `bt2020` or `bt2100` in it (such as `bt2020-10`)
/// and none of those selects BT.2020; one with `full` or `1:` in it is full
/// range. `name` occurs at position `i` of the lower-cased field.
pub proof fn lemma_colorimetry_names_anywhere(c: Seq<char>, i: int, name: Seq<char>)
    requires
        0 <= i,
        i + name.len() <= c.len(),
        ascii_lowercase(c).subrange(i, i + name.len()) == name,
    ensures
        (name == "bt601"@ || name == "smpte170m"@ || name == "bt470"@) ==> spec_matrix_from_colorimetry(c)
            == Matrix::Bt601,
        (name == "bt2020"@ || name == "bt2100"@) && !contains_seq(ascii_lowercase(c), "bt601"@)
            && !contains_seq(ascii_lowercase(c), "smpte170m"@) && !contains_seq(
            ascii_lowercase(c),
            "bt470"@,
        ) ==> spec_matrix_from_colorimetry(c) == Matrix::Bt2020,
        (name == "full"@ || name == "1:"@) ==> spec_full_range_from_colorimetry(c),
{
    assert(ascii_lowercase(c).len() == c.len());
    assert(contains_seq(ascii_lowercase(c), name));
}

/// The guesses do not depend on ASCII case: fields that are equal once lower
/// cased give the same matrix and range.
pub proof fn lemma_colorimetry_case_blind(c1: Seq<char>, c2: Seq<char>)
    requires
        ascii_lowercase(c1) == ascii_lowercase(c2),
    ensures
        spec_matrix_from_colorimetry(c1) == spec_matrix_from_colorimetry(c2),
        spec_full_range_from_colorimetry(c1) == spec_full_range_from_colorimetry(c2),
{
}

} // verus!

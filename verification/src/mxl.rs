//! Shared constants and enums for MXL input/output blocks.
use vstd::prelude::*;
use crate::text::str_eq;

verus! {

/// Default MXL domain directory (tmpfs namespace used by the MXL SDK).
pub const DEFAULT_MXL_DOMAIN: &'static str = "/dev/shm/mxl";

/// Block definition IDs.
pub const MXL_VIDEO_INPUT_ID: &'static str = "builtin.mxl_video_input";

pub const MXL_VIDEO_OUTPUT_ID: &'static str = "builtin.mxl_video_output";

pub const MXL_AUDIO_INPUT_ID: &'static str = "builtin.mxl_audio_input";

pub const MXL_AUDIO_OUTPUT_ID: &'static str = "builtin.mxl_audio_output";

/// Backend selection for MXL video blocks (`auto` / `gpu` / `cpu`).
#[derive(Debug, Clone, Copy, PartialEq, Eq, Structural)]
pub enum MxlVideoBackend {
    Auto,
    Gpu,
    Cpu,
}

impl Default for MxlVideoBackend {
    fn default() -> (r: Self)
        ensures
            r == MxlVideoBackend::Auto,
    {
        MxlVideoBackend::Auto
    }
}

/// The name of a backend.
pub open spec fn spec_backend_name(b: MxlVideoBackend) -> Seq<char> {
    match b {
        MxlVideoBackend::Auto => "auto"@,
        MxlVideoBackend::Gpu => "gpu"@,
        MxlVideoBackend::Cpu => "cpu"@,
    }
}

/// The backend a name selects: `gpu` and `cpu` select theirs, every other
/// name `Auto`.
pub open spec fn spec_backend_parse(s: Seq<char>) -> MxlVideoBackend {
    if s == "gpu"@ {
        MxlVideoBackend::Gpu
    } else if s == "cpu"@ {
        MxlVideoBackend::Cpu
    } else {
        MxlVideoBackend::Auto
    }
}

impl MxlVideoBackend {
    pub fn as_str(self) -> (r: &'static str)
        ensures
            r@ == spec_backend_name(self),
    {
        match self {
            Self::Auto => "auto",
            Self::Gpu => "gpu",
            Self::Cpu => "cpu",
        }
    }

    pub fn parse(s: &str) -> (r: Self)
        ensures
            r == spec_backend_parse(s@),
    {
        if str_eq(s, "gpu") {
            Self::Gpu
        } else if str_eq(s, "cpu") {
            Self::Cpu
        } else {
            Self::Auto
        }
    }
}

/// Parsing the name of a backend gives the backend back.
pub proof fn lemma_backend_name_roundtrip(b: MxlVideoBackend)
    ensures
        spec_backend_parse(spec_backend_name(b)) == b,
{
    reveal_strlit("auto");
    reveal_strlit("gpu");
    reveal_strlit("cpu");
    assert("auto"@.len() != "gpu"@.len());
    assert("auto"@.len() != "cpu"@.len());
    assert("cpu"@[0] != "gpu"@[0]);
}

/// Colorimetry override for the v210 GL elements.
#[derive(Debug, Clone, Copy, PartialEq, Eq, Structural)]
pub enum MxlColorimetry {
    Auto,
    Bt601,
    Bt709,
    Bt2020,
}

impl Default for MxlColorimetry {
    fn default() -> (r: Self)
        ensures
            r == MxlColorimetry::Auto,
    {
        MxlColorimetry::Auto
    }
}

/// The name of a colorimetry override.
pub open spec fn spec_colorimetry_name(c: MxlColorimetry) -> Seq<char> {
    match c {
        MxlColorimetry::Auto => "auto"@,
        MxlColorimetry::Bt601 => "bt601"@,
        MxlColorimetry::Bt709 => "bt709"@,
        MxlColorimetry::Bt2020 => "bt2020"@,
    }
}

/// The override a name selects: `bt601`, `bt2020` and `bt709` select theirs,
/// every other name `Auto`.
pub open spec fn spec_colorimetry_parse(s: Seq<char>) -> MxlColorimetry {
    if s == "bt601"@ {
        MxlColorimetry::Bt601
    } else if s == "bt2020"@ {
        MxlColorimetry::Bt2020
    } else if s == "bt709"@ {
        MxlColorimetry::Bt709
    } else {
        MxlColorimetry::Auto
    }
}

impl MxlColorimetry {
    pub fn as_str(self) -> (r: &'static str)
        ensures
            r@ == spec_colorimetry_name(self),
    {
        match self {
            Self::Auto => "auto",
            Self::Bt601 => "bt601",
            Self::Bt709 => "bt709",
            Self::Bt2020 => "bt2020",
        }
    }

    pub fn parse(s: &str) -> (r: Self)
        ensures
            r == spec_colorimetry_parse(s@),
    {
        if str_eq(s, "bt601") {
            Self::Bt601
        } else if str_eq(s, "bt2020") {
            Self::Bt2020
        } else if str_eq(s, "bt709") {
            Self::Bt709
        } else {
            Self::Auto
        }
    }
}

/// Parsing the name of a colorimetry override gives the override back.
pub proof fn lemma_colorimetry_name_roundtrip(c: MxlColorimetry)
    ensures
        spec_colorimetry_parse(spec_colorimetry_name(c)) == c,
{
    reveal_strlit("auto");
    reveal_strlit("bt601");
    reveal_strlit("bt709");
    reveal_strlit("bt2020");
    assert("bt709"@[2] != "bt601"@[2]);
    assert("bt709"@.len() != "bt2020"@.len());
    assert("bt2020"@.len() != "bt601"@.len());
    assert("auto"@.len() != "bt601"@.len());
    assert("auto"@.len() != "bt709"@.len());
    assert("auto"@.len() != "bt2020"@.len());
}

} // verus!

//! The palette entries of the MXL blocks: their exposed properties, defaults
//! and pads.
use vstd::prelude::*;
use crate::blocks::{
    input_only, output_only, pad, pm, ExternalPads, MediaType, MxlEnvironment,
    PadsModel, PropertyValue,
};
use crate::caps::opt_text;
use crate::mxl::{
    DEFAULT_MXL_DOMAIN, MXL_AUDIO_INPUT_ID, MXL_AUDIO_OUTPUT_ID, MXL_VIDEO_INPUT_ID,
    MXL_VIDEO_OUTPUT_ID,
};

verus! {

/// One choice of an enum property.
#[derive(Debug, Clone)]
pub struct EnumValue {
    pub value: String,
    pub label: Option<String>,
}

/// The kind of an exposed property.
#[derive(Debug, Clone)]
pub enum PropertyType {
    String,
    Bool,
    Enum { values: Vec<EnumValue> },
}

/// Where an exposed property goes: a property of an element of the block,
/// or (`_block`) the block itself.
#[derive(Debug, Clone)]
pub struct PropertyMapping {
    pub element_id: String,
    pub property_name: String,
    pub transform: Option<String>,
}

/// A property a block shows in the editor.
#[derive(Debug, Clone)]
pub struct ExposedProperty {
    pub name: String,
    pub label: String,
    pub description: String,
    pub property_type: PropertyType,
    pub default_value: Option<PropertyValue>,
    pub mapping: PropertyMapping,
    pub live: bool,
    pub persist: Option<bool>,
}

/// A palette entry.
#[derive(Debug, Clone)]
pub struct BlockDefinition {
    pub id: String,
    pub name: String,
    pub description: String,
    pub category: String,
    pub exposed_properties: Vec<ExposedProperty>,
    pub external_pads: ExternalPads,
    pub built_in: bool,
    pub icon: Option<String>,
}

/// The mathematical content of an [`EnumValue`].
pub struct EnumValueModel {
    pub value: Seq<char>,
    pub label: Option<Seq<char>>,
}

/// The mathematical content of a [`PropertyType`].
pub enum TypeModel {
    String,
    Bool,
    Enum(Seq<EnumValueModel>),
}

/// The mathematical content of a [`PropertyValue`].
pub enum ValueModel {
    String(Seq<char>),
    Bool(bool),
    Int(i64),
    UInt(u64),
    Other,
}

/// The mathematical content of an [`ExposedProperty`], its mapping
/// flattened.
pub struct ExposedModel {
    pub name: Seq<char>,
    pub label: Seq<char>,
    pub description: Seq<char>,
    pub property_type: TypeModel,
    pub default_value: Option<ValueModel>,
    pub mapping_element: Seq<char>,
    pub mapping_property: Seq<char>,
    pub mapping_transform: Option<Seq<char>>,
    pub live: bool,
    pub persist: Option<bool>,
}

/// The mathematical content of a [`BlockDefinition`].
pub struct DefinitionModel {
    pub id: Seq<char>,
    pub name: Seq<char>,
    pub description: Seq<char>,
    pub category: Seq<char>,
    pub exposed_properties: Seq<ExposedModel>,
    pub external_pads: PadsModel,
    pub built_in: bool,
    pub icon: Option<Seq<char>>,
}

impl View for EnumValue {
    type V = EnumValueModel;

    open spec fn view(&self) -> EnumValueModel {
        EnumValueModel { value: self.value@, label: opt_text(self.label) }
    }
}

impl View for PropertyType {
    type V = TypeModel;

    open spec fn view(&self) -> TypeModel {
        match self {
            PropertyType::String => TypeModel::String,
            PropertyType::Bool => TypeModel::Bool,
            PropertyType::Enum { values } => TypeModel::Enum(
                values@.map_values(|v: EnumValue| v@),
            ),
        }
    }
}

/// The content of a block property value.
pub open spec fn value_model(v: PropertyValue) -> ValueModel {
    match v {
        PropertyValue::String(s) => ValueModel::String(s@),
        PropertyValue::Bool(b) => ValueModel::Bool(b),
        PropertyValue::Int(i) => ValueModel::Int(i),
        PropertyValue::UInt(u) => ValueModel::UInt(u),
        PropertyValue::Other => ValueModel::Other,
    }
}

impl View for ExposedProperty {
    type V = ExposedModel;

    open spec fn view(&self) -> ExposedModel {
        ExposedModel {
            name: self.name@,
            label: self.label@,
            description: self.description@,
            property_type: self.property_type@,
            default_value: match self.default_value {
                Some(v) => Some(value_model(v)),
                None => None,
            },
            mapping_element: self.mapping.element_id@,
            mapping_property: self.mapping.property_name@,
            mapping_transform: opt_text(self.mapping.transform),
            live: self.live,
            persist: self.persist,
        }
    }
}

impl View for BlockDefinition {
    type V = DefinitionModel;

    open spec fn view(&self) -> DefinitionModel {
        DefinitionModel {
            id: self.id@,
            name: self.name@,
            description: self.description@,
            category: self.category@,
            exposed_properties: self.exposed_properties@.map_values(|p: ExposedProperty| p@),
            external_pads: self.external_pads@,
            built_in: self.built_in,
            icon: opt_text(self.icon),
        }
    }
}

/// A text property mapped onto a property of an element.
pub open spec fn spec_string_prop(name: Seq<char>, label: Seq<char>, description: Seq<char>, default: Seq<char>, element_id: Seq<char>, property_name: Seq<char>) -> ExposedModel {
    ExposedModel {
        name,
        label,
        description,
        property_type: TypeModel::String,
        default_value: Some(ValueModel::String(default)),
        mapping_element: element_id,
        mapping_property: property_name,
        mapping_transform: None,
        live: false,
        persist: None,
    }
}

/// A choice property that the block reads itself.
pub open spec fn spec_enum_prop(name: Seq<char>, label: Seq<char>, description: Seq<char>, default: Seq<char>, values: Seq<EnumValueModel>) -> ExposedModel {
    ExposedModel {
        name,
        label,
        description,
        property_type: TypeModel::Enum(values),
        default_value: Some(ValueModel::String(default)),
        mapping_element: "_block"@,
        mapping_property: name,
        mapping_transform: None,
        live: false,
        persist: None,
    }
}

/// A flag property that the block reads itself.
pub open spec fn spec_bool_prop(name: Seq<char>, label: Seq<char>, description: Seq<char>, default: bool) -> ExposedModel {
    ExposedModel {
        name,
        label,
        description,
        property_type: TypeModel::Bool,
        default_value: Some(ValueModel::Bool(default)),
        mapping_element: "_block"@,
        mapping_property: name,
        mapping_transform: None,
        live: false,
        persist: None,
    }
}

pub fn string_prop(name: &str, label: &str, description: &str, default: &str, element_id: &str, property_name: &str) -> (r: ExposedProperty)
    ensures
        r@ == spec_string_prop(name@, label@, description@, default@, element_id@, property_name@),
{
    ExposedProperty {
        name: name.to_owned(),
        label: label.to_owned(),
        description: description.to_owned(),
        property_type: PropertyType::String,
        default_value: Some(PropertyValue::String(default.to_owned())),
        mapping: PropertyMapping {
            element_id: element_id.to_owned(),
            property_name: property_name.to_owned(),
            transform: None,
        },
        live: false,
        persist: None,
    }
}

pub fn enum_prop(name: &str, label: &str, description: &str, default: &str, values: Vec<EnumValue>) -> (r: ExposedProperty)
    ensures
        r@ == spec_enum_prop(name@, label@, description@, default@, values@.map_values(|v: EnumValue| v@)),
{
    ExposedProperty {
        name: name.to_owned(),
        label: label.to_owned(),
        description: description.to_owned(),
        property_type: PropertyType::Enum { values },
        default_value: Some(PropertyValue::String(default.to_owned())),
        mapping: PropertyMapping {
            element_id: "_block".to_owned(),
            property_name: name.to_owned(),
            transform: None,
        },
        live: false,
        persist: None,
    }
}

pub fn bool_prop(name: &str, label: &str, description: &str, default: bool) -> (r: ExposedProperty)
    ensures
        r@ == spec_bool_prop(name@, label@, description@, default),
{
    ExposedProperty {
        name: name.to_owned(),
        label: label.to_owned(),
        description: description.to_owned(),
        property_type: PropertyType::Bool,
        default_value: Some(PropertyValue::Bool(default)),
        mapping: PropertyMapping {
            element_id: "_block".to_owned(),
            property_name: name.to_owned(),
            transform: None,
        },
        live: false,
        persist: None,
    }
}

/// A labelled choice.
pub open spec fn ev(value: Seq<char>, label: Seq<char>) -> EnumValueModel {
    EnumValueModel { value, label: Some(label) }
}

fn enum_value(value: &str, label: &str) -> (r: EnumValue)
    ensures
        r@ == ev(value@, label@),
{
    EnumValue { value: value.to_owned(), label: Some(label.to_owned()) }
}

/// The choices of the `backend` property.
pub open spec fn spec_backend_enum_values() -> Seq<EnumValueModel> {
    seq![
        ev("auto"@, "Auto (GPU first)"@),
        ev("gpu"@, "GPU (v210 GL, zero-copy into the mixer)"@),
        ev("cpu"@, "CPU (videoconvert)"@),
    ]
}

pub fn backend_enum_values() -> (r: Vec<EnumValue>)
    ensures
        r@.map_values(|v: EnumValue| v@) == spec_backend_enum_values(),
{
    let mut r: Vec<EnumValue> = Vec::new();
    r.push(enum_value("auto", "Auto (GPU first)"));
    r.push(enum_value("gpu", "GPU (v210 GL, zero-copy into the mixer)"));
    r.push(enum_value("cpu", "CPU (videoconvert)"));
    assert(r@.map_values(|v: EnumValue| v@) =~= spec_backend_enum_values());
    r
}

/// The choices of the `colorimetry_override` property.
pub open spec fn spec_colorimetry_enum_values() -> Seq<EnumValueModel> {
    seq![
        ev("auto"@, "Auto (caps, else BT.709)"@),
        ev("bt601"@, "BT.601"@),
        ev("bt709"@, "BT.709"@),
        ev("bt2020"@, "BT.2020"@),
    ]
}

pub fn colorimetry_enum_values() -> (r: Vec<EnumValue>)
    ensures
        r@.map_values(|v: EnumValue| v@) == spec_colorimetry_enum_values(),
{
    let mut r: Vec<EnumValue> = Vec::new();
    r.push(enum_value("auto", "Auto (caps, else BT.709)"));
    r.push(enum_value("bt601", "BT.601"));
    r.push(enum_value("bt709", "BT.709"));
    r.push(enum_value("bt2020", "BT.2020"));
    assert(r@.map_values(|v: EnumValue| v@) =~= spec_colorimetry_enum_values());
    r
}


/// The precision and format limits of the MXL video blocks.
pub open spec fn spec_video_precision_note() -> Seq<char> {
    "The vision mixer GL path composites in 8-bit RGBA, so a 10-bit v210 round-trip is not bit-exact. Interlaced MXL video is rejected — insert a deinterlace block on the CPU path if needed. Ancillary ST 2038 data is out of scope."@
}

pub fn video_precision_note() -> (r: &'static str)
    ensures
        r@ == spec_video_precision_note(),
{
    "The vision mixer GL path composites in 8-bit RGBA, so a 10-bit v210 round-trip is not bit-exact. Interlaced MXL video is rejected — insert a deinterlace block on the CPU path if needed. Ancillary ST 2038 data is out of scope."
}

/// A palette entry whose id names an MXL block and whose every exposed
/// property has a name and a default.
pub open spec fn has_valid_defaults(d: DefinitionModel) -> bool {
    &&& d.id.len() >= 12
    &&& d.id.take(12) == "builtin.mxl_"@
    &&& forall|i: int|
        0 <= i < d.exposed_properties.len() ==> (#[trigger] d.exposed_properties[i]).name.len() > 0
            && d.exposed_properties[i].default_value is Some
}

/// A palette entry whose `sync` and `async` properties both exist and
/// default to off.
pub open spec fn sink_clock_defaults_off(d: DefinitionModel) -> bool {
    &&& exists|i: int|
        0 <= i < d.exposed_properties.len() && (#[trigger] d.exposed_properties[i]).name == "sync"@
            && d.exposed_properties[i].default_value == Some(ValueModel::Bool(false))
    &&& exists|i: int|
        0 <= i < d.exposed_properties.len() && (#[trigger] d.exposed_properties[i]).name == "async"@
            && d.exposed_properties[i].default_value == Some(ValueModel::Bool(false))
}

/// The palette entry of the MXL Video Input block.
pub open spec fn spec_video_input_definition() -> DefinitionModel {
    DefinitionModel {
        id: "builtin.mxl_video_input"@,
        name: "MXL Video Input"@,
        description: "Reads an MXL video/v210 flow. GPU backend uploads via v210glupload (zero-copy proxy texture). "@ + spec_video_precision_note(),
        category: "Inputs"@,
        exposed_properties: seq![
            spec_string_prop("domain"@, "Domain"@, "Filesystem path of the MXL domain directory"@, "/dev/shm/mxl"@, "mxlsrc"@, "domain"@),
            spec_string_prop("video_flow_id"@, "Video Flow ID"@, "UUID of the MXL video flow to read"@, ""@, "mxlsrc"@, "video-flow-id"@),
            spec_enum_prop("backend"@, "Backend"@, "GPU (v210 GL), CPU (videoconvert), or auto"@, "auto"@, spec_backend_enum_values()),
            spec_enum_prop("colorimetry_override"@, "Colorimetry"@, "YCbCr matrix used by the GPU unpack shader"@, "auto"@, spec_colorimetry_enum_values()),
            spec_bool_prop("full_range"@, "Full range"@, "Treat YCbCr as full range (default is limited/narrow)"@, false),
        ],
        external_pads: PadsModel { inputs: seq![], outputs: seq![pm("video_out"@, MediaType::Video, "v210glupload"@, "src"@)] },
        built_in: true,
        icon: Some("🎞"@),
    }
}

pub fn video_input_definition() -> (r: BlockDefinition)
    ensures
        r@ == spec_video_input_definition(),
        has_valid_defaults(r@),
{
    let mut props: Vec<ExposedProperty> = Vec::new();
    props.push(string_prop("domain", "Domain", "Filesystem path of the MXL domain directory", "/dev/shm/mxl", "mxlsrc", "domain"));
    props.push(string_prop("video_flow_id", "Video Flow ID", "UUID of the MXL video flow to read", "", "mxlsrc", "video-flow-id"));
    props.push(enum_prop("backend", "Backend", "GPU (v210 GL), CPU (videoconvert), or auto", "auto", backend_enum_values()));
    props.push(enum_prop("colorimetry_override", "Colorimetry", "YCbCr matrix used by the GPU unpack shader", "auto", colorimetry_enum_values()));
    props.push(bool_prop("full_range", "Full range", "Treat YCbCr as full range (default is limited/narrow)", false));
    let description = {
        let mut d = "Reads an MXL video/v210 flow. GPU backend uploads via v210glupload (zero-copy proxy texture). ".to_owned();
        d.append(video_precision_note());
        d
    };
    let r = BlockDefinition {
        id: MXL_VIDEO_INPUT_ID.to_owned(),
        name: "MXL Video Input".to_owned(),
        description,
        category: "Inputs".to_owned(),
        exposed_properties: props,
        external_pads: output_only(pad("video_out", MediaType::Video, "v210glupload", "src")),
        built_in: true,
        icon: Some("🎞".to_owned()),
    };
    proof {
        reveal_strlit("builtin.mxl_video_input");
        reveal_strlit("builtin.mxl_");
        reveal_strlit("backend");
        reveal_strlit("colorimetry_override");
        reveal_strlit("domain");
        reveal_strlit("full_range");
        reveal_strlit("video_flow_id");
        assert(r@.exposed_properties =~= spec_video_input_definition().exposed_properties);
        assert(r@.external_pads.inputs =~= spec_video_input_definition().external_pads.inputs);
        assert(r@.external_pads.outputs =~= spec_video_input_definition().external_pads.outputs);
        assert(r@.id.take(12) =~= "builtin.mxl_"@);
    }
    r
}

/// The palette entry of the MXL Video Output block.
pub open spec fn spec_video_output_definition() -> DefinitionModel {
    DefinitionModel {
        id: "builtin.mxl_video_output"@,
        name: "MXL Video Output"@,
        description: "Writes a video/v210 MXL flow. GPU backend packs via v210gldownload. "@ + spec_video_precision_note(),
        category: "Outputs"@,
        exposed_properties: seq![
            spec_string_prop("domain"@, "Domain"@, "Filesystem path of the MXL domain directory"@, "/dev/shm/mxl"@, "mxlsink"@, "domain"@),
            spec_string_prop("flow_id"@, "Flow ID"@, "UUID of the MXL video flow to create"@, ""@, "mxlsink"@, "flow-id"@),
            spec_string_prop("label"@, "Label"@, "Optional flow_def label"@, ""@, "mxlsink"@, "label"@),
            spec_string_prop("description"@, "Description"@, "Optional flow_def description"@, ""@, "mxlsink"@, "description"@),
            spec_string_prop("group_hint"@, "Group hint"@, "Optional NMOS group hint (e.g. Camera:Video)"@, ""@, "mxlsink"@, "group-hint"@),
            spec_enum_prop("backend"@, "Backend"@, "GPU (v210 GL), CPU (videoconvert), or auto"@, "auto"@, spec_backend_enum_values()),
            spec_enum_prop("colorimetry_override"@, "Colorimetry"@, "YCbCr matrix used by the GPU pack shader"@, "auto"@, spec_colorimetry_enum_values()),
            spec_bool_prop("full_range"@, "Full range"@, "Encode YCbCr as full range (default is limited/narrow)"@, false),
            spec_bool_prop("sync"@, "Sync to clock"@, "BaseSink sync. Leave off for live MXL output — on (with async) deadlocks preroll, writes no grains, and leaks the flow directory"@, false),
            spec_bool_prop("async"@, "Async state change"@, "BaseSink async. Leave off so the pipeline can reach PLAYING without waiting for the first synced buffer"@, false),
        ],
        external_pads: PadsModel { inputs: seq![pm("video_in"@, MediaType::Video, "queue"@, "sink"@)], outputs: seq![] },
        built_in: true,
        icon: Some("📤"@),
    }
}

pub fn video_output_definition() -> (r: BlockDefinition)
    ensures
        r@ == spec_video_output_definition(),
        has_valid_defaults(r@),
        sink_clock_defaults_off(r@),
{
    let mut props: Vec<ExposedProperty> = Vec::new();
    props.push(string_prop("domain", "Domain", "Filesystem path of the MXL domain directory", "/dev/shm/mxl", "mxlsink", "domain"));
    props.push(string_prop("flow_id", "Flow ID", "UUID of the MXL video flow to create", "", "mxlsink", "flow-id"));
    props.push(string_prop("label", "Label", "Optional flow_def label", "", "mxlsink", "label"));
    props.push(string_prop("description", "Description", "Optional flow_def description", "", "mxlsink", "description"));
    props.push(string_prop("group_hint", "Group hint", "Optional NMOS group hint (e.g. Camera:Video)", "", "mxlsink", "group-hint"));
    props.push(enum_prop("backend", "Backend", "GPU (v210 GL), CPU (videoconvert), or auto", "auto", backend_enum_values()));
    props.push(enum_prop("colorimetry_override", "Colorimetry", "YCbCr matrix used by the GPU pack shader", "auto", colorimetry_enum_values()));
    props.push(bool_prop("full_range", "Full range", "Encode YCbCr as full range (default is limited/narrow)", false));
    props.push(bool_prop("sync", "Sync to clock", "BaseSink sync. Leave off for live MXL output — on (with async) deadlocks preroll, writes no grains, and leaks the flow directory", false));
    props.push(bool_prop("async", "Async state change", "BaseSink async. Leave off so the pipeline can reach PLAYING without waiting for the first synced buffer", false));
    let description = {
        let mut d = "Writes a video/v210 MXL flow. GPU backend packs via v210gldownload. ".to_owned();
        d.append(video_precision_note());
        d
    };
    let r = BlockDefinition {
        id: MXL_VIDEO_OUTPUT_ID.to_owned(),
        name: "MXL Video Output".to_owned(),
        description,
        category: "Outputs".to_owned(),
        exposed_properties: props,
        external_pads: input_only(pad("video_in", MediaType::Video, "queue", "sink")),
        built_in: true,
        icon: Some("📤".to_owned()),
    };
    proof {
        reveal_strlit("builtin.mxl_video_output");
        reveal_strlit("builtin.mxl_");
        reveal_strlit("async");
        reveal_strlit("backend");
        reveal_strlit("colorimetry_override");
        reveal_strlit("description");
        reveal_strlit("domain");
        reveal_strlit("flow_id");
        reveal_strlit("full_range");
        reveal_strlit("group_hint");
        reveal_strlit("label");
        reveal_strlit("sync");
        assert(r@.exposed_properties =~= spec_video_output_definition().exposed_properties);
        assert(r@.external_pads.inputs =~= spec_video_output_definition().external_pads.inputs);
        assert(r@.external_pads.outputs =~= spec_video_output_definition().external_pads.outputs);
        assert(r@.id.take(12) =~= "builtin.mxl_"@);
    }
    r
}

/// The palette entry of the MXL Audio Input block.
pub open spec fn spec_audio_input_definition() -> DefinitionModel {
    DefinitionModel {
        id: "builtin.mxl_audio_input"@,
        name: "MXL Audio Input"@,
        description: "Reads an MXL audio/float32 flow (F32LE). Channel count follows the flow; do not assume stereo."@,
        category: "Inputs"@,
        exposed_properties: seq![
            spec_string_prop("domain"@, "Domain"@, "Filesystem path of the MXL domain directory"@, "/dev/shm/mxl"@, "mxlsrc"@, "domain"@),
            spec_string_prop("audio_flow_id"@, "Audio Flow ID"@, "UUID of the MXL audio flow to read"@, ""@, "mxlsrc"@, "audio-flow-id"@),
        ],
        external_pads: PadsModel { inputs: seq![], outputs: seq![pm("audio_out"@, MediaType::Audio, "audioconvert"@, "src"@)] },
        built_in: true,
        icon: Some("🔊"@),
    }
}

pub fn audio_input_definition() -> (r: BlockDefinition)
    ensures
        r@ == spec_audio_input_definition(),
        has_valid_defaults(r@),
{
    let mut props: Vec<ExposedProperty> = Vec::new();
    props.push(string_prop("domain", "Domain", "Filesystem path of the MXL domain directory", "/dev/shm/mxl", "mxlsrc", "domain"));
    props.push(string_prop("audio_flow_id", "Audio Flow ID", "UUID of the MXL audio flow to read", "", "mxlsrc", "audio-flow-id"));
    let description = "Reads an MXL audio/float32 flow (F32LE). Channel count follows the flow; do not assume stereo.".to_owned();
    let r = BlockDefinition {
        id: MXL_AUDIO_INPUT_ID.to_owned(),
        name: "MXL Audio Input".to_owned(),
        description,
        category: "Inputs".to_owned(),
        exposed_properties: props,
        external_pads: output_only(pad("audio_out", MediaType::Audio, "audioconvert", "src")),
        built_in: true,
        icon: Some("🔊".to_owned()),
    };
    proof {
        reveal_strlit("builtin.mxl_audio_input");
        reveal_strlit("builtin.mxl_");
        reveal_strlit("audio_flow_id");
        reveal_strlit("domain");
        assert(r@.exposed_properties =~= spec_audio_input_definition().exposed_properties);
        assert(r@.external_pads.inputs =~= spec_audio_input_definition().external_pads.inputs);
        assert(r@.external_pads.outputs =~= spec_audio_input_definition().external_pads.outputs);
        assert(r@.id.take(12) =~= "builtin.mxl_"@);
    }
    r
}

/// The palette entry of the MXL Audio Output block.
pub open spec fn spec_audio_output_definition() -> DefinitionModel {
    DefinitionModel {
        id: "builtin.mxl_audio_output"@,
        name: "MXL Audio Output"@,
        description: "Writes an MXL audio/float32 flow (F32LE). Channel count follows the incoming caps."@,
        category: "Outputs"@,
        exposed_properties: seq![
            spec_string_prop("domain"@, "Domain"@, "Filesystem path of the MXL domain directory"@, "/dev/shm/mxl"@, "mxlsink"@, "domain"@),
            spec_string_prop("flow_id"@, "Flow ID"@, "UUID of the MXL audio flow to create"@, ""@, "mxlsink"@, "flow-id"@),
            spec_string_prop("label"@, "Label"@, "Optional flow_def label"@, ""@, "mxlsink"@, "label"@),
            spec_string_prop("description"@, "Description"@, "Optional flow_def description"@, ""@, "mxlsink"@, "description"@),
            spec_string_prop("group_hint"@, "Group hint"@, "Optional NMOS group hint (e.g. Mixer:Audio)"@, ""@, "mxlsink"@, "group-hint"@),
            spec_bool_prop("sync"@, "Sync to clock"@, "BaseSink sync. Leave off for live MXL output — on (with async) deadlocks preroll, writes no grains, and leaks the flow directory"@, false),
            spec_bool_prop("async"@, "Async state change"@, "BaseSink async. Leave off so the pipeline can reach PLAYING without waiting for the first synced buffer"@, false),
        ],
        external_pads: PadsModel { inputs: seq![pm("audio_in"@, MediaType::Audio, "queue"@, "sink"@)], outputs: seq![] },
        built_in: true,
        icon: Some("📤"@),
    }
}

pub fn audio_output_definition() -> (r: BlockDefinition)
    ensures
        r@ == spec_audio_output_definition(),
        has_valid_defaults(r@),
        sink_clock_defaults_off(r@),
{
    let mut props: Vec<ExposedProperty> = Vec::new();
    props.push(string_prop("domain", "Domain", "Filesystem path of the MXL domain directory", "/dev/shm/mxl", "mxlsink", "domain"));
    props.push(string_prop("flow_id", "Flow ID", "UUID of the MXL audio flow to create", "", "mxlsink", "flow-id"));
    props.push(string_prop("label", "Label", "Optional flow_def label", "", "mxlsink", "label"));
    props.push(string_prop("description", "Description", "Optional flow_def description", "", "mxlsink", "description"));
    props.push(string_prop("group_hint", "Group hint", "Optional NMOS group hint (e.g. Mixer:Audio)", "", "mxlsink", "group-hint"));
    props.push(bool_prop("sync", "Sync to clock", "BaseSink sync. Leave off for live MXL output — on (with async) deadlocks preroll, writes no grains, and leaks the flow directory", false));
    props.push(bool_prop("async", "Async state change", "BaseSink async. Leave off so the pipeline can reach PLAYING without waiting for the first synced buffer", false));
    let description = "Writes an MXL audio/float32 flow (F32LE). Channel count follows the incoming caps.".to_owned();
    let r = BlockDefinition {
        id: MXL_AUDIO_OUTPUT_ID.to_owned(),
        name: "MXL Audio Output".to_owned(),
        description,
        category: "Outputs".to_owned(),
        exposed_properties: props,
        external_pads: input_only(pad("audio_in", MediaType::Audio, "queue", "sink")),
        built_in: true,
        icon: Some("📤".to_owned()),
    };
    proof {
        reveal_strlit("builtin.mxl_audio_output");
        reveal_strlit("builtin.mxl_");
        reveal_strlit("async");
        reveal_strlit("description");
        reveal_strlit("domain");
        reveal_strlit("flow_id");
        reveal_strlit("group_hint");
        reveal_strlit("label");
        reveal_strlit("sync");
        assert(r@.exposed_properties =~= spec_audio_output_definition().exposed_properties);
        assert(r@.external_pads.inputs =~= spec_audio_output_definition().external_pads.inputs);
        assert(r@.external_pads.outputs =~= spec_audio_output_definition().external_pads.outputs);
        assert(r@.id.take(12) =~= "builtin.mxl_"@);
    }
    r
}

/// The MXL palette: empty unless MXL is available, else the video input,
/// video output, audio input and audio output entries.
pub fn get_blocks(env: &MxlEnvironment) -> (r: Vec<BlockDefinition>)
    ensures
        !env.mxl_available ==> r@.len() == 0,
        env.mxl_available ==> r@.map_values(|d: BlockDefinition| d@) == seq![
            spec_video_input_definition(),
            spec_video_output_definition(),
            spec_audio_input_definition(),
            spec_audio_output_definition(),
        ],
{
    let mut r: Vec<BlockDefinition> = Vec::new();
    if !env.mxl_available {
        return r;
    }
    r.push(video_input_definition());
    r.push(video_output_definition());
    r.push(audio_input_definition());
    r.push(audio_output_definition());
    assert(r@.map_values(|d: BlockDefinition| d@) =~= seq![
        spec_video_input_definition(),
        spec_video_output_definition(),
        spec_audio_input_definition(),
        spec_audio_output_definition(),
    ]);
    r
}

} // verus!

//! MXL (Media eXchange Layer) input and output blocks: how their properties
//! are read, which video backend they use, and which elements and links they
//! are built from.
//!
//! Video blocks share a `backend` property (`auto` / `gpu` / `cpu`):
//! - GPU: `mxlsrc → queue → v210glupload` and `queue → v210gldownload → mxlsink`
//! - CPU: `videoconvert` instead of the v210 GL elements
//!
//! Audio is a separate pair — MXL audio is F32LE and needs no GPU path.
//! Interlaced v210 is rejected.
use vstd::prelude::*;
use crate::mxl::{
    spec_backend_parse, spec_colorimetry_parse, MxlColorimetry, MxlVideoBackend,
};
use crate::caps::{raw_template, v210_caps, CapsModel, VideoCaps};
use crate::mxl::{spec_colorimetry_name, DEFAULT_MXL_DOMAIN};
use crate::text::str_eq;

verus! {

/// A block property value.
#[derive(Debug, Clone)]
pub enum PropertyValue {
    String(String),
    Bool(bool),
    Int(i64),
    UInt(u64),
    /// A value of a kind the MXL blocks never read.
    Other,
}

/// The properties a block instance was configured with, by name. Names are
/// unique; a lookup finds the first entry of a name.
#[derive(Debug, Clone)]
pub struct BlockProperties {
    pub entries: Vec<(String, PropertyValue)>,
}

/// The value stored under `name`, if any.
pub open spec fn spec_lookup(entries: Seq<(String, PropertyValue)>, name: Seq<char>) -> Option<PropertyValue>
    decreases entries.len(),
{
    if entries.len() == 0 {
        None
    } else if entries[0].0@ == name {
        Some(entries[0].1)
    } else {
        spec_lookup(entries.drop_first(), name)
    }
}

proof fn lemma_lookup_skip(entries: Seq<(String, PropertyValue)>, name: Seq<char>, i: int)
    requires
        0 <= i <= entries.len(),
        forall|j: int| 0 <= j < i ==> #[trigger] entries[j].0@ != name,
    ensures
        spec_lookup(entries, name) == spec_lookup(entries.skip(i), name),
    decreases i,
{
    if i > 0 {
        assert(entries.skip(1) =~= entries.drop_first());
        lemma_lookup_skip(entries.drop_first(), name, i - 1);
        assert(entries.drop_first().skip(i - 1) =~= entries.skip(i));
    } else {
        assert(entries.skip(0) =~= entries);
    }
}

impl BlockProperties {
    /// The value stored under `name`, if any.
    pub fn get(&self, name: &str) -> (r: Option<&PropertyValue>)
        ensures
            match r {
                Some(v) => spec_lookup(self.entries@, name@) == Some(*v),
                None => spec_lookup(self.entries@, name@) is None,
            },
    {
        let mut i: usize = 0;
        while i < self.entries.len()
            invariant
                0 <= i <= self.entries@.len(),
                forall|j: int| 0 <= j < i ==> #[trigger] self.entries@[j].0@ != name@,
            decreases self.entries@.len() - i,
        {
            if str_eq(self.entries[i].0.as_str(), name) {
                proof {
                    lemma_lookup_skip(self.entries@, name@, i as int);
                    assert(self.entries@.skip(i as int)[0] == self.entries@[i as int]);
                }
                return Some(&self.entries[i].1);
            }
            i += 1;
        }
        proof {
            lemma_lookup_skip(self.entries@, name@, i as int);
        }
        None
    }
}

/// The text stored under `name`, else `default`.
pub open spec fn spec_text_prop(entries: Seq<(String, PropertyValue)>, name: Seq<char>, default: Seq<char>) -> Seq<char> {
    match spec_lookup(entries, name) {
        Some(PropertyValue::String(s)) => s@,
        _ => default,
    }
}

/// The flag stored under `name`, else `default`.
pub open spec fn spec_bool_prop(entries: Seq<(String, PropertyValue)>, name: Seq<char>, default: bool) -> bool {
    match spec_lookup(entries, name) {
        Some(PropertyValue::Bool(b)) => b,
        _ => default,
    }
}

/// The backend the `backend` property selects (`Auto` when it is not text).
pub open spec fn spec_backend_prop(entries: Seq<(String, PropertyValue)>) -> MxlVideoBackend {
    match spec_lookup(entries, "backend"@) {
        Some(PropertyValue::String(s)) => spec_backend_parse(s@),
        _ => MxlVideoBackend::Auto,
    }
}

/// The override the `colorimetry_override` property selects (`Auto` when it
/// is not text).
pub open spec fn spec_colorimetry_prop(entries: Seq<(String, PropertyValue)>) -> MxlColorimetry {
    match spec_lookup(entries, "colorimetry_override"@) {
        Some(PropertyValue::String(s)) => spec_colorimetry_parse(s@),
        _ => MxlColorimetry::Auto,
    }
}

pub fn parse_backend(properties: &BlockProperties) -> (r: MxlVideoBackend)
    ensures
        r == spec_backend_prop(properties.entries@),
{
    match properties.get("backend") {
        Some(PropertyValue::String(s)) => MxlVideoBackend::parse(s.as_str()),
        _ => MxlVideoBackend::Auto,
    }
}

pub fn parse_string<'a>(properties: &'a BlockProperties, name: &str, default: &'a str) -> (r: &'a str)
    ensures
        r@ == spec_text_prop(properties.entries@, name@, default@),
{
    match properties.get(name) {
        Some(PropertyValue::String(s)) => s.as_str(),
        _ => default,
    }
}

pub fn parse_bool(properties: &BlockProperties, name: &str, default: bool) -> (r: bool)
    ensures
        r == spec_bool_prop(properties.entries@, name@, default),
{
    match properties.get(name) {
        Some(PropertyValue::Bool(b)) => *b,
        _ => default,
    }
}

pub fn parse_colorimetry(properties: &BlockProperties) -> (r: MxlColorimetry)
    ensures
        r == spec_colorimetry_prop(properties.entries@),
{
    match properties.get("colorimetry_override") {
        Some(PropertyValue::String(s)) => MxlColorimetry::parse(s.as_str()),
        _ => MxlColorimetry::Auto,
    }
}

/// Why a block could not be built.
#[derive(Debug, Clone)]
pub enum BlockBuildError {
    InvalidConfiguration(String),
    ElementCreation(String),
}

/// What the running system offers the MXL blocks.
#[derive(Debug, Clone, Copy, PartialEq, Eq)]
pub struct MxlEnvironment {
    /// Both `mxlsrc` and `mxlsink` are registered.
    pub mxl_available: bool,
    /// `v210glupload`, `v210gldownload` and `glupload` are registered.
    pub has_gl_elements: bool,
    /// A hardware GL stack is present.
    pub has_hardware_gl: bool,
}

/// The backend a video block uses for a preference: GPU when asked for and
/// possible (else no backend), CPU when asked for, and for `Auto` GPU when
/// possible, else CPU.
pub open spec fn spec_select_video_backend(preference: MxlVideoBackend, env: MxlEnvironment) -> Option<MxlVideoBackend> {
    let gpu = env.has_gl_elements && env.has_hardware_gl;
    match preference {
        MxlVideoBackend::Gpu => if gpu {
            Some(MxlVideoBackend::Gpu)
        } else {
            None
        },
        MxlVideoBackend::Cpu => Some(MxlVideoBackend::Cpu),
        MxlVideoBackend::Auto => if gpu {
            Some(MxlVideoBackend::Gpu)
        } else {
            Some(MxlVideoBackend::Cpu)
        },
    }
}

pub fn select_video_backend(preference: MxlVideoBackend, env: &MxlEnvironment) -> (r: Result<MxlVideoBackend, BlockBuildError>)
    ensures
        match spec_select_video_backend(preference, *env) {
            Some(b) => r == Ok::<MxlVideoBackend, BlockBuildError>(b),
            None => r matches Err(BlockBuildError::InvalidConfiguration(m)) && m@
                == "GPU backend requested but hardware GL or v210glupload/v210gldownload is unavailable"@,
        },
{
    let gpu = env.has_gl_elements && env.has_hardware_gl;
    match preference {
        MxlVideoBackend::Gpu => {
            if gpu {
                Ok(MxlVideoBackend::Gpu)
            } else {
                Err(
                    BlockBuildError::InvalidConfiguration(
                        "GPU backend requested but hardware GL or v210glupload/v210gldownload is unavailable".to_owned(),
                    ),
                )
            }
        },
        MxlVideoBackend::Cpu => Ok(MxlVideoBackend::Cpu),
        MxlVideoBackend::Auto => {
            if gpu {
                Ok(MxlVideoBackend::Gpu)
            } else {
                Ok(MxlVideoBackend::Cpu)
            }
        },
    }
}

/// Live MXL output must not preroll against the pipeline clock: the BaseSink
/// `sync` and `async` flags a sink gets, from the `sync` and `async`
/// properties, each off unless set.
pub fn mxl_sink_clock(properties: &BlockProperties) -> (r: (bool, bool))
    ensures
        r.0 == spec_bool_prop(properties.entries@, "sync"@, false),
        r.1 == spec_bool_prop(properties.entries@, "async"@, false),
{
    let sync = parse_bool(properties, "sync", false);
    let async_state = parse_bool(properties, "async", false);
    (sync, async_state)
}


/// Unless the `sync` (or `async`) property is set on, the sink's flag is off.
pub proof fn lemma_sink_clock_off_unless_set(entries: Seq<(String, PropertyValue)>, name: Seq<char>)
    ensures
        spec_bool_prop(entries, name, false) <==> spec_lookup(entries, name) == Some(
            PropertyValue::Bool(true),
        ),
{
}

/// One property to set on an element of a block.
#[derive(Debug, Clone)]
pub enum ElementSetting {
    /// Set a text property if the element has a property of that name.
    TextIfPresent(&'static str, String),
    /// Set a text property.
    Text(&'static str, String),
    /// Set a flag property.
    Flag(&'static str, bool),
    /// Set a caps property.
    Caps(&'static str, VideoCaps),
    /// Set the sink's `sync` and `async` flags through the BaseSink API.
    SinkClock(bool, bool),
}

/// The mathematical content of an [`ElementSetting`].
pub enum SettingModel {
    TextIfPresent(Seq<char>, Seq<char>),
    Text(Seq<char>, Seq<char>),
    Flag(Seq<char>, bool),
    Caps(Seq<char>, CapsModel),
    SinkClock(bool, bool),
}

impl View for ElementSetting {
    type V = SettingModel;

    open spec fn view(&self) -> SettingModel {
        match self {
            ElementSetting::TextIfPresent(p, v) => SettingModel::TextIfPresent(p@, v@),
            ElementSetting::Text(p, v) => SettingModel::Text(p@, v@),
            ElementSetting::Flag(p, v) => SettingModel::Flag(p@, *v),
            ElementSetting::Caps(p, c) => SettingModel::Caps(p@, c@),
            ElementSetting::SinkClock(a, b) => SettingModel::SinkClock(*a, *b),
        }
    }
}

/// An element of a block: its name, the factory that makes it and the
/// properties to set on it, in order.
#[derive(Debug, Clone)]
pub struct ElementPlan {
    pub id: String,
    pub factory: &'static str,
    pub settings: Vec<ElementSetting>,
}

/// The mathematical content of an [`ElementPlan`].
pub struct ElementModel {
    pub id: Seq<char>,
    pub factory: Seq<char>,
    pub settings: Seq<SettingModel>,
}

impl View for ElementPlan {
    type V = ElementModel;

    open spec fn view(&self) -> ElementModel {
        ElementModel {
            id: self.id@,
            factory: self.factory@,
            settings: self.settings@.map_values(|s: ElementSetting| s@),
        }
    }
}

/// A link from a pad of one element of a block to a pad of another.
#[derive(Debug, Clone)]
pub struct PadLink {
    pub from_element: String,
    pub from_pad: &'static str,
    pub to_element: String,
    pub to_pad: &'static str,
}

/// The mathematical content of a [`PadLink`].
pub struct LinkModel {
    pub from_element: Seq<char>,
    pub from_pad: Seq<char>,
    pub to_element: Seq<char>,
    pub to_pad: Seq<char>,
}

impl View for PadLink {
    type V = LinkModel;

    open spec fn view(&self) -> LinkModel {
        LinkModel {
            from_element: self.from_element@,
            from_pad: self.from_pad@,
            to_element: self.to_element@,
            to_pad: self.to_pad@,
        }
    }
}

/// The elements a block is built from, in order, and the links inside it.
#[derive(Debug, Clone)]
pub struct BlockPlan {
    pub elements: Vec<ElementPlan>,
    pub internal_links: Vec<PadLink>,
}

/// The mathematical content of a [`BlockPlan`].
pub struct PlanModel {
    pub elements: Seq<ElementModel>,
    pub links: Seq<LinkModel>,
}

impl View for BlockPlan {
    type V = PlanModel;

    open spec fn view(&self) -> PlanModel {
        PlanModel {
            elements: self.elements@.map_values(|e: ElementPlan| e@),
            links: self.internal_links@.map_values(|l: PadLink| l@),
        }
    }
}

/// The name of the element `suffix` of block instance `instance_id`.
pub open spec fn element_id(instance_id: Seq<char>, suffix: Seq<char>) -> Seq<char> {
    instance_id + ":"@ + suffix
}

/// An element model.
pub open spec fn em(id: Seq<char>, factory: Seq<char>, settings: Seq<SettingModel>) -> ElementModel {
    ElementModel { id, factory, settings }
}

/// A link model.
pub open spec fn lm(from_element: Seq<char>, from_pad: Seq<char>, to_element: Seq<char>, to_pad: Seq<char>) -> LinkModel {
    LinkModel { from_element, from_pad, to_element, to_pad }
}

fn join_id(instance_id: &str, suffix: &str) -> (r: String)
    ensures
        r@ == element_id(instance_id@, suffix@),
{
    let mut s = instance_id.to_owned();
    s.append(":");
    s.append(suffix);
    s
}

fn element(id: &String, factory: &'static str, settings: Vec<ElementSetting>) -> (r: ElementPlan)
    ensures
        r@ == em(id@, factory@, settings@.map_values(|s: ElementSetting| s@)),
{
    ElementPlan { id: id.clone(), factory, settings }
}

fn link(from_element: &String, from_pad: &'static str, to_element: &String, to_pad: &'static str) -> (r: PadLink)
    ensures
        r@ == lm(from_element@, from_pad@, to_element@, to_pad@),
{
    PadLink { from_element: from_element.clone(), from_pad, to_element: to_element.clone(), to_pad }
}

/// The text of the error for a system without the MXL elements.
pub open spec fn mxl_missing_message() -> Seq<char> {
    "mxlsrc/mxlsink not available — install the MXL SDK and gstmxl plugin"@
}

fn mxl_missing() -> (r: BlockBuildError)
    ensures
        r matches BlockBuildError::ElementCreation(m) && m@ == mxl_missing_message(),
{
    BlockBuildError::ElementCreation(
        "mxlsrc/mxlsink not available — install the MXL SDK and gstmxl plugin".to_owned(),
    )
}

/// The mathematical content of a build result: the plan, or the error's text
/// (an invalid configuration or an element that cannot be created).
pub enum BuildModel {
    Plan(PlanModel),
    InvalidConfiguration(Seq<char>),
    ElementCreation(Seq<char>),
}

/// The content of a build result.
pub open spec fn build_view(r: Result<BlockPlan, BlockBuildError>) -> BuildModel {
    match r {
        Ok(p) => BuildModel::Plan(p@),
        Err(BlockBuildError::InvalidConfiguration(m)) => BuildModel::InvalidConfiguration(m@),
        Err(BlockBuildError::ElementCreation(m)) => BuildModel::ElementCreation(m@),
    }
}

/// The text of the error for a GPU backend that cannot be had.
pub open spec fn gpu_unavailable_message() -> Seq<char> {
    "GPU backend requested but hardware GL or v210glupload/v210gldownload is unavailable"@
}

/// The colour settings a v210 GL bin of a video block gets: the override
/// unless it is `auto`, then the range.
pub open spec fn spec_gl_color_settings(colorimetry: MxlColorimetry, full_range: bool) -> Seq<SettingModel> {
    if colorimetry != MxlColorimetry::Auto {
        seq![
            SettingModel::Text("colorimetry-override"@, spec_colorimetry_name(colorimetry)),
            SettingModel::Flag("full-range"@, full_range),
        ]
    } else {
        seq![SettingModel::Flag("full-range"@, full_range)]
    }
}

fn gl_color_settings(colorimetry: MxlColorimetry, full_range: bool) -> (r: Vec<ElementSetting>)
    ensures
        r@.map_values(|s: ElementSetting| s@) == spec_gl_color_settings(colorimetry, full_range),
{
    let mut r: Vec<ElementSetting> = Vec::new();
    if colorimetry != MxlColorimetry::Auto {
        r.push(ElementSetting::Text("colorimetry-override", colorimetry.as_str().to_owned()));
    }
    r.push(ElementSetting::Flag("full-range", full_range));
    assert(r@.map_values(|s: ElementSetting| s@) =~= spec_gl_color_settings(colorimetry, full_range));
    r
}

/// The plan of an MXL video input: `mxlsrc → queue → capsfilter` (v210,
/// progressive), then `v210glupload` with the colour settings on the GPU
/// backend or `videoconvert` otherwise.
pub open spec fn spec_video_input_plan(id: Seq<char>, entries: Seq<(String, PropertyValue)>, backend: MxlVideoBackend) -> PlanModel {
    let src = element_id(id, "mxlsrc"@);
    let q = element_id(id, "queue"@);
    let cf = element_id(id, "progressive"@);
    let last = if backend == MxlVideoBackend::Gpu {
        em(
            element_id(id, "v210glupload"@),
            "v210glupload"@,
            spec_gl_color_settings(
                spec_colorimetry_prop(entries),
                spec_bool_prop(entries, "full_range"@, false),
            ),
        )
    } else {
        em(element_id(id, "videoconvert"@), "videoconvert"@, seq![])
    };
    PlanModel {
        elements: seq![
            em(
                src,
                "mxlsrc"@,
                seq![
                    SettingModel::TextIfPresent(
                        "domain"@,
                        spec_text_prop(entries, "domain"@, "/dev/shm/mxl"@),
                    ),
                    SettingModel::TextIfPresent(
                        "video-flow-id"@,
                        spec_text_prop(entries, "video_flow_id"@, ""@),
                    ),
                ],
            ),
            em(q, "queue"@, seq![]),
            em(cf, "capsfilter"@, seq![SettingModel::Caps("caps"@, raw_template("v210"@, false))]),
            last,
        ],
        links: seq![
            lm(src, "src"@, q, "sink"@),
            lm(q, "src"@, cf, "sink"@),
            lm(cf, "src"@, last.id, "sink"@),
        ],
    }
}

/// What building a video block gives, from whether MXL is available, the
/// backend selection, and the plan for the selected backend.
pub open spec fn spec_video_build(env: MxlEnvironment, entries: Seq<(String, PropertyValue)>, plan: spec_fn(MxlVideoBackend) -> PlanModel) -> BuildModel {
    if !env.mxl_available {
        BuildModel::ElementCreation(mxl_missing_message())
    } else {
        match spec_select_video_backend(spec_backend_prop(entries), env) {
            Some(b) => BuildModel::Plan(plan(b)),
            None => BuildModel::InvalidConfiguration(gpu_unavailable_message()),
        }
    }
}

/// MXL Video Input.
pub struct MxlVideoInputBuilder;

impl MxlVideoInputBuilder {
    pub fn build(&self, instance_id: &str, properties: &BlockProperties, env: &MxlEnvironment) -> (r: Result<BlockPlan, BlockBuildError>)
        ensures
            build_view(r) == spec_video_build(
                *env,
                properties.entries@,
                |b: MxlVideoBackend| spec_video_input_plan(instance_id@, properties.entries@, b),
            ),
    {
        if !env.mxl_available {
            return Err(mxl_missing());
        }
        let backend = match select_video_backend(parse_backend(properties), env) {
            Ok(b) => b,
            Err(e) => return Err(e),
        };
        let domain = parse_string(properties, "domain", DEFAULT_MXL_DOMAIN);
        let flow_id = parse_string(properties, "video_flow_id", "");
        let colorimetry = parse_colorimetry(properties);
        let full_range = parse_bool(properties, "full_range", false);

        let src_id = join_id(instance_id, "mxlsrc");
        let mut src_settings: Vec<ElementSetting> = Vec::new();
        src_settings.push(ElementSetting::TextIfPresent("domain", domain.to_owned()));
        src_settings.push(ElementSetting::TextIfPresent("video-flow-id", flow_id.to_owned()));
        assert(src_settings@.map_values(|s: ElementSetting| s@) =~= seq![
            SettingModel::TextIfPresent("domain"@, domain@),
            SettingModel::TextIfPresent("video-flow-id"@, flow_id@),
        ]);
        let q_id = join_id(instance_id, "queue");
        let cf_id = join_id(instance_id, "progressive");
        let mut cf_settings: Vec<ElementSetting> = Vec::new();
        cf_settings.push(ElementSetting::Caps("caps", v210_caps()));
        assert(cf_settings@.map_values(|s: ElementSetting| s@) =~= seq![
            SettingModel::Caps("caps"@, raw_template("v210"@, false)),
        ]);
        let no_settings: Vec<ElementSetting> = Vec::new();
        assert(no_settings@.map_values(|s: ElementSetting| s@) =~= Seq::<SettingModel>::empty());

        let mut elements: Vec<ElementPlan> = Vec::new();
        elements.push(element(&src_id, "mxlsrc", src_settings));
        elements.push(element(&q_id, "queue", no_settings));
        elements.push(element(&cf_id, "capsfilter", cf_settings));
        let mut links: Vec<PadLink> = Vec::new();
        links.push(link(&src_id, "src", &q_id, "sink"));
        links.push(link(&q_id, "src", &cf_id, "sink"));

        match backend {
            MxlVideoBackend::Gpu => {
                let up_id = join_id(instance_id, "v210glupload");
                elements.push(element(&up_id, "v210glupload", gl_color_settings(colorimetry, full_range)));
                links.push(link(&cf_id, "src", &up_id, "sink"));
            },
            _ => {
                let conv_id = join_id(instance_id, "videoconvert");
                let none: Vec<ElementSetting> = Vec::new();
                assert(none@.map_values(|s: ElementSetting| s@) =~= Seq::<SettingModel>::empty());
                elements.push(element(&conv_id, "videoconvert", none));
                links.push(link(&cf_id, "src", &conv_id, "sink"));
            },
        }
        let r = BlockPlan { elements, internal_links: links };
        proof {
            reveal_strlit("/dev/shm/mxl");
            let spec = spec_video_input_plan(instance_id@, properties.entries@, backend);
            assert(r@.elements =~= spec.elements);
            assert(r@.links =~= spec.links);
        }
        Ok(r)
    }
}


fn no_settings() -> (r: Vec<ElementSetting>)
    ensures
        r@.map_values(|s: ElementSetting| s@) == Seq::<SettingModel>::empty(),
{
    let r: Vec<ElementSetting> = Vec::new();
    assert(r@.map_values(|s: ElementSetting| s@) =~= Seq::<SettingModel>::empty());
    r
}

/// A text property set only when the text is not empty.
pub open spec fn optional_text(property: Seq<char>, value: Seq<char>) -> Seq<SettingModel> {
    if value.len() == 0 {
        seq![]
    } else {
        seq![SettingModel::TextIfPresent(property, value)]
    }
}

/// The settings of an `mxlsink`: domain and flow, the label, description and
/// group hint when not empty, and the clock flags.
pub open spec fn spec_sink_settings(entries: Seq<(String, PropertyValue)>) -> Seq<SettingModel> {
    seq![
        SettingModel::TextIfPresent("domain"@, spec_text_prop(entries, "domain"@, "/dev/shm/mxl"@)),
        SettingModel::TextIfPresent("flow-id"@, spec_text_prop(entries, "flow_id"@, ""@)),
    ] + optional_text("label"@, spec_text_prop(entries, "label"@, ""@)) + optional_text(
        "description"@,
        spec_text_prop(entries, "description"@, ""@),
    ) + optional_text("group-hint"@, spec_text_prop(entries, "group_hint"@, ""@)) + seq![
        SettingModel::SinkClock(
            spec_bool_prop(entries, "sync"@, false),
            spec_bool_prop(entries, "async"@, false),
        ),
    ]
}

fn sink_settings(properties: &BlockProperties) -> (r: Vec<ElementSetting>)
    ensures
        r@.map_values(|s: ElementSetting| s@) == spec_sink_settings(properties.entries@),
{
    let domain = parse_string(properties, "domain", DEFAULT_MXL_DOMAIN);
    let flow_id = parse_string(properties, "flow_id", "");
    let label = parse_string(properties, "label", "");
    let description = parse_string(properties, "description", "");
    let group_hint = parse_string(properties, "group_hint", "");
    let ghost e = properties.entries@;
    proof {
        reveal_strlit("/dev/shm/mxl");
    }
    let mut r: Vec<ElementSetting> = Vec::new();
    r.push(ElementSetting::TextIfPresent("domain", domain.to_owned()));
    r.push(ElementSetting::TextIfPresent("flow-id", flow_id.to_owned()));
    let ghost a = seq![
        SettingModel::TextIfPresent("domain"@, spec_text_prop(e, "domain"@, "/dev/shm/mxl"@)),
        SettingModel::TextIfPresent("flow-id"@, spec_text_prop(e, "flow_id"@, ""@)),
    ];
    assert(r@.map_values(|s: ElementSetting| s@) =~= a);
    if !label.is_empty() {
        r.push(ElementSetting::TextIfPresent("label", label.to_owned()));
    }
    let ghost b = a + optional_text("label"@, label@);
    assert(r@.map_values(|s: ElementSetting| s@) =~= b);
    if !description.is_empty() {
        r.push(ElementSetting::TextIfPresent("description", description.to_owned()));
    }
    let ghost c = b + optional_text("description"@, description@);
    assert(r@.map_values(|s: ElementSetting| s@) =~= c);
    if !group_hint.is_empty() {
        r.push(ElementSetting::TextIfPresent("group-hint", group_hint.to_owned()));
    }
    let ghost d = c + optional_text("group-hint"@, group_hint@);
    assert(r@.map_values(|s: ElementSetting| s@) =~= d);
    let (sync, async_state) = mxl_sink_clock(properties);
    r.push(ElementSetting::SinkClock(sync, async_state));
    assert(r@.map_values(|s: ElementSetting| s@) =~= spec_sink_settings(e));
    r
}

/// The plan of an MXL video output: `queue → v210gldownload → mxlsink` with
/// the colour settings on the GPU backend, else `queue → videoconvert →
/// capsfilter (v210, progressive) → mxlsink`.
pub open spec fn spec_video_output_plan(id: Seq<char>, entries: Seq<(String, PropertyValue)>, backend: MxlVideoBackend) -> PlanModel {
    let q = element_id(id, "queue"@);
    let sink = element_id(id, "mxlsink"@);
    let sink_e = em(sink, "mxlsink"@, spec_sink_settings(entries));
    if backend == MxlVideoBackend::Gpu {
        let dl = element_id(id, "v210gldownload"@);
        PlanModel {
            elements: seq![
                em(q, "queue"@, seq![]),
                em(
                    dl,
                    "v210gldownload"@,
                    spec_gl_color_settings(
                        spec_colorimetry_prop(entries),
                        spec_bool_prop(entries, "full_range"@, false),
                    ),
                ),
                sink_e,
            ],
            links: seq![lm(q, "src"@, dl, "sink"@), lm(dl, "src"@, sink, "sink"@)],
        }
    } else {
        let conv = element_id(id, "videoconvert"@);
        let cf = element_id(id, "capsfilter"@);
        PlanModel {
            elements: seq![
                em(q, "queue"@, seq![]),
                em(conv, "videoconvert"@, seq![]),
                em(cf, "capsfilter"@, seq![SettingModel::Caps("caps"@, raw_template("v210"@, false))]),
                sink_e,
            ],
            links: seq![
                lm(q, "src"@, conv, "sink"@),
                lm(conv, "src"@, cf, "sink"@),
                lm(cf, "src"@, sink, "sink"@),
            ],
        }
    }
}

/// MXL Video Output.
pub struct MxlVideoOutputBuilder;

impl MxlVideoOutputBuilder {
    pub fn build(&self, instance_id: &str, properties: &BlockProperties, env: &MxlEnvironment) -> (r: Result<BlockPlan, BlockBuildError>)
        ensures
            build_view(r) == spec_video_build(
                *env,
                properties.entries@,
                |b: MxlVideoBackend| spec_video_output_plan(instance_id@, properties.entries@, b),
            ),
    {
        if !env.mxl_available {
            return Err(mxl_missing());
        }
        let backend = match select_video_backend(parse_backend(properties), env) {
            Ok(b) => b,
            Err(e) => return Err(e),
        };
        let colorimetry = parse_colorimetry(properties);
        let full_range = parse_bool(properties, "full_range", false);

        let q_id = join_id(instance_id, "queue");
        let sink_id = join_id(instance_id, "mxlsink");
        let sink = element(&sink_id, "mxlsink", sink_settings(properties));

        let mut elements: Vec<ElementPlan> = Vec::new();
        let mut links: Vec<PadLink> = Vec::new();
        elements.push(element(&q_id, "queue", no_settings()));
        match backend {
            MxlVideoBackend::Gpu => {
                let dl_id = join_id(instance_id, "v210gldownload");
                elements.push(element(&dl_id, "v210gldownload", gl_color_settings(colorimetry, full_range)));
                elements.push(sink);
                links.push(link(&q_id, "src", &dl_id, "sink"));
                links.push(link(&dl_id, "src", &sink_id, "sink"));
            },
            _ => {
                let conv_id = join_id(instance_id, "videoconvert");
                let cf_id = join_id(instance_id, "capsfilter");
                let mut cf_settings: Vec<ElementSetting> = Vec::new();
                cf_settings.push(ElementSetting::Caps("caps", v210_caps()));
                assert(cf_settings@.map_values(|s: ElementSetting| s@) =~= seq![
                    SettingModel::Caps("caps"@, raw_template("v210"@, false)),
                ]);
                elements.push(element(&conv_id, "videoconvert", no_settings()));
                elements.push(element(&cf_id, "capsfilter", cf_settings));
                elements.push(sink);
                links.push(link(&q_id, "src", &conv_id, "sink"));
                links.push(link(&conv_id, "src", &cf_id, "sink"));
                links.push(link(&cf_id, "src", &sink_id, "sink"));
            },
        }
        let r = BlockPlan { elements, internal_links: links };
        proof {
            let spec = spec_video_output_plan(instance_id@, properties.entries@, backend);
            assert(r@.elements =~= spec.elements);
            assert(r@.links =~= spec.links);
        }
        Ok(r)
    }
}

/// What building an audio block gives: the plan when MXL is available.
pub open spec fn spec_audio_build(env: MxlEnvironment, plan: PlanModel) -> BuildModel {
    if !env.mxl_available {
        BuildModel::ElementCreation(mxl_missing_message())
    } else {
        BuildModel::Plan(plan)
    }
}

/// The plan of an MXL audio input: `mxlsrc → queue → audioconvert`.
pub open spec fn spec_audio_input_plan(id: Seq<char>, entries: Seq<(String, PropertyValue)>) -> PlanModel {
    let src = element_id(id, "mxlsrc"@);
    let q = element_id(id, "queue"@);
    let conv = element_id(id, "audioconvert"@);
    PlanModel {
        elements: seq![
            em(
                src,
                "mxlsrc"@,
                seq![
                    SettingModel::TextIfPresent(
                        "domain"@,
                        spec_text_prop(entries, "domain"@, "/dev/shm/mxl"@),
                    ),
                    SettingModel::TextIfPresent(
                        "audio-flow-id"@,
                        spec_text_prop(entries, "audio_flow_id"@, ""@),
                    ),
                ],
            ),
            em(q, "queue"@, seq![]),
            em(conv, "audioconvert"@, seq![]),
        ],
        links: seq![lm(src, "src"@, q, "sink"@), lm(q, "src"@, conv, "sink"@)],
    }
}

/// MXL Audio Input.
pub struct MxlAudioInputBuilder;

impl MxlAudioInputBuilder {
    pub fn build(&self, instance_id: &str, properties: &BlockProperties, env: &MxlEnvironment) -> (r: Result<BlockPlan, BlockBuildError>)
        ensures
            build_view(r) == spec_audio_build(
                *env,
                spec_audio_input_plan(instance_id@, properties.entries@),
            ),
    {
        if !env.mxl_available {
            return Err(mxl_missing());
        }
        let domain = parse_string(properties, "domain", DEFAULT_MXL_DOMAIN);
        let flow_id = parse_string(properties, "audio_flow_id", "");
        proof {
            reveal_strlit("/dev/shm/mxl");
        }

        let src_id = join_id(instance_id, "mxlsrc");
        let mut src_settings: Vec<ElementSetting> = Vec::new();
        src_settings.push(ElementSetting::TextIfPresent("domain", domain.to_owned()));
        src_settings.push(ElementSetting::TextIfPresent("audio-flow-id", flow_id.to_owned()));
        assert(src_settings@.map_values(|s: ElementSetting| s@) =~= seq![
            SettingModel::TextIfPresent("domain"@, domain@),
            SettingModel::TextIfPresent("audio-flow-id"@, flow_id@),
        ]);
        let q_id = join_id(instance_id, "queue");
        let conv_id = join_id(instance_id, "audioconvert");

        let mut elements: Vec<ElementPlan> = Vec::new();
        elements.push(element(&src_id, "mxlsrc", src_settings));
        elements.push(element(&q_id, "queue", no_settings()));
        elements.push(element(&conv_id, "audioconvert", no_settings()));
        let mut links: Vec<PadLink> = Vec::new();
        links.push(link(&src_id, "src", &q_id, "sink"));
        links.push(link(&q_id, "src", &conv_id, "sink"));
        let r = BlockPlan { elements, internal_links: links };
        proof {
            let spec = spec_audio_input_plan(instance_id@, properties.entries@);
            assert(r@.elements =~= spec.elements);
            assert(r@.links =~= spec.links);
        }
        Ok(r)
    }
}

/// The plan of an MXL audio output: `queue → audioconvert → mxlsink`.
pub open spec fn spec_audio_output_plan(id: Seq<char>, entries: Seq<(String, PropertyValue)>) -> PlanModel {
    let q = element_id(id, "queue"@);
    let conv = element_id(id, "audioconvert"@);
    let sink = element_id(id, "mxlsink"@);
    PlanModel {
        elements: seq![
            em(q, "queue"@, seq![]),
            em(conv, "audioconvert"@, seq![]),
            em(sink, "mxlsink"@, spec_sink_settings(entries)),
        ],
        links: seq![lm(q, "src"@, conv, "sink"@), lm(conv, "src"@, sink, "sink"@)],
    }
}

/// MXL Audio Output.
pub struct MxlAudioOutputBuilder;

impl MxlAudioOutputBuilder {
    pub fn build(&self, instance_id: &str, properties: &BlockProperties, env: &MxlEnvironment) -> (r: Result<BlockPlan, BlockBuildError>)
        ensures
            build_view(r) == spec_audio_build(
                *env,
                spec_audio_output_plan(instance_id@, properties.entries@),
            ),
    {
        if !env.mxl_available {
            return Err(mxl_missing());
        }
        let q_id = join_id(instance_id, "queue");
        let conv_id = join_id(instance_id, "audioconvert");
        let sink_id = join_id(instance_id, "mxlsink");

        let mut elements: Vec<ElementPlan> = Vec::new();
        elements.push(element(&q_id, "queue", no_settings()));
        elements.push(element(&conv_id, "audioconvert", no_settings()));
        elements.push(element(&sink_id, "mxlsink", sink_settings(properties)));
        let mut links: Vec<PadLink> = Vec::new();
        links.push(link(&q_id, "src", &conv_id, "sink"));
        links.push(link(&conv_id, "src", &sink_id, "sink"));
        let r = BlockPlan { elements, internal_links: links };
        proof {
            let spec = spec_audio_output_plan(instance_id@, properties.entries@);
            assert(r@.elements =~= spec.elements);
            assert(r@.links =~= spec.links);
        }
        Ok(r)
    }
}


/// The kind of media a block pad carries.
#[derive(Debug, Clone, Copy, PartialEq, Eq, Structural)]
pub enum MediaType {
    Video,
    Audio,
}

/// A pad of a block, and the pad of an element inside it that it stands for.
#[derive(Debug, Clone)]
pub struct ExternalPad {
    pub label: Option<String>,
    pub name: String,
    pub media_type: MediaType,
    pub internal_element_id: String,
    pub internal_pad_name: String,
}

/// The mathematical content of an [`ExternalPad`].
pub struct PadModel {
    pub label: Option<Seq<char>>,
    pub name: Seq<char>,
    pub media_type: MediaType,
    pub internal_element_id: Seq<char>,
    pub internal_pad_name: Seq<char>,
}

impl View for ExternalPad {
    type V = PadModel;

    open spec fn view(&self) -> PadModel {
        PadModel {
            label: match self.label {
                Some(l) => Some(l@),
                None => None,
            },
            name: self.name@,
            media_type: self.media_type,
            internal_element_id: self.internal_element_id@,
            internal_pad_name: self.internal_pad_name@,
        }
    }
}

/// The input and output pads of a block.
#[derive(Debug, Clone)]
pub struct ExternalPads {
    pub inputs: Vec<ExternalPad>,
    pub outputs: Vec<ExternalPad>,
}

/// The mathematical content of [`ExternalPads`].
pub struct PadsModel {
    pub inputs: Seq<PadModel>,
    pub outputs: Seq<PadModel>,
}

impl View for ExternalPads {
    type V = PadsModel;

    open spec fn view(&self) -> PadsModel {
        PadsModel {
            inputs: self.inputs@.map_values(|p: ExternalPad| p@),
            outputs: self.outputs@.map_values(|p: ExternalPad| p@),
        }
    }
}

/// An unlabelled pad model.
pub open spec fn pm(name: Seq<char>, media_type: MediaType, element: Seq<char>, pad: Seq<char>) -> PadModel {
    PadModel { label: None, name, media_type, internal_element_id: element, internal_pad_name: pad }
}

pub(crate) fn pad(name: &str, media_type: MediaType, element: &str, pad_name: &str) -> (r: ExternalPad)
    ensures
        r@ == pm(name@, media_type, element@, pad_name@),
{
    ExternalPad {
        label: None,
        name: name.to_owned(),
        media_type,
        internal_element_id: element.to_owned(),
        internal_pad_name: pad_name.to_owned(),
    }
}

/// A block with one input pad.
pub(crate) fn input_only(p: ExternalPad) -> (r: ExternalPads)
    ensures
        r@.inputs == seq![p@],
        r@.outputs == Seq::<PadModel>::empty(),
{
    let mut inputs: Vec<ExternalPad> = Vec::new();
    inputs.push(p);
    let outputs: Vec<ExternalPad> = Vec::new();
    let r = ExternalPads { inputs, outputs };
    assert(r@.inputs =~= seq![p@]);
    assert(r@.outputs =~= Seq::<PadModel>::empty());
    r
}

/// A block with one output pad.
pub(crate) fn output_only(p: ExternalPad) -> (r: ExternalPads)
    ensures
        r@.inputs == Seq::<PadModel>::empty(),
        r@.outputs == seq![p@],
{
    let inputs: Vec<ExternalPad> = Vec::new();
    let mut outputs: Vec<ExternalPad> = Vec::new();
    outputs.push(p);
    let r = ExternalPads { inputs, outputs };
    assert(r@.outputs =~= seq![p@]);
    assert(r@.inputs =~= Seq::<PadModel>::empty());
    r
}

/// The element behind a video input's output pad: the upload bin when the GPU
/// backend is selected, else `videoconvert` (also when no backend can be had).
pub open spec fn spec_video_input_pad_element(entries: Seq<(String, PropertyValue)>, env: MxlEnvironment) -> Seq<char> {
    if spec_select_video_backend(spec_backend_prop(entries), env) == Some(MxlVideoBackend::Gpu) {
        "v210glupload"@
    } else {
        "videoconvert"@
    }
}

impl MxlVideoInputBuilder {
    pub fn get_external_pads(&self, properties: &BlockProperties, env: &MxlEnvironment) -> (r: Option<ExternalPads>)
        ensures
            r matches Some(p) && p@.inputs == Seq::<PadModel>::empty() && p@.outputs == seq![
                pm(
                    "video_out"@,
                    MediaType::Video,
                    spec_video_input_pad_element(properties.entries@, *env),
                    "src"@,
                ),
            ],
    {
        let backend = match select_video_backend(parse_backend(properties), env) {
            Ok(b) => b,
            Err(_) => MxlVideoBackend::Cpu,
        };
        let internal = match backend {
            MxlVideoBackend::Gpu => "v210glupload",
            _ => "videoconvert",
        };
        Some(output_only(pad("video_out", MediaType::Video, internal, "src")))
    }
}

impl MxlVideoOutputBuilder {
    pub fn get_external_pads(&self, _properties: &BlockProperties) -> (r: Option<ExternalPads>)
        ensures
            r matches Some(p) && p@.outputs == Seq::<PadModel>::empty() && p@.inputs == seq![
                pm("video_in"@, MediaType::Video, "queue"@, "sink"@),
            ],
    {
        Some(input_only(pad("video_in", MediaType::Video, "queue", "sink")))
    }
}

impl MxlAudioInputBuilder {
    pub fn get_external_pads(&self, _properties: &BlockProperties) -> (r: Option<ExternalPads>)
        ensures
            r matches Some(p) && p@.inputs == Seq::<PadModel>::empty() && p@.outputs == seq![
                pm("audio_out"@, MediaType::Audio, "audioconvert"@, "src"@),
            ],
    {
        Some(output_only(pad("audio_out", MediaType::Audio, "audioconvert", "src")))
    }
}

impl MxlAudioOutputBuilder {
    pub fn get_external_pads(&self, _properties: &BlockProperties) -> (r: Option<ExternalPads>)
        ensures
            r matches Some(p) && p@.outputs == Seq::<PadModel>::empty() && p@.inputs == seq![
                pm("audio_in"@, MediaType::Audio, "queue"@, "sink"@),
            ],
    {
        Some(input_only(pad("audio_in", MediaType::Audio, "queue", "sink")))
    }
}


/// The pads of a video block name elements that its plan builds: a video
/// input's output pad stands for the last element of the plan, a video
/// output's input pad for its first.
pub proof fn lemma_video_pads_match_plan(id: Seq<char>, entries: Seq<(String, PropertyValue)>, env: MxlEnvironment)
    requires
        spec_select_video_backend(spec_backend_prop(entries), env) is Some,
    ensures
        ({
            let b = spec_select_video_backend(spec_backend_prop(entries), env)->0;
            let plan = spec_video_input_plan(id, entries, b);
            plan.elements.last().id == element_id(id, spec_video_input_pad_element(entries, env))
        }),
        ({
            let b = spec_select_video_backend(spec_backend_prop(entries), env)->0;
            let plan = spec_video_output_plan(id, entries, b);
            plan.elements[0].id == element_id(id, "queue"@)
        }),
{
}

/// The pads of an audio block name elements that its plan builds.
pub proof fn lemma_audio_pads_match_plan(id: Seq<char>, entries: Seq<(String, PropertyValue)>)
    ensures
        spec_audio_input_plan(id, entries).elements.last().id == element_id(id, "audioconvert"@),
        spec_audio_output_plan(id, entries).elements[0].id == element_id(id, "queue"@),
{
}

/// The matrix name a block's `colorimetry_override` property holds, when it
/// holds one of `bt601`, `bt709` and `bt2020` as text.
pub open spec fn named_matrix_override(entries: Seq<(String, PropertyValue)>) -> Option<Seq<char>> {
    match spec_lookup(entries, "colorimetry_override"@) {
        Some(PropertyValue::String(s)) => if s@ == "bt601"@ || s@ == "bt709"@ || s@ == "bt2020"@ {
            Some(s@)
        } else {
            None
        },
        _ => None,
    }
}

/// On the GPU backend the v210 GL bin of a video block (the `v210glupload`
/// of an input, the `v210gldownload` of an output) is given the matrix that
/// the block's `colorimetry_override` property names, and then the block's
/// `full_range` flag; when the property names no matrix (`auto`, anything
/// else, or absent) only the range is given, and the bin keeps its own
/// default.
pub proof fn lemma_gpu_bins_follow_colour_properties(id: Seq<char>, entries: Seq<(String, PropertyValue)>)
    ensures
        ({
            let input = spec_video_input_plan(id, entries, MxlVideoBackend::Gpu).elements[3];
            let output = spec_video_output_plan(id, entries, MxlVideoBackend::Gpu).elements[1];
            let range = SettingModel::Flag("full-range"@, spec_bool_prop(entries, "full_range"@, false));
            &&& input.factory == "v210glupload"@
            &&& output.factory == "v210gldownload"@
            &&& match named_matrix_override(entries) {
                Some(m) => {
                    &&& input.settings == seq![SettingModel::Text("colorimetry-override"@, m), range]
                    &&& output.settings == seq![SettingModel::Text("colorimetry-override"@, m), range]
                },
                None => {
                    &&& input.settings == seq![range]
                    &&& output.settings == seq![range]
                },
            }
        }),
{
    reveal_strlit("auto");
    reveal_strlit("bt601");
    reveal_strlit("bt709");
    reveal_strlit("bt2020");
    assert("bt709"@[2] != "bt601"@[2]);
    assert("bt709"@.len() != "bt2020"@.len());
    assert("bt2020"@.len() != "bt601"@.len());
}

} // verus!

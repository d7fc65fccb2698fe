use v210gl::blocks::{
    mxl_sink_clock, parse_backend, parse_bool, parse_colorimetry, parse_string,
    select_video_backend, BlockBuildError, BlockPlan, BlockProperties, ElementSetting,
    MxlAudioInputBuilder, MxlAudioOutputBuilder, MxlEnvironment, MxlVideoInputBuilder,
    MxlVideoOutputBuilder, PropertyValue,
};
use v210gl::definitions::{
    audio_input_definition, audio_output_definition, get_blocks, video_input_definition,
    video_output_definition,
};
use v210gl::mxl::{MxlColorimetry, MxlVideoBackend};

fn props(entries: &[(&str, PropertyValue)]) -> BlockProperties {
    BlockProperties {
        entries: entries.iter().map(|(k, v)| (k.to_string(), v.clone())).collect(),
    }
}

const ALL: MxlEnvironment = MxlEnvironment {
    mxl_available: true,
    has_gl_elements: true,
    has_hardware_gl: true,
};

fn mxlsink_clock(plan: &BlockPlan) -> (bool, bool) {
    let sink = plan
        .elements
        .iter()
        .find(|e| e.id.ends_with(":mxlsink"))
        .expect("block result must contain mxlsink");
    sink.settings
        .iter()
        .find_map(|s| match s {
            ElementSetting::SinkClock(a, b) => Some((*a, *b)),
            _ => None,
        })
        .expect("mxlsink clock settings")
}

#[test]
fn backend_parse() {
    assert_eq!(MxlVideoBackend::parse("gpu"), MxlVideoBackend::Gpu);
    assert_eq!(MxlVideoBackend::parse("cpu"), MxlVideoBackend::Cpu);
    assert_eq!(MxlVideoBackend::parse("auto"), MxlVideoBackend::Auto);
    assert_eq!(MxlVideoBackend::parse("nope"), MxlVideoBackend::Auto);
}

#[test]
fn definitions_have_valid_defaults() {
    let defs = [
        video_input_definition(),
        video_output_definition(),
        audio_input_definition(),
        audio_output_definition(),
    ];
    for def in defs {
        assert!(def.id.starts_with("builtin.mxl_"));
        for prop in &def.exposed_properties {
            assert!(!prop.name.is_empty());
            assert!(prop.default_value.is_some());
        }
    }
    for def in [video_output_definition(), audio_output_definition()] {
        let sync = def
            .exposed_properties
            .iter()
            .find(|p| p.name == "sync")
            .expect("mxlsink sync");
        let async_prop = def
            .exposed_properties
            .iter()
            .find(|p| p.name == "async")
            .expect("mxlsink async");
        assert!(
            matches!(sync.default_value, Some(PropertyValue::Bool(false))),
            "sync default must be false"
        );
        assert!(
            matches!(async_prop.default_value, Some(PropertyValue::Bool(false))),
            "async default must be false"
        );
    }
}

#[test]
fn configure_mxl_sink_clock_overrides_basesink_defaults_when_properties_empty() {
    assert_eq!(mxl_sink_clock(&props(&[])), (false, false));
    assert_eq!(
        mxl_sink_clock(&props(&[("sync", PropertyValue::Bool(true))])),
        (true, false)
    );
}

#[test]
fn video_output_forces_sync_async_off_when_ui_omits_unmodified_defaults() {
    let result = MxlVideoOutputBuilder
        .build("test_mxl_vo", &props(&[]), &ALL)
        .expect("empty properties must still build (UI omits unmodified defaults)");
    assert_eq!(mxlsink_clock(&result), (false, false));
}

#[test]
fn audio_output_forces_sync_async_off_when_ui_omits_unmodified_defaults() {
    let result = MxlAudioOutputBuilder
        .build("test_mxl_ao", &props(&[]), &ALL)
        .expect("empty properties must still build (UI omits unmodified defaults)");
    assert_eq!(mxlsink_clock(&result), (false, false));
}

#[test]
fn property_readers() {
    let p = props(&[
        ("backend", PropertyValue::String("cpu".to_string())),
        ("domain", PropertyValue::String("/tmp/d".to_string())),
        ("full_range", PropertyValue::Bool(true)),
        ("colorimetry_override", PropertyValue::String("bt2020".to_string())),
        ("label", PropertyValue::Int(3)),
    ]);
    assert_eq!(parse_backend(&p), MxlVideoBackend::Cpu);
    assert_eq!(parse_string(&p, "domain", "x"), "/tmp/d");
    assert_eq!(parse_string(&p, "label", "none"), "none");
    assert!(parse_bool(&p, "full_range", false));
    assert!(!parse_bool(&p, "missing", false));
    assert_eq!(parse_colorimetry(&p), MxlColorimetry::Bt2020);
    assert_eq!(parse_colorimetry(&props(&[])), MxlColorimetry::Auto);
}

#[test]
fn backend_selection() {
    let no_hw = MxlEnvironment { has_hardware_gl: false, ..ALL };
    assert!(matches!(select_video_backend(MxlVideoBackend::Auto, &ALL), Ok(MxlVideoBackend::Gpu)));
    assert!(matches!(select_video_backend(MxlVideoBackend::Auto, &no_hw), Ok(MxlVideoBackend::Cpu)));
    assert!(matches!(select_video_backend(MxlVideoBackend::Cpu, &ALL), Ok(MxlVideoBackend::Cpu)));
    assert!(matches!(
        select_video_backend(MxlVideoBackend::Gpu, &no_hw),
        Err(BlockBuildError::InvalidConfiguration(_))
    ));
}

#[test]
fn video_input_plans() {
    let gpu = MxlVideoInputBuilder
        .build("in1", &props(&[("colorimetry_override", PropertyValue::String("bt601".to_string()))]), &ALL)
        .unwrap();
    let ids: Vec<&str> = gpu.elements.iter().map(|e| e.id.as_str()).collect();
    assert_eq!(ids, ["in1:mxlsrc", "in1:queue", "in1:progressive", "in1:v210glupload"]);
    assert_eq!(gpu.internal_links.len(), 3);
    assert_eq!(gpu.internal_links[2].to_element, "in1:v210glupload");
    assert!(matches!(&gpu.elements[3].settings[0], ElementSetting::Text("colorimetry-override", v) if v == "bt601"));
    assert!(matches!(&gpu.elements[0].settings[0], ElementSetting::TextIfPresent("domain", v) if v == "/dev/shm/mxl"));
    let cpu_env = MxlEnvironment { has_gl_elements: false, ..ALL };
    let cpu = MxlVideoInputBuilder.build("in1", &props(&[]), &cpu_env).unwrap();
    assert_eq!(cpu.elements[3].factory, "videoconvert");
    let pads = MxlVideoInputBuilder.get_external_pads(&props(&[]), &cpu_env).unwrap();
    assert_eq!(pads.outputs[0].internal_element_id, "videoconvert");
    let missing = MxlEnvironment { mxl_available: false, ..ALL };
    assert!(matches!(
        MxlVideoInputBuilder.build("in1", &props(&[]), &missing),
        Err(BlockBuildError::ElementCreation(_))
    ));
    assert!(get_blocks(&missing).is_empty());
    assert_eq!(get_blocks(&ALL).len(), 4);
}

#[test]
fn output_and_audio_plans() {
    let p = props(&[
        ("backend", PropertyValue::String("cpu".to_string())),
        ("label", PropertyValue::String("cam".to_string())),
    ]);
    let out = MxlVideoOutputBuilder.build("o", &p, &ALL).unwrap();
    let factories: Vec<&str> = out.elements.iter().map(|e| e.factory).collect();
    assert_eq!(factories, ["queue", "videoconvert", "capsfilter", "mxlsink"]);
    assert!(out.elements[3].settings.iter().any(|s| matches!(s, ElementSetting::TextIfPresent("label", v) if v == "cam")));
    assert!(!out.elements[3].settings.iter().any(|s| matches!(s, ElementSetting::TextIfPresent("description", _))));
    let ai = MxlAudioInputBuilder.build("a", &props(&[]), &ALL).unwrap();
    let factories: Vec<&str> = ai.elements.iter().map(|e| e.factory).collect();
    assert_eq!(factories, ["mxlsrc", "queue", "audioconvert"]);
    let ao = MxlAudioOutputBuilder.build("b", &props(&[]), &ALL).unwrap();
    assert_eq!(ao.elements[2].id, "b:mxlsink");
}

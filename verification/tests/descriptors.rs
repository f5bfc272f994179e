use hyperthree_native::descriptors::{
    alpha_mode_name, bind_group_descriptor, bind_group_layout_entries, compute_pipeline_descriptor,
    error_filter, feature_names, pipeline_layout_handles, render_pipeline_descriptor, surface_configuration,
    AlphaMode, BindGroupEntry, BindingResource, DescriptorError, DeviceFeatures, ErrorFilter, HandleField,
    SurfaceError,
};
use hyperthree_native::formats::TextureFormat;
use hyperthree_native::pipeline::{PipelineError, PrimitiveTopology};
use serde_json::Value;

fn parse(text: &str) -> Value {
    serde_json::from_str(text).unwrap()
}

#[test]
fn pipeline_layouts_list_handles() {
    assert_eq!(pipeline_layout_handles(&parse(r#"{"bindGroupLayouts": [3, 5]}"#)), Ok(vec![3, 5]));
    assert_eq!(
        pipeline_layout_handles(&parse(r#"{"bindGroupLayouts": [3, "x"]}"#)),
        Err(DescriptorError::InvalidLayoutHandle)
    );
    assert_eq!(pipeline_layout_handles(&parse("{}")), Err(DescriptorError::LayoutsNotArray));
}

#[test]
fn bind_group_layout_entries_stop_at_the_first_refusal() {
    let entries =
        bind_group_layout_entries(&parse(r#"{"entries": [{"binding": 0, "visibility": 1, "buffer": {}}]}"#)).unwrap();
    assert_eq!(entries.len(), 1);
    assert_eq!(entries[0].binding, 0);
    assert_eq!(
        bind_group_layout_entries(&parse(r#"{"entries": [{"binding": 0, "buffer": {}}, {"binding": 4}]}"#)).unwrap_err(),
        DescriptorError::Pipeline(PipelineError::UnsupportedEntry(4))
    );
    assert_eq!(bind_group_layout_entries(&parse(r#"{"entries": 1}"#)).unwrap_err(), DescriptorError::EntriesNotArray);
}

#[test]
fn bind_groups_read_resources_by_kind() {
    let group = bind_group_descriptor(&parse(
        r#"{"layout": 7, "entries": [
            {"binding": 0, "resource": {"kind": "buffer", "buffer": 11, "offset": 256, "size": 0}},
            {"binding": 1, "resource": {"kind": "textureView", "view": 12}},
            {"binding": 2, "resource": {"kind": "sampler", "sampler": 13}}
        ]}"#,
    ))
    .unwrap();
    assert_eq!(group.layout, 7);
    assert_eq!(
        group.entries,
        vec![
            BindGroupEntry { binding: 0, resource: BindingResource::Buffer { buffer: 11, offset: 256, size: None } },
            BindGroupEntry { binding: 1, resource: BindingResource::TextureView(12) },
            BindGroupEntry { binding: 2, resource: BindingResource::Sampler(13) },
        ]
    );
    assert_eq!(
        bind_group_descriptor(&parse(r#"{"entries": []}"#)).unwrap_err(),
        DescriptorError::LayoutNotHandle
    );
    assert_eq!(
        bind_group_descriptor(&parse(r#"{"layout": 1, "entries": [{"binding": 0}]}"#)).unwrap_err(),
        DescriptorError::EntryWithoutResource
    );
    assert_eq!(
        bind_group_descriptor(&parse(r#"{"layout": 1, "entries": [{"resource": {"kind": "buffer"}}]}"#)).unwrap_err(),
        DescriptorError::NotAnInteger(HandleField::Buffer)
    );
    assert_eq!(
        bind_group_descriptor(&parse(r#"{"layout": 1, "entries": [{"resource": {"kind": "externalTexture"}}]}"#))
            .unwrap_err(),
        DescriptorError::UnsupportedResource
    );
}

#[test]
fn render_pipelines_fill_in_defaults() {
    let pipeline = render_pipeline_descriptor(&parse(
        r#"{"vertex": {"module": 4, "buffers": [{"arrayStride": 12, "attributes": [{"format": "float32x3"}]}]},
            "fragment": {"module": 5, "entryPoint": "fs", "targets": [{"format": "bgra8unorm"}, null]},
            "primitive": {"topology": "line-list"}}"#,
    ))
    .unwrap();
    assert_eq!(pipeline.layout, None);
    assert_eq!(pipeline.vertex_module, 4);
    assert_eq!(pipeline.vertex_entry_point, "main");
    assert_eq!(pipeline.vertex_buffers.len(), 1);
    assert_eq!(pipeline.vertex_buffers[0].array_stride, 12);
    let fragment = pipeline.fragment.unwrap();
    assert_eq!(fragment.module, 5);
    assert_eq!(fragment.entry_point, "fs");
    assert_eq!(fragment.targets.len(), 2);
    assert_eq!(fragment.targets[0].unwrap().format, TextureFormat::Bgra8Unorm);
    assert!(fragment.targets[1].is_none());
    assert_eq!(pipeline.primitive.topology, PrimitiveTopology::LineList);
    assert!(pipeline.depth_stencil.is_none());
    assert_eq!(pipeline.multisample.count, 1);
    assert_eq!(pipeline.multisample.mask, u64::MAX);
}

#[test]
fn render_pipeline_refusals_follow_the_stage_order() {
    assert_eq!(render_pipeline_descriptor(&parse("{}")).unwrap_err(), DescriptorError::VertexRequired);
    assert_eq!(
        render_pipeline_descriptor(&parse(r#"{"vertex": {}}"#)).unwrap_err(),
        DescriptorError::NotAnInteger(HandleField::Module)
    );
    assert_eq!(
        render_pipeline_descriptor(&parse(r#"{"vertex": {"module": 1, "buffers": [{}]}}"#)).unwrap_err(),
        DescriptorError::Pipeline(PipelineError::AttributesNotArray)
    );
    assert_eq!(
        render_pipeline_descriptor(&parse(r#"{"vertex": {"module": 1}, "fragment": {}}"#)).unwrap_err(),
        DescriptorError::NotAnInteger(HandleField::Module)
    );
    assert_eq!(
        render_pipeline_descriptor(&parse(r#"{"vertex": {"module": 1}, "multisample": {"count": 0}}"#)).unwrap_err(),
        DescriptorError::Pipeline(PipelineError::ZeroSampleCount)
    );
    let pipeline =
        render_pipeline_descriptor(&parse(r#"{"layout": 9, "vertex": {"module": 1}, "fragment": null}"#)).unwrap();
    assert_eq!(pipeline.layout, Some(9));
    assert!(pipeline.fragment.is_none());
}

#[test]
fn compute_pipelines_need_a_module() {
    let pipeline = compute_pipeline_descriptor(&parse(r#"{"compute": {"module": 2, "entryPoint": "cs"}}"#)).unwrap();
    assert_eq!(pipeline.module, 2);
    assert_eq!(pipeline.entry_point, "cs");
    assert_eq!(pipeline.layout, None);
    assert_eq!(compute_pipeline_descriptor(&parse("{}")).unwrap_err(), DescriptorError::ComputeRequired);
}

fn features() -> DeviceFeatures {
    DeviceFeatures {
        depth_clip_control: true,
        depth32float_stencil8: false,
        texture_compression_bc: true,
        texture_compression_etc2: false,
        texture_compression_astc: false,
        timestamp_query: true,
        timestamp_query_inside_passes: false,
        indirect_first_instance: false,
        rg11b10ufloat_renderable: false,
        bgra8unorm_storage: false,
        float32_filterable: true,
    }
}

#[test]
fn feature_names_follow_the_granted_features() {
    assert_eq!(feature_names(&features()), vec!["depth-clip-control", "texture-compression-bc", "float32-filterable"]);
    let mut all = features();
    all.timestamp_query_inside_passes = true;
    assert!(feature_names(&all).contains(&"timestamp-query".to_string()));
}

#[test]
fn canvas_configuration_checks_what_the_surface_presents() {
    let formats = vec![TextureFormat::Bgra8Unorm, TextureFormat::Rgba8Unorm];
    let opaque_only = vec![AlphaMode::Opaque];
    assert_eq!(
        surface_configuration(&parse(r#"{"format": "rgba8unorm"}"#), TextureFormat::Bgra8Unorm, AlphaMode::Opaque, &formats, &opaque_only),
        Ok((TextureFormat::Rgba8Unorm, AlphaMode::Opaque))
    );
    assert_eq!(
        surface_configuration(&parse(r#"{"alphaMode": "premultiplied"}"#), TextureFormat::Bgra8Unorm, AlphaMode::Opaque, &formats, &opaque_only),
        Ok((TextureFormat::Bgra8Unorm, AlphaMode::Opaque))
    );
    assert_eq!(
        surface_configuration(&parse(r#"{"format": "rgba16float"}"#), TextureFormat::Bgra8Unorm, AlphaMode::Opaque, &formats, &opaque_only),
        Err(SurfaceError::UnsupportedFormat("rgba16float".to_string()))
    );
    assert_eq!(
        surface_configuration(&parse(r#"{"alphaMode": "inherit"}"#), TextureFormat::Bgra8Unorm, AlphaMode::Opaque, &formats, &opaque_only),
        Err(SurfaceError::UnknownAlphaMode("inherit".to_string()))
    );
    assert_eq!(
        surface_configuration(&parse(r#"{"alphaMode": "opaque"}"#), TextureFormat::Bgra8Unorm, AlphaMode::Opaque, &formats, &vec![AlphaMode::PreMultiplied]),
        Err(SurfaceError::UnsupportedAlphaMode("opaque".to_string()))
    );
    assert_eq!(alpha_mode_name(AlphaMode::PreMultiplied), "premultiplied");
    assert_eq!(alpha_mode_name(AlphaMode::Auto), "opaque");
}

#[test]
fn error_scope_filters_are_named() {
    assert_eq!(error_filter("validation"), Some(ErrorFilter::Validation));
    assert_eq!(error_filter("out-of-memory"), Some(ErrorFilter::OutOfMemory));
    assert_eq!(error_filter("internal"), Some(ErrorFilter::Internal));
    assert_eq!(error_filter("fatal"), None);
}

use hyperthree_native::formats::{CompareFunction, TextureFormat};
use hyperthree_native::pipeline::{
    depth_stencil_state, multisample_state, primitive_state, query_set_descriptor, sampler_descriptor,
    texture_view_descriptor, AddressMode, Face, FilterMode, FrontFace, IndexFormat, PipelineError,
    PrimitiveTopology, QueryType, TextureAspect, ViewDimension,
};
use serde_json::Value;

fn json(text: &str) -> Value {
    serde_json::from_str(text).unwrap()
}

#[test]
fn preserves_pipeline_multisample_state() {
    let state = multisample_state(&json(
        r#"{"count": 4, "mask": 252645135, "alphaToCoverageEnabled": true}"#,
    ))
    .unwrap();
    assert_eq!(state.count, 4);
    assert_eq!(state.mask, 0x0f0f0f0f);
    assert!(state.alpha_to_coverage_enabled);
}

#[test]
fn multisample_defaults_and_zero_samples() {
    let state = multisample_state(&json("{}")).unwrap();
    assert_eq!(state.count, 1);
    assert_eq!(state.mask, 0xffff_ffff);
    assert!(!state.alpha_to_coverage_enabled);
    assert_eq!(
        multisample_state(&json(r#"{"count": 0}"#)),
        Err(PipelineError::ZeroSampleCount)
    );
}

#[test]
fn primitive_state_defaults_and_overrides() {
    let state = primitive_state(None);
    assert_eq!(state.topology, PrimitiveTopology::TriangleList);
    assert_eq!(state.strip_index_format, None);
    assert_eq!(state.front_face, FrontFace::Ccw);
    assert_eq!(state.cull_mode, None);
    let value = json(
        r#"{"topology": "line-strip", "stripIndexFormat": "uint16", "frontFace": "cw", "cullMode": "back"}"#,
    );
    let state = primitive_state(Some(&value));
    assert_eq!(state.topology, PrimitiveTopology::LineStrip);
    assert_eq!(state.strip_index_format, Some(IndexFormat::Uint16));
    assert_eq!(state.front_face, FrontFace::Cw);
    assert_eq!(state.cull_mode, Some(Face::Back));
}

#[test]
fn depth_state_defaults_to_depth24plus_always() {
    let state = depth_stencil_state(&json("{}"));
    assert_eq!(state.format, TextureFormat::Depth24Plus);
    assert!(state.depth_write_enabled);
    assert_eq!(state.depth_compare, CompareFunction::Always);
    let state = depth_stencil_state(&json(
        r#"{"format": "depth32float-stencil8", "depthWriteEnabled": false, "depthCompare": "less"}"#,
    ));
    assert_eq!(state.format, TextureFormat::Depth32FloatStencil8);
    assert!(!state.depth_write_enabled);
    assert_eq!(state.depth_compare, CompareFunction::Less);
}

#[test]
fn texture_views_read_counts_as_absent_when_zero() {
    let view = texture_view_descriptor(&json(
        r#"{"dimension": "cube", "aspect": "depth-only", "baseMipLevel": 2, "mipLevelCount": 0, "arrayLayerCount": 6}"#,
    ));
    assert_eq!(view.format, None);
    assert_eq!(view.dimension, Some(ViewDimension::Cube));
    assert_eq!(view.aspect, TextureAspect::DepthOnly);
    assert_eq!(view.base_mip_level, 2);
    assert_eq!(view.mip_level_count, None);
    assert_eq!(view.base_array_layer, 0);
    assert_eq!(view.array_layer_count, Some(6));
}

#[test]
fn samplers_clamp_and_filter_nearest_by_default() {
    let sampler = sampler_descriptor(&json(r#"{"addressModeU": "repeat", "magFilter": "linear", "compare": "greater"}"#));
    assert_eq!(sampler.address_mode_u, AddressMode::Repeat);
    assert_eq!(sampler.address_mode_v, AddressMode::ClampToEdge);
    assert_eq!(sampler.address_mode_w, AddressMode::ClampToEdge);
    assert_eq!(sampler.mag_filter, FilterMode::Linear);
    assert_eq!(sampler.min_filter, FilterMode::Nearest);
    assert_eq!(sampler.mipmap_filter, FilterMode::Nearest);
    assert_eq!(sampler.compare, Some(CompareFunction::Greater));
    assert_eq!(sampler.anisotropy_clamp, 1);
}

#[test]
fn query_sets_need_a_supported_type_and_a_count() {
    assert_eq!(
        query_set_descriptor(&json(r#"{"type": "occlusion", "count": 8}"#), false),
        Ok((QueryType::Occlusion, 8))
    );
    assert_eq!(
        query_set_descriptor(&json(r#"{"type": "timestamp", "count": 2}"#), false),
        Err(PipelineError::TimestampQueryUnsupported)
    );
    assert_eq!(
        query_set_descriptor(&json(r#"{"type": "timestamp", "count": 2}"#), true),
        Ok((QueryType::Timestamp, 2))
    );
    assert_eq!(
        query_set_descriptor(&json(r#"{"type": "pipeline-statistics", "count": 2}"#), true),
        Err(PipelineError::PipelineStatisticsUnsupported)
    );
    assert_eq!(query_set_descriptor(&json(r#"{"count": 2}"#), true), Err(PipelineError::NoQueryType));
    assert_eq!(
        query_set_descriptor(&json(r#"{"type": "occlusion"}"#), true),
        Err(PipelineError::ZeroQueryCount)
    );
}

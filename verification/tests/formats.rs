use hyperthree_native::formats::{
    blend_factor, blend_operation, compare_function, texture_format, vertex_format, AstcBlock,
    BlendFactor, BlendOperation, CompareFunction, TextureFormat, VertexFormat,
};

#[test]
fn maps_three_compressed_texture_formats_to_native_formats() {
    assert_eq!(texture_format("bc7-rgba-unorm-srgb"), TextureFormat::Bc7RgbaUnormSrgb);
    assert_eq!(texture_format("etc2-rgba8unorm"), TextureFormat::Etc2Rgba8Unorm);
    assert_eq!(
        texture_format("astc-4x4-unorm-srgb"),
        TextureFormat::Astc { block: AstcBlock::B4x4, srgb: true }
    );
}

#[test]
fn maps_standard_hdr_and_depth_texture_formats_to_native_formats() {
    assert_eq!(texture_format("rgba32float"), TextureFormat::Rgba32Float);
    assert_eq!(texture_format("rg11b10ufloat"), TextureFormat::Rg11b10Float);
    assert_eq!(texture_format("depth32float-stencil8"), TextureFormat::Depth32FloatStencil8);
}

#[test]
fn unknown_texture_format_names_fall_back_to_rgba8() {
    assert_eq!(texture_format("bgra8unorm"), TextureFormat::Bgra8Unorm);
    assert_eq!(texture_format("not-a-format"), TextureFormat::Rgba8Unorm);
    assert_eq!(
        texture_format("astc-12x12-unorm"),
        TextureFormat::Astc { block: AstcBlock::B12x12, srgb: false }
    );
}

#[test]
fn vertex_blend_and_compare_names_map_to_their_variants() {
    assert_eq!(vertex_format("float32x3"), VertexFormat::Float32x3);
    assert_eq!(blend_factor("one-minus-src-alpha"), BlendFactor::OneMinusSrcAlpha);
    assert_eq!(blend_operation("max"), BlendOperation::Max);
    assert_eq!(compare_function(Some("less-equal")), CompareFunction::LessEqual);
    assert_eq!(compare_function(None), CompareFunction::Always);
    assert_eq!(compare_function(Some("sometimes")), CompareFunction::Always);
}

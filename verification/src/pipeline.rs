//! Descriptors of GPU state that scripts pass as JSON: multisampling,
//! primitive assembly, blending, color targets, depth testing, texture
//! views, samplers, bind group layout entries, vertex buffer layouts and
//! query sets, read into the library's own types with the defaults WebGPU
//! gives for left-out fields. Handles inside descriptors are looked up by
//! the host; floating-point fields are read by the host as well.
use vstd::prelude::*;
use serde_json::Value;
use crate::formats::{
    blend_factor, blend_factor_named, blend_operation, blend_operation_named, compare_function,
    compare_function_named, texture_format, texture_format_named, vertex_format,
    vertex_format_named, BlendFactor, BlendOperation, CompareFunction, TextureFormat,
    VertexFormat,
};
use crate::gpu::{optional_u32, shader_stages, SHADER_STAGE_MASK};
use crate::json::{
    field, field_flag_or, field_string, field_u32_or, field_u64_or,
    flag_field_or, json_field, json_is_null, json_items, json_shape, string_field, u32_field_or,
    u64_field_or, JsonShape,
};
use crate::text::text_eq;

verus! {

/// Why a descriptor was refused.
#[derive(Debug, Clone, Copy, PartialEq, Eq, Structural)]
pub enum PipelineError {
    /// A multisample state asked for zero samples.
    ZeroSampleCount,
    /// A bind group layout entry (with this binding) names no resource type.
    UnsupportedEntry(u32),
    /// A vertex buffer layout's `attributes` is not an array.
    AttributesNotArray,
    /// A query set descriptor has no `type`.
    NoQueryType,
    /// Timestamp queries are not available on this device.
    TimestampQueryUnsupported,
    /// Pipeline-statistics query sets are not supported.
    PipelineStatisticsUnsupported,
    /// The query set type is unknown.
    UnsupportedQueryType,
    /// A query set asked for zero queries.
    ZeroQueryCount,
}

/// Multisampling of a render pipeline.
#[derive(Debug, Clone, Copy, PartialEq, Eq, Structural)]
pub struct MultisampleState {
    pub count: u32,
    pub mask: u64,
    pub alpha_to_coverage_enabled: bool,
}

/// The multisample state a descriptor describes: one sample, every sample
/// enabled, no alpha-to-coverage unless it says otherwise; refused for zero
/// samples.
pub open spec fn multisample_of(v: Value) -> Result<MultisampleState, PipelineError> {
    let count = u32_field_or(v, "count"@, 1);
    if count == 0 {
        Err(PipelineError::ZeroSampleCount)
    } else {
        Ok(
            MultisampleState {
                count,
                mask: u32_field_or(v, "mask"@, 0xffff_ffffu32) as u64,
                alpha_to_coverage_enabled: flag_field_or(v, "alphaToCoverageEnabled"@, false),
            },
        )
    }
}

/// Reads a multisample state.
pub fn multisample_state(value: &Value) -> (r: Result<MultisampleState, PipelineError>)
    ensures
        r == multisample_of(*value),
{
    let count = field_u32_or(value, "count", 1);
    if count == 0 {
        return Err(PipelineError::ZeroSampleCount);
    }
    Ok(
        MultisampleState {
            count,
            mask: field_u32_or(value, "mask", 0xffff_ffffu32) as u64,
            alpha_to_coverage_enabled: field_flag_or(value, "alphaToCoverageEnabled", false),
        },
    )
}

/// How vertices are assembled into primitives.
#[derive(Debug, Clone, Copy, PartialEq, Eq, Structural)]
pub enum PrimitiveTopology {
    PointList,
    LineList,
    LineStrip,
    TriangleList,
    TriangleStrip,
}

/// Index buffer element types.
#[derive(Debug, Clone, Copy, PartialEq, Eq, Structural)]
pub enum IndexFormat {
    Uint16,
    Uint32,
}

/// Winding of front faces.
#[derive(Debug, Clone, Copy, PartialEq, Eq, Structural)]
pub enum FrontFace {
    Ccw,
    Cw,
}

/// Faces that are culled.
#[derive(Debug, Clone, Copy, PartialEq, Eq, Structural)]
pub enum Face {
    Front,
    Back,
}

/// Primitive assembly of a render pipeline.
#[derive(Debug, Clone, Copy, PartialEq, Eq, Structural)]
pub struct PrimitiveState {
    pub topology: PrimitiveTopology,
    pub strip_index_format: Option<IndexFormat>,
    pub front_face: FrontFace,
    pub cull_mode: Option<Face>,
}

/// The topology a name gives (a fan becomes a list; unknown names too).
pub open spec fn topology_named(name: Seq<char>) -> PrimitiveTopology {
    if name == "point-list"@ {
        PrimitiveTopology::PointList
    } else if name == "line-list"@ {
        PrimitiveTopology::LineList
    } else if name == "line-strip"@ {
        PrimitiveTopology::LineStrip
    } else if name == "triangle-strip"@ {
        PrimitiveTopology::TriangleStrip
    } else {
        PrimitiveTopology::TriangleList
    }
}

/// The index format a name gives: `uint16`, otherwise `uint32`.
pub open spec fn index_format_named(name: Seq<char>) -> IndexFormat {
    if name == "uint16"@ {
        IndexFormat::Uint16
    } else {
        IndexFormat::Uint32
    }
}

/// Reads a topology name.
fn topology(name: &str) -> (r: PrimitiveTopology)
    ensures
        r == topology_named(name@),
{
    if text_eq(name, "point-list") {
        PrimitiveTopology::PointList
    } else if text_eq(name, "line-list") {
        PrimitiveTopology::LineList
    } else if text_eq(name, "line-strip") {
        PrimitiveTopology::LineStrip
    } else if text_eq(name, "triangle-strip") {
        PrimitiveTopology::TriangleStrip
    } else {
        PrimitiveTopology::TriangleList
    }
}

/// Reads an index format name.
pub fn index_format(value: &str) -> (r: IndexFormat)
    ensures
        r == index_format_named(value@),
{
    if text_eq(value, "uint16") {
        IndexFormat::Uint16
    } else {
        IndexFormat::Uint32
    }
}

/// The text of field `key` of an optional descriptor, when it is a string.
pub open spec fn optional_string(v: Option<Value>, key: Seq<char>) -> Option<Seq<char>> {
    match v {
        Some(v) => string_field(v, key),
        None => None,
    }
}

/// The primitive state a descriptor (or its absence) describes: triangle
/// lists with counter-clockwise front faces and no culling unless it says
/// otherwise.
pub open spec fn primitive_of(v: Option<Value>) -> PrimitiveState {
    PrimitiveState {
        topology: topology_named(
            match optional_string(v, "topology"@) {
                Some(t) => t,
                None => "triangle-list"@,
            },
        ),
        strip_index_format: match optional_string(v, "stripIndexFormat"@) {
            Some(f) => Some(index_format_named(f)),
            None => None,
        },
        front_face: if match optional_string(v, "frontFace"@) {
            Some(f) => f,
            None => "ccw"@,
        } == "cw"@ {
            FrontFace::Cw
        } else {
            FrontFace::Ccw
        },
        cull_mode: match optional_string(v, "cullMode"@) {
            Some(c) => if c == "front"@ {
                Some(Face::Front)
            } else if c == "back"@ {
                Some(Face::Back)
            } else {
                None
            },
            None => None,
        },
    }
}

/// The text of field `key` of an optional descriptor.
fn optional_field_string(v: Option<&Value>, key: &str) -> (r: Option<String>)
    ensures
        match optional_string(
            match v {
                Some(x) => Some(*x),
                None => None,
            },
            key@,
        ) {
            Some(t) => r matches Some(s) && s@ == t,
            None => r is None,
        },
{
    match v {
        Some(x) => field_string(x, key),
        None => None,
    }
}

/// Reads a primitive state.
pub fn primitive_state(value: Option<&Value>) -> (r: PrimitiveState)
    ensures
        r == primitive_of(
            match value {
                Some(x) => Some(*x),
                None => None,
            },
        ),
{
    let topology_name = match optional_field_string(value, "topology") {
        Some(t) => t,
        None => "triangle-list".to_string(),
    };
    let strip_index_format = match optional_field_string(value, "stripIndexFormat") {
        Some(f) => Some(index_format(f.as_str())),
        None => None,
    };
    let front_face_name = match optional_field_string(value, "frontFace") {
        Some(f) => f,
        None => "ccw".to_string(),
    };
    let front_face = if text_eq(front_face_name.as_str(), "cw") {
        FrontFace::Cw
    } else {
        FrontFace::Ccw
    };
    let cull_mode = match optional_field_string(value, "cullMode") {
        Some(c) => if text_eq(c.as_str(), "front") {
            Some(Face::Front)
        } else if text_eq(c.as_str(), "back") {
            Some(Face::Back)
        } else {
            None
        },
        None => None,
    };
    PrimitiveState {
        topology: topology(topology_name.as_str()),
        strip_index_format,
        front_face,
        cull_mode,
    }
}

/// One blend equation.
#[derive(Debug, Clone, Copy, PartialEq, Eq, Structural)]
pub struct BlendComponent {
    pub src_factor: BlendFactor,
    pub dst_factor: BlendFactor,
    pub operation: BlendOperation,
}

/// Blending of a color target: the color and alpha equations.
#[derive(Debug, Clone, Copy, PartialEq, Eq, Structural)]
pub struct BlendState {
    pub color: BlendComponent,
    pub alpha: BlendComponent,
}

/// The string field `key` of `v`, else `default`.
pub open spec fn string_or(v: Value, key: Seq<char>, default: Seq<char>) -> Seq<char> {
    match string_field(v, key) {
        Some(t) => t,
        None => default,
    }
}

/// The blend equation `v` describes: `one`, `zero`, `add` by default.
pub open spec fn blend_component_of(v: Value) -> BlendComponent {
    BlendComponent {
        src_factor: blend_factor_named(string_or(v, "srcFactor"@, "one"@)),
        dst_factor: blend_factor_named(string_or(v, "dstFactor"@, "zero"@)),
        operation: blend_operation_named(string_or(v, "operation"@, "add"@)),
    }
}

/// The blending `v` describes: its `color` and `alpha` equations, each
/// read from `v` itself when left out.
pub open spec fn blend_state_of(v: Value) -> BlendState {
    BlendState {
        color: blend_component_of(
            match field(v, "color"@) {
                Some(c) => c,
                None => v,
            },
        ),
        alpha: blend_component_of(
            match field(v, "alpha"@) {
                Some(a) => a,
                None => v,
            },
        ),
    }
}

/// The string field `key` of `v`, else `default`.
fn field_string_or(v: &Value, key: &str, default: &str) -> (r: String)
    ensures
        r@ == string_or(*v, key@, default@),
{
    match field_string(v, key) {
        Some(s) => s,
        None => default.to_string(),
    }
}

/// Reads a blend equation.
pub fn blend_component(value: &Value) -> (r: BlendComponent)
    ensures
        r == blend_component_of(*value),
{
    let src = field_string_or(value, "srcFactor", "one");
    let dst = field_string_or(value, "dstFactor", "zero");
    let operation = field_string_or(value, "operation", "add");
    BlendComponent {
        src_factor: blend_factor(src.as_str()),
        dst_factor: blend_factor(dst.as_str()),
        operation: blend_operation(operation.as_str()),
    }
}

/// Reads the blending of a color target.
pub fn blend_state(value: &Value) -> (r: BlendState)
    ensures
        r == blend_state_of(*value),
{
    let color = match json_field(value, "color") {
        Some(c) => c,
        None => value,
    };
    let alpha = match json_field(value, "alpha") {
        Some(a) => a,
        None => value,
    };
    BlendState { color: blend_component(color), alpha: blend_component(alpha) }
}

/// A color target of a render pipeline.
#[derive(Debug, Clone, Copy, PartialEq, Eq, Structural)]
pub struct ColorTargetState {
    pub format: TextureFormat,
    pub blend: Option<BlendState>,
    /// Red, green, blue and alpha write bits (0 to 15).
    pub write_mask: u32,
}

/// The color target `v` describes (`None` for `null`): the surface format
/// `bgra8unorm-srgb`, no blending and all channels written by default.
pub open spec fn color_target_of(v: Value) -> Option<ColorTargetState> {
    if json_shape(v) is Null {
        None
    } else {
        Some(
            ColorTargetState {
                format: texture_format_named(string_or(v, "format"@, "bgra8unorm-srgb"@)),
                blend: match field(v, "blend"@) {
                    Some(b) => Some(blend_state_of(b)),
                    None => None,
                },
                write_mask: (u64_field_or(v, "writeMask"@, 15) as u32) & 0xf,
            },
        )
    }
}

/// Reads a color target.
pub fn color_target_state(value: &Value) -> (r: Option<ColorTargetState>)
    ensures
        r == color_target_of(*value),
{
    if json_is_null(value) {
        return None;
    }
    let format = field_string_or(value, "format", "bgra8unorm-srgb");
    let blend = match json_field(value, "blend") {
        Some(b) => Some(blend_state(b)),
        None => None,
    };
    let write_mask = (field_u64_or(value, "writeMask", 15) as u32) & 0xf;
    Some(ColorTargetState { format: texture_format(format.as_str()), blend, write_mask })
}

/// Depth testing of a render pipeline.
#[derive(Debug, Clone, Copy, PartialEq, Eq, Structural)]
pub struct DepthStencilState {
    pub format: TextureFormat,
    pub depth_write_enabled: bool,
    pub depth_compare: CompareFunction,
}

/// The depth state `v` describes: `depth24plus`, depth writes on, and
/// `always` as the comparison by default.
pub open spec fn depth_stencil_of(v: Value) -> DepthStencilState {
    DepthStencilState {
        format: texture_format_named(string_or(v, "format"@, "depth24plus"@)),
        depth_write_enabled: flag_field_or(v, "depthWriteEnabled"@, true),
        depth_compare: compare_function_named(string_field(v, "depthCompare"@)),
    }
}

/// Reads a depth state.
pub fn depth_stencil_state(value: &Value) -> (r: DepthStencilState)
    ensures
        r == depth_stencil_of(*value),
{
    let format = field_string_or(value, "format", "depth24plus");
    let compare = field_string(value, "depthCompare");
    DepthStencilState {
        format: texture_format(format.as_str()),
        depth_write_enabled: field_flag_or(value, "depthWriteEnabled", true),
        depth_compare: match &compare {
            Some(c) => compare_function(Some(c.as_str())),
            None => compare_function(None),
        },
    }
}

/// Dimensionality of a texture view.
#[derive(Debug, Clone, Copy, PartialEq, Eq, Structural)]
pub enum ViewDimension {
    D1,
    D2,
    D2Array,
    Cube,
    CubeArray,
    D3,
}

/// The view dimension a name gives; `2d` for an unknown name.
pub open spec fn view_dimension_named(name: Seq<char>) -> ViewDimension {
    if name == "1d"@ {
        ViewDimension::D1
    } else if name == "2d-array"@ {
        ViewDimension::D2Array
    } else if name == "cube"@ {
        ViewDimension::Cube
    } else if name == "cube-array"@ {
        ViewDimension::CubeArray
    } else if name == "3d"@ {
        ViewDimension::D3
    } else {
        ViewDimension::D2
    }
}

/// The view dimension of an optional name; `2d` when left out.
pub open spec fn view_dimension_of(name: Option<Seq<char>>) -> ViewDimension {
    view_dimension_named(
        match name {
            Some(n) => n,
            None => "2d"@,
        },
    )
}

/// Reads an optional view dimension name.
pub fn texture_view_dimension(value: Option<&str>) -> (r: ViewDimension)
    ensures
        r == view_dimension_of(
            match value {
                Some(v) => Some(v@),
                None => None,
            },
        ),
{
    let name = match value {
        Some(v) => v,
        None => "2d",
    };
    if text_eq(name, "1d") {
        ViewDimension::D1
    } else if text_eq(name, "2d-array") {
        ViewDimension::D2Array
    } else if text_eq(name, "cube") {
        ViewDimension::Cube
    } else if text_eq(name, "cube-array") {
        ViewDimension::CubeArray
    } else if text_eq(name, "3d") {
        ViewDimension::D3
    } else {
        ViewDimension::D2
    }
}

/// Reads the view dimension field `key` of `v`.
fn view_dimension_field(v: &Value, key: &str) -> (r: ViewDimension)
    ensures
        r == view_dimension_of(string_field(*v, key@)),
{
    match field_string(v, key) {
        Some(d) => texture_view_dimension(Some(d.as_str())),
        None => texture_view_dimension(None),
    }
}

/// Aspects of a texture a view sees.
#[derive(Debug, Clone, Copy, PartialEq, Eq, Structural)]
pub enum TextureAspect {
    All,
    DepthOnly,
    StencilOnly,
}

/// A texture view descriptor.
#[derive(Debug, Clone, Copy, PartialEq, Eq, Structural)]
pub struct TextureViewDescriptor {
    pub format: Option<TextureFormat>,
    pub dimension: Option<ViewDimension>,
    pub aspect: TextureAspect,
    pub base_mip_level: u32,
    pub mip_level_count: Option<u32>,
    pub base_array_layer: u32,
    pub array_layer_count: Option<u32>,
}

/// A count field where zero (or leaving it out) means "the rest".
pub open spec fn count_field(v: Value, key: Seq<char>) -> Option<u32> {
    let n = u32_field_or(v, key, 0);
    if n != 0 {
        Some(n)
    } else {
        None
    }
}

/// The texture view `v` describes.
pub open spec fn texture_view_of(v: Value) -> TextureViewDescriptor {
    TextureViewDescriptor {
        format: match string_field(v, "format"@) {
            Some(f) => Some(texture_format_named(f)),
            None => None,
        },
        dimension: match string_field(v, "dimension"@) {
            Some(d) => Some(view_dimension_of(Some(d))),
            None => None,
        },
        aspect: match string_field(v, "aspect"@) {
            Some(a) => if a == "depth-only"@ {
                TextureAspect::DepthOnly
            } else if a == "stencil-only"@ {
                TextureAspect::StencilOnly
            } else {
                TextureAspect::All
            },
            None => TextureAspect::All,
        },
        base_mip_level: u32_field_or(v, "baseMipLevel"@, 0),
        mip_level_count: count_field(v, "mipLevelCount"@),
        base_array_layer: u32_field_or(v, "baseArrayLayer"@, 0),
        array_layer_count: count_field(v, "arrayLayerCount"@),
    }
}

/// Reads a texture view descriptor.
pub fn texture_view_descriptor(value: &Value) -> (r: TextureViewDescriptor)
    ensures
        r == texture_view_of(*value),
{
    let format = match field_string(value, "format") {
        Some(f) => Some(texture_format(f.as_str())),
        None => None,
    };
    let dimension = match field_string(value, "dimension") {
        Some(d) => Some(texture_view_dimension(Some(d.as_str()))),
        None => None,
    };
    let aspect = match field_string(value, "aspect") {
        Some(a) => if text_eq(a.as_str(), "depth-only") {
            TextureAspect::DepthOnly
        } else if text_eq(a.as_str(), "stencil-only") {
            TextureAspect::StencilOnly
        } else {
            TextureAspect::All
        },
        None => TextureAspect::All,
    };
    TextureViewDescriptor {
        format,
        dimension,
        aspect,
        base_mip_level: field_u32_or(value, "baseMipLevel", 0),
        mip_level_count: optional_u32(field_u32_or(value, "mipLevelCount", 0)),
        base_array_layer: field_u32_or(value, "baseArrayLayer", 0),
        array_layer_count: optional_u32(field_u32_or(value, "arrayLayerCount", 0)),
    }
}

/// How a shader reads a buffer binding.
#[derive(Debug, Clone, Copy, PartialEq, Eq, Structural)]
pub enum BufferBindingType {
    Uniform,
    Storage { read_only: bool },
}

/// How a shader samples through a sampler binding.
#[derive(Debug, Clone, Copy, PartialEq, Eq, Structural)]
pub enum SamplerBindingType {
    Filtering,
    NonFiltering,
    Comparison,
}

/// What a shader reads from a texture binding.
#[derive(Debug, Clone, Copy, PartialEq, Eq, Structural)]
pub enum TextureSampleType {
    Float { filterable: bool },
    Depth,
    Sint,
    Uint,
}

/// How a shader accesses a storage texture.
#[derive(Debug, Clone, Copy, PartialEq, Eq, Structural)]
pub enum StorageTextureAccess {
    WriteOnly,
    ReadOnly,
    ReadWrite,
}

/// The resource type of a bind group layout entry.
#[derive(Debug, Clone, Copy, PartialEq, Eq, Structural)]
pub enum BindingType {
    Buffer { ty: BufferBindingType, has_dynamic_offset: bool, min_binding_size: Option<u64> },
    Sampler(SamplerBindingType),
    Texture { sample_type: TextureSampleType, view_dimension: ViewDimension, multisampled: bool },
    StorageTexture { access: StorageTextureAccess, format: TextureFormat, view_dimension: ViewDimension },
}

/// An entry of a bind group layout.
#[derive(Debug, Clone, Copy, PartialEq, Eq, Structural)]
pub struct BindGroupLayoutEntry {
    pub binding: u32,
    /// Shader stage bits (vertex 1, fragment 2, compute 4).
    pub visibility: u32,
    pub ty: BindingType,
}

/// `Some(value)` unless it is zero (a left-out minimum binding size).
pub fn non_zero_u64(value: u64) -> (r: Option<u64>)
    ensures
        r == if value != 0 {
            Some(value)
        } else {
            None::<u64>
        },
{
    if value != 0 {
        Some(value)
    } else {
        None
    }
}

/// The resource type of the entry `v`, by the first of `buffer`, `sampler`,
/// `texture`, `storageTexture` and `externalTexture` it has (an external
/// texture is read as a filterable 2D float texture); `None` when it has
/// none of them.
pub open spec fn binding_type_of(v: Value) -> Option<BindingType> {
    if field(v, "buffer"@) is Some {
        let b = field(v, "buffer"@)->0;
        let kind = string_or(b, "type"@, "uniform"@);
        Some(
            BindingType::Buffer {
                ty: if kind == "storage"@ {
                    BufferBindingType::Storage { read_only: false }
                } else if kind == "read-only-storage"@ {
                    BufferBindingType::Storage { read_only: true }
                } else {
                    BufferBindingType::Uniform
                },
                has_dynamic_offset: flag_field_or(b, "hasDynamicOffset"@, false),
                min_binding_size: if u64_field_or(b, "minBindingSize"@, 0) != 0 {
                    Some(u64_field_or(b, "minBindingSize"@, 0))
                } else {
                    None
                },
            },
        )
    } else if field(v, "sampler"@) is Some {
        let kind = string_or(field(v, "sampler"@)->0, "type"@, "filtering"@);
        Some(
            BindingType::Sampler(
                if kind == "non-filtering"@ {
                    SamplerBindingType::NonFiltering
                } else if kind == "comparison"@ {
                    SamplerBindingType::Comparison
                } else {
                    SamplerBindingType::Filtering
                },
            ),
        )
    } else if field(v, "texture"@) is Some {
        let t = field(v, "texture"@)->0;
        let kind = string_or(t, "sampleType"@, "float"@);
        Some(
            BindingType::Texture {
                sample_type: if kind == "unfilterable-float"@ {
                    TextureSampleType::Float { filterable: false }
                } else if kind == "depth"@ {
                    TextureSampleType::Depth
                } else if kind == "sint"@ {
                    TextureSampleType::Sint
                } else if kind == "uint"@ {
                    TextureSampleType::Uint
                } else {
                    TextureSampleType::Float { filterable: true }
                },
                view_dimension: view_dimension_of(string_field(t, "viewDimension"@)),
                multisampled: flag_field_or(t, "multisampled"@, false),
            },
        )
    } else if field(v, "storageTexture"@) is Some {
        let t = field(v, "storageTexture"@)->0;
        let access = string_or(t, "access"@, "write-only"@);
        Some(
            BindingType::StorageTexture {
                access: if access == "read-only"@ {
                    StorageTextureAccess::ReadOnly
                } else if access == "read-write"@ {
                    StorageTextureAccess::ReadWrite
                } else {
                    StorageTextureAccess::WriteOnly
                },
                format: texture_format_named(string_or(t, "format"@, "rgba8unorm"@)),
                view_dimension: view_dimension_of(string_field(t, "viewDimension"@)),
            },
        )
    } else if field(v, "externalTexture"@) is Some {
        Some(
            BindingType::Texture {
                sample_type: TextureSampleType::Float { filterable: true },
                view_dimension: ViewDimension::D2,
                multisampled: false,
            },
        )
    } else {
        None
    }
}

/// The bind group layout entry `v` describes, or its refusal.
pub open spec fn layout_entry_of(v: Value) -> Result<BindGroupLayoutEntry, PipelineError> {
    let binding = u32_field_or(v, "binding"@, 0);
    match binding_type_of(v) {
        Some(ty) => Ok(
            BindGroupLayoutEntry {
                binding,
                visibility: u32_field_or(v, "visibility"@, 0) & SHADER_STAGE_MASK,
                ty,
            },
        ),
        None => Err(PipelineError::UnsupportedEntry(binding)),
    }
}

/// Reads a bind group layout entry.
pub fn bind_group_layout_entry(value: &Value) -> (r: Result<BindGroupLayoutEntry, PipelineError>)
    ensures
        r == layout_entry_of(*value),
{
    let binding = field_u32_or(value, "binding", 0);
    let visibility = shader_stages(field_u32_or(value, "visibility", 0));
    let ty = if let Some(b) = json_field(value, "buffer") {
        let kind = field_string_or(b, "type", "uniform");
        BindingType::Buffer {
            ty: if text_eq(kind.as_str(), "storage") {
                BufferBindingType::Storage { read_only: false }
            } else if text_eq(kind.as_str(), "read-only-storage") {
                BufferBindingType::Storage { read_only: true }
            } else {
                BufferBindingType::Uniform
            },
            has_dynamic_offset: field_flag_or(b, "hasDynamicOffset", false),
            min_binding_size: non_zero_u64(field_u64_or(b, "minBindingSize", 0)),
        }
    } else if let Some(sampler) = json_field(value, "sampler") {
        let kind = field_string_or(sampler, "type", "filtering");
        BindingType::Sampler(
            if text_eq(kind.as_str(), "non-filtering") {
                SamplerBindingType::NonFiltering
            } else if text_eq(kind.as_str(), "comparison") {
                SamplerBindingType::Comparison
            } else {
                SamplerBindingType::Filtering
            },
        )
    } else if let Some(t) = json_field(value, "texture") {
        let kind = field_string_or(t, "sampleType", "float");
        BindingType::Texture {
            sample_type: if text_eq(kind.as_str(), "unfilterable-float") {
                TextureSampleType::Float { filterable: false }
            } else if text_eq(kind.as_str(), "depth") {
                TextureSampleType::Depth
            } else if text_eq(kind.as_str(), "sint") {
                TextureSampleType::Sint
            } else if text_eq(kind.as_str(), "uint") {
                TextureSampleType::Uint
            } else {
                TextureSampleType::Float { filterable: true }
            },
            view_dimension: view_dimension_field(t, "viewDimension"),
            multisampled: field_flag_or(t, "multisampled", false),
        }
    } else if let Some(t) = json_field(value, "storageTexture") {
        let access = field_string_or(t, "access", "write-only");
        let format = field_string_or(t, "format", "rgba8unorm");
        BindingType::StorageTexture {
            access: if text_eq(access.as_str(), "read-only") {
                StorageTextureAccess::ReadOnly
            } else if text_eq(access.as_str(), "read-write") {
                StorageTextureAccess::ReadWrite
            } else {
                StorageTextureAccess::WriteOnly
            },
            format: texture_format(format.as_str()),
            view_dimension: view_dimension_field(t, "viewDimension"),
        }
    } else if json_field(value, "externalTexture").is_some() {
        BindingType::Texture {
            sample_type: TextureSampleType::Float { filterable: true },
            view_dimension: ViewDimension::D2,
            multisampled: false,
        }
    } else {
        return Err(PipelineError::UnsupportedEntry(binding));
    };
    Ok(BindGroupLayoutEntry { binding, visibility, ty })
}

/// Whether a vertex buffer advances per vertex or per instance.
#[derive(Debug, Clone, Copy, PartialEq, Eq, Structural)]
pub enum VertexStepMode {
    Vertex,
    Instance,
}

/// An attribute of a vertex buffer.
#[derive(Debug, Clone, Copy, PartialEq, Eq, Structural)]
pub struct VertexAttribute {
    pub format: VertexFormat,
    pub offset: u64,
    pub shader_location: u32,
}

/// A vertex buffer layout of a render pipeline.
#[derive(Debug, Clone)]
pub struct VertexBufferLayout {
    pub array_stride: u64,
    pub step_mode: VertexStepMode,
    pub attributes: Vec<VertexAttribute>,
}

/// The vertex attribute `a` describes: `float32x4` at offset 0 and
/// location 0 by default.
pub open spec fn vertex_attribute_of(a: Value) -> VertexAttribute {
    VertexAttribute {
        format: vertex_format_named(string_or(a, "format"@, "float32x4"@)),
        offset: u64_field_or(a, "offset"@, 0),
        shader_location: u32_field_or(a, "shaderLocation"@, 0),
    }
}

/// Why a vertex buffer layout is refused, if it is.
pub open spec fn vertex_layout_error(v: Value) -> Option<PipelineError> {
    match field(v, "attributes"@) {
        Some(a) => if json_shape(a) is Array {
            None
        } else {
            Some(PipelineError::AttributesNotArray)
        },
        None => Some(PipelineError::AttributesNotArray),
    }
}

/// `l` is the vertex buffer layout `v` describes (given it is not
/// refused): stride 0 and per-vertex stepping by default.
pub open spec fn vertex_layout_of(v: Value, l: VertexBufferLayout) -> bool {
    let attributes = match json_shape(field(v, "attributes"@)->0) {
        JsonShape::Array(items) => items,
        _ => Seq::empty(),
    };
    &&& l.array_stride == u64_field_or(v, "arrayStride"@, 0)
    &&& l.step_mode == if string_or(v, "stepMode"@, "vertex"@) == "instance"@ {
        VertexStepMode::Instance
    } else {
        VertexStepMode::Vertex
    }
    &&& l.attributes@ == attributes.map_values(|a: Value| vertex_attribute_of(a))
}

/// Reads a vertex attribute.
fn vertex_attribute(a: &Value) -> (r: VertexAttribute)
    ensures
        r == vertex_attribute_of(*a),
{
    let format = field_string_or(a, "format", "float32x4");
    VertexAttribute {
        format: vertex_format(format.as_str()),
        offset: field_u64_or(a, "offset", 0),
        shader_location: field_u32_or(a, "shaderLocation", 0),
    }
}

/// Reads a vertex buffer layout.
pub fn vertex_buffer_layout(value: &Value) -> (r: Result<VertexBufferLayout, PipelineError>)
    ensures
        match r {
            Ok(l) => vertex_layout_error(*value) is None && vertex_layout_of(*value, l),
            Err(e) => vertex_layout_error(*value) == Some(e),
        },
{
    let items = match json_field(value, "attributes") {
        Some(a) => json_items(a),
        None => None,
    };
    let items = match items {
        Some(items) => items,
        None => return Err(PipelineError::AttributesNotArray),
    };
    let mut attributes: Vec<VertexAttribute> = Vec::new();
    let mut k: usize = 0;
    while k < items.len()
        invariant
            k <= items@.len(),
            attributes@ == items@.take(k as int).map_values(|a: Value| vertex_attribute_of(a)),
        decreases items.len() - k,
    {
        attributes.push(vertex_attribute(&items[k]));
        k = k + 1;
        proof {
            assert(attributes@ =~= items@.take(k as int).map_values(|a: Value| vertex_attribute_of(a)));
        }
    }
    proof {
        assert(items@.take(items@.len() as int) =~= items@);
    }
    let step = field_string_or(value, "stepMode", "vertex");
    Ok(
        VertexBufferLayout {
            array_stride: field_u64_or(value, "arrayStride", 0),
            step_mode: if text_eq(step.as_str(), "instance") {
                VertexStepMode::Instance
            } else {
                VertexStepMode::Vertex
            },
            attributes,
        },
    )
}

/// Texture coordinate wrapping of a sampler.
#[derive(Debug, Clone, Copy, PartialEq, Eq, Structural)]
pub enum AddressMode {
    ClampToEdge,
    Repeat,
    MirrorRepeat,
}

/// Texel filtering of a sampler.
#[derive(Debug, Clone, Copy, PartialEq, Eq, Structural)]
pub enum FilterMode {
    Nearest,
    Linear,
}

/// The address mode of an optional name: clamping by default.
pub open spec fn address_mode_of(name: Option<Seq<char>>) -> AddressMode {
    let n = match name {
        Some(n) => n,
        None => "clamp-to-edge"@,
    };
    if n == "repeat"@ {
        AddressMode::Repeat
    } else if n == "mirror-repeat"@ {
        AddressMode::MirrorRepeat
    } else {
        AddressMode::ClampToEdge
    }
}

/// The filter mode of an optional name: nearest by default.
pub open spec fn filter_mode_of(name: Option<Seq<char>>) -> FilterMode {
    let n = match name {
        Some(n) => n,
        None => "nearest"@,
    };
    if n == "linear"@ {
        FilterMode::Linear
    } else {
        FilterMode::Nearest
    }
}

/// Reads an optional address mode name.
pub fn address_mode(value: Option<&str>) -> (r: AddressMode)
    ensures
        r == address_mode_of(
            match value {
                Some(v) => Some(v@),
                None => None,
            },
        ),
{
    let name = match value {
        Some(v) => v,
        None => "clamp-to-edge",
    };
    if text_eq(name, "repeat") {
        AddressMode::Repeat
    } else if text_eq(name, "mirror-repeat") {
        AddressMode::MirrorRepeat
    } else {
        AddressMode::ClampToEdge
    }
}

/// Reads an optional filter mode name.
pub fn filter_mode(value: Option<&str>) -> (r: FilterMode)
    ensures
        r == filter_mode_of(
            match value {
                Some(v) => Some(v@),
                None => None,
            },
        ),
{
    let name = match value {
        Some(v) => v,
        None => "nearest",
    };
    if text_eq(name, "linear") {
        FilterMode::Linear
    } else {
        FilterMode::Nearest
    }
}

/// A sampler descriptor, without its level-of-detail clamps (read by the
/// host as floats).
#[derive(Debug, Clone, Copy, PartialEq, Eq, Structural)]
pub struct SamplerDescriptor {
    pub address_mode_u: AddressMode,
    pub address_mode_v: AddressMode,
    pub address_mode_w: AddressMode,
    pub mag_filter: FilterMode,
    pub min_filter: FilterMode,
    pub mipmap_filter: FilterMode,
    pub compare: Option<CompareFunction>,
    pub anisotropy_clamp: u16,
}

/// The sampler `v` describes.
pub open spec fn sampler_of(v: Value) -> SamplerDescriptor {
    SamplerDescriptor {
        address_mode_u: address_mode_of(string_field(v, "addressModeU"@)),
        address_mode_v: address_mode_of(string_field(v, "addressModeV"@)),
        address_mode_w: address_mode_of(string_field(v, "addressModeW"@)),
        mag_filter: filter_mode_of(string_field(v, "magFilter"@)),
        min_filter: filter_mode_of(string_field(v, "minFilter"@)),
        mipmap_filter: filter_mode_of(string_field(v, "mipmapFilter"@)),
        compare: match string_field(v, "compare"@) {
            Some(c) => Some(compare_function_named(Some(c))),
            None => None,
        },
        anisotropy_clamp: u32_field_or(v, "maxAnisotropy"@, 1) as u16,
    }
}

/// Reads an address mode field.
fn address_mode_field(v: &Value, key: &str) -> (r: AddressMode)
    ensures
        r == address_mode_of(string_field(*v, key@)),
{
    match field_string(v, key) {
        Some(s) => address_mode(Some(s.as_str())),
        None => address_mode(None),
    }
}

/// Reads a filter mode field.
fn filter_mode_field(v: &Value, key: &str) -> (r: FilterMode)
    ensures
        r == filter_mode_of(string_field(*v, key@)),
{
    match field_string(v, key) {
        Some(s) => filter_mode(Some(s.as_str())),
        None => filter_mode(None),
    }
}

/// Reads a sampler descriptor.
pub fn sampler_descriptor(value: &Value) -> (r: SamplerDescriptor)
    ensures
        r == sampler_of(*value),
{
    let compare = match field_string(value, "compare") {
        Some(c) => Some(compare_function(Some(c.as_str()))),
        None => None,
    };
    SamplerDescriptor {
        address_mode_u: address_mode_field(value, "addressModeU"),
        address_mode_v: address_mode_field(value, "addressModeV"),
        address_mode_w: address_mode_field(value, "addressModeW"),
        mag_filter: filter_mode_field(value, "magFilter"),
        min_filter: filter_mode_field(value, "minFilter"),
        mipmap_filter: filter_mode_field(value, "mipmapFilter"),
        compare,
        anisotropy_clamp: field_u32_or(value, "maxAnisotropy", 1) as u16,
    }
}

/// The kind of queries a query set holds.
#[derive(Debug, Clone, Copy, PartialEq, Eq, Structural)]
pub enum QueryType {
    Occlusion,
    Timestamp,
}

/// The query set `v` describes (its type and count), or its refusal:
/// timestamp queries need device support, pipeline statistics are not
/// supported, and the count must be positive.
pub open spec fn query_set_of(v: Value, timestamps_supported: bool) -> Result<(QueryType, u32), PipelineError> {
    let ty = match string_field(v, "type"@) {
        None => Err(PipelineError::NoQueryType),
        Some(t) => if t == "occlusion"@ {
            Ok(QueryType::Occlusion)
        } else if t == "timestamp"@ {
            if timestamps_supported {
                Ok(QueryType::Timestamp)
            } else {
                Err(PipelineError::TimestampQueryUnsupported)
            }
        } else if t == "pipeline-statistics"@ {
            Err(PipelineError::PipelineStatisticsUnsupported)
        } else {
            Err(PipelineError::UnsupportedQueryType)
        },
    };
    match ty {
        Err(e) => Err(e),
        Ok(ty) => if u32_field_or(v, "count"@, 0) == 0 {
            Err(PipelineError::ZeroQueryCount)
        } else {
            Ok((ty, u32_field_or(v, "count"@, 0)))
        },
    }
}

/// Reads a query set descriptor.
pub fn query_set_descriptor(value: &Value, timestamps_supported: bool) -> (r: Result<(QueryType, u32), PipelineError>)
    ensures
        r == query_set_of(*value, timestamps_supported),
{
    let ty = match field_string(value, "type") {
        None => return Err(PipelineError::NoQueryType),
        Some(t) => if text_eq(t.as_str(), "occlusion") {
            QueryType::Occlusion
        } else if text_eq(t.as_str(), "timestamp") {
            if !timestamps_supported {
                return Err(PipelineError::TimestampQueryUnsupported);
            }
            QueryType::Timestamp
        } else if text_eq(t.as_str(), "pipeline-statistics") {
            return Err(PipelineError::PipelineStatisticsUnsupported);
        } else {
            return Err(PipelineError::UnsupportedQueryType);
        },
    };
    let count = field_u32_or(value, "count", 0);
    if count == 0 {
        return Err(PipelineError::ZeroQueryCount);
    }
    Ok((ty, count))
}

} // verus!

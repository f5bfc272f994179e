//! The names WebGPU descriptors use for formats and GPU state, read into
//! the library's own enums; the host maps each variant to the native
//! graphics API's. Unknown names take the same defaults as the native
//! bridge always has.
use vstd::prelude::*;
use crate::text::{chars_of, matches_at_exec, starts_with, text_eq};

verus! {

/// ASTC block footprints.
#[derive(Debug, Clone, Copy, PartialEq, Eq, Structural)]
pub enum AstcBlock {
    B4x4,
    B5x4,
    B5x5,
    B6x5,
    B6x6,
    B8x5,
    B8x6,
    B8x8,
    B10x5,
    B10x6,
    B10x8,
    B10x10,
    B12x10,
    B12x12,
}

/// Texture formats.
#[derive(Debug, Clone, Copy, PartialEq, Eq, Structural)]
pub enum TextureFormat {
    R8Unorm,
    R8Snorm,
    R8Uint,
    R8Sint,
    R16Uint,
    R16Sint,
    R16Float,
    Rg8Unorm,
    Rg8Snorm,
    Rg8Uint,
    Rg8Sint,
    Rg16Uint,
    Rg16Sint,
    Rg16Float,
    Rgba8Unorm,
    Bgra8Unorm,
    Bgra8UnormSrgb,
    Rgba8UnormSrgb,
    Rgba8Snorm,
    Rgba8Uint,
    Rgba8Sint,
    Rgba16Uint,
    Rgba16Sint,
    Rgba16Unorm,
    Rgba16Snorm,
    Rgba16Float,
    Rg32Uint,
    Rg32Sint,
    Rg32Float,
    Rgba32Uint,
    Rgba32Sint,
    Rgba32Float,
    Rgb9e5Ufloat,
    Rgb10a2Uint,
    Rgb10a2Unorm,
    Rg11b10Float,
    R32Float,
    R32Uint,
    R32Sint,
    Depth24Plus,
    Depth24PlusStencil8,
    Depth32Float,
    Depth32FloatStencil8,
    Depth16Unorm,
    Stencil8,
    Bc1RgbaUnorm,
    Bc1RgbaUnormSrgb,
    Bc2RgbaUnorm,
    Bc2RgbaUnormSrgb,
    Bc3RgbaUnorm,
    Bc3RgbaUnormSrgb,
    Bc4RUnorm,
    Bc4RSnorm,
    Bc5RgUnorm,
    Bc5RgSnorm,
    Bc6hRgbUfloat,
    Bc6hRgbFloat,
    Bc7RgbaUnorm,
    Bc7RgbaUnormSrgb,
    Etc2Rgb8Unorm,
    Etc2Rgb8UnormSrgb,
    Etc2Rgb8A1Unorm,
    Etc2Rgb8A1UnormSrgb,
    Etc2Rgba8Unorm,
    Etc2Rgba8UnormSrgb,
    EacR11Unorm,
    EacR11Snorm,
    EacRg11Unorm,
    EacRg11Snorm,
    /// An ASTC compressed format, linear or sRGB.
    Astc { block: AstcBlock, srgb: bool },
}

/// Vertex attribute formats.
#[derive(Debug, Clone, Copy, PartialEq, Eq, Structural)]
pub enum VertexFormat {
    Float32,
    Float32x2,
    Float32x3,
    Uint32,
    Uint32x2,
    Uint32x3,
    Uint32x4,
    Sint32,
    Sint32x2,
    Sint32x3,
    Sint32x4,
    Unorm8x4,
    Snorm8x4,
    Uint8x4,
    Sint8x4,
    Unorm16x2,
    Unorm16x4,
    Snorm16x2,
    Snorm16x4,
    Uint16x2,
    Uint16x4,
    Sint16x2,
    Sint16x4,
    Float32x4,
}

/// Blend factors.
#[derive(Debug, Clone, Copy, PartialEq, Eq, Structural)]
pub enum BlendFactor {
    Zero,
    Src,
    OneMinusSrc,
    SrcAlpha,
    OneMinusSrcAlpha,
    Dst,
    OneMinusDst,
    DstAlpha,
    OneMinusDstAlpha,
    SrcAlphaSaturated,
    Constant,
    OneMinusConstant,
    One,
}

/// Blend operations.
#[derive(Debug, Clone, Copy, PartialEq, Eq, Structural)]
pub enum BlendOperation {
    Subtract,
    ReverseSubtract,
    Min,
    Max,
    Add,
}

/// Depth and sampler comparison functions.
#[derive(Debug, Clone, Copy, PartialEq, Eq, Structural)]
pub enum CompareFunction {
    Never,
    Less,
    Equal,
    LessEqual,
    Greater,
    NotEqual,
    GreaterEqual,
    Always,
}

/// The ASTC format a name gives (`astc-<block>-unorm[-srgb]`);
/// `rgba8unorm` for an unknown ASTC name.
pub open spec fn astc_format_named(name: Seq<char>) -> TextureFormat {
    if name == "astc-4x4-unorm"@ {
        TextureFormat::Astc { block: AstcBlock::B4x4, srgb: false }
    } else if name == "astc-4x4-unorm-srgb"@ {
        TextureFormat::Astc { block: AstcBlock::B4x4, srgb: true }
    } else if name == "astc-5x4-unorm"@ {
        TextureFormat::Astc { block: AstcBlock::B5x4, srgb: false }
    } else if name == "astc-5x4-unorm-srgb"@ {
        TextureFormat::Astc { block: AstcBlock::B5x4, srgb: true }
    } else if name == "astc-5x5-unorm"@ {
        TextureFormat::Astc { block: AstcBlock::B5x5, srgb: false }
    } else if name == "astc-5x5-unorm-srgb"@ {
        TextureFormat::Astc { block: AstcBlock::B5x5, srgb: true }
    } else if name == "astc-6x5-unorm"@ {
        TextureFormat::Astc { block: AstcBlock::B6x5, srgb: false }
    } else if name == "astc-6x5-unorm-srgb"@ {
        TextureFormat::Astc { block: AstcBlock::B6x5, srgb: true }
    } else if name == "astc-6x6-unorm"@ {
        TextureFormat::Astc { block: AstcBlock::B6x6, srgb: false }
    } else if name == "astc-6x6-unorm-srgb"@ {
        TextureFormat::Astc { block: AstcBlock::B6x6, srgb: true }
    } else if name == "astc-8x5-unorm"@ {
        TextureFormat::Astc { block: AstcBlock::B8x5, srgb: false }
    } else if name == "astc-8x5-unorm-srgb"@ {
        TextureFormat::Astc { block: AstcBlock::B8x5, srgb: true }
    } else if name == "astc-8x6-unorm"@ {
        TextureFormat::Astc { block: AstcBlock::B8x6, srgb: false }
    } else if name == "astc-8x6-unorm-srgb"@ {
        TextureFormat::Astc { block: AstcBlock::B8x6, srgb: true }
    } else if name == "astc-8x8-unorm"@ {
        TextureFormat::Astc { block: AstcBlock::B8x8, srgb: false }
    } else if name == "astc-8x8-unorm-srgb"@ {
        TextureFormat::Astc { block: AstcBlock::B8x8, srgb: true }
    } else if name == "astc-10x5-unorm"@ {
        TextureFormat::Astc { block: AstcBlock::B10x5, srgb: false }
    } else if name == "astc-10x5-unorm-srgb"@ {
        TextureFormat::Astc { block: AstcBlock::B10x5, srgb: true }
    } else if name == "astc-10x6-unorm"@ {
        TextureFormat::Astc { block: AstcBlock::B10x6, srgb: false }
    } else if name == "astc-10x6-unorm-srgb"@ {
        TextureFormat::Astc { block: AstcBlock::B10x6, srgb: true }
    } else if name == "astc-10x8-unorm"@ {
        TextureFormat::Astc { block: AstcBlock::B10x8, srgb: false }
    } else if name == "astc-10x8-unorm-srgb"@ {
        TextureFormat::Astc { block: AstcBlock::B10x8, srgb: true }
    } else if name == "astc-10x10-unorm"@ {
        TextureFormat::Astc { block: AstcBlock::B10x10, srgb: false }
    } else if name == "astc-10x10-unorm-srgb"@ {
        TextureFormat::Astc { block: AstcBlock::B10x10, srgb: true }
    } else if name == "astc-12x10-unorm"@ {
        TextureFormat::Astc { block: AstcBlock::B12x10, srgb: false }
    } else if name == "astc-12x10-unorm-srgb"@ {
        TextureFormat::Astc { block: AstcBlock::B12x10, srgb: true }
    } else if name == "astc-12x12-unorm"@ {
        TextureFormat::Astc { block: AstcBlock::B12x12, srgb: false }
    } else if name == "astc-12x12-unorm-srgb"@ {
        TextureFormat::Astc { block: AstcBlock::B12x12, srgb: true }
    } else {
        TextureFormat::Rgba8Unorm
    }
}

/// The texture format a name gives; `rgba8unorm` for an unknown name.
pub open spec fn texture_format_named(name: Seq<char>) -> TextureFormat {
    if name == "r8unorm"@ {
        TextureFormat::R8Unorm
    } else if name == "r8snorm"@ {
        TextureFormat::R8Snorm
    } else if name == "r8uint"@ {
        TextureFormat::R8Uint
    } else if name == "r8sint"@ {
        TextureFormat::R8Sint
    } else if name == "r16uint"@ {
        TextureFormat::R16Uint
    } else if name == "r16sint"@ {
        TextureFormat::R16Sint
    } else if name == "r16float"@ {
        TextureFormat::R16Float
    } else if name == "rg8unorm"@ {
        TextureFormat::Rg8Unorm
    } else if name == "rg8snorm"@ {
        TextureFormat::Rg8Snorm
    } else if name == "rg8uint"@ {
        TextureFormat::Rg8Uint
    } else if name == "rg8sint"@ {
        TextureFormat::Rg8Sint
    } else if name == "rg16uint"@ {
        TextureFormat::Rg16Uint
    } else if name == "rg16sint"@ {
        TextureFormat::Rg16Sint
    } else if name == "rg16float"@ {
        TextureFormat::Rg16Float
    } else if name == "rgba8unorm"@ {
        TextureFormat::Rgba8Unorm
    } else if name == "bgra8unorm"@ {
        TextureFormat::Bgra8Unorm
    } else if name == "bgra8unorm-srgb"@ {
        TextureFormat::Bgra8UnormSrgb
    } else if name == "rgba8unorm-srgb"@ {
        TextureFormat::Rgba8UnormSrgb
    } else if name == "rgba8snorm"@ {
        TextureFormat::Rgba8Snorm
    } else if name == "rgba8uint"@ {
        TextureFormat::Rgba8Uint
    } else if name == "rgba8sint"@ {
        TextureFormat::Rgba8Sint
    } else if name == "rgba16uint"@ {
        TextureFormat::Rgba16Uint
    } else if name == "rgba16sint"@ {
        TextureFormat::Rgba16Sint
    } else if name == "rgba16unorm"@ {
        TextureFormat::Rgba16Unorm
    } else if name == "rgba16snorm"@ {
        TextureFormat::Rgba16Snorm
    } else if name == "rgba16float"@ {
        TextureFormat::Rgba16Float
    } else if name == "rg32uint"@ {
        TextureFormat::Rg32Uint
    } else if name == "rg32sint"@ {
        TextureFormat::Rg32Sint
    } else if name == "rg32float"@ {
        TextureFormat::Rg32Float
    } else if name == "rgba32uint"@ {
        TextureFormat::Rgba32Uint
    } else if name == "rgba32sint"@ {
        TextureFormat::Rgba32Sint
    } else if name == "rgba32float"@ {
        TextureFormat::Rgba32Float
    } else if name == "rgb9e5ufloat"@ {
        TextureFormat::Rgb9e5Ufloat
    } else if name == "rgb10a2uint"@ {
        TextureFormat::Rgb10a2Uint
    } else if name == "rgb10a2unorm"@ {
        TextureFormat::Rgb10a2Unorm
    } else if name == "rg11b10ufloat"@ {
        TextureFormat::Rg11b10Float
    } else if name == "r32float"@ {
        TextureFormat::R32Float
    } else if name == "r32uint"@ {
        TextureFormat::R32Uint
    } else if name == "r32sint"@ {
        TextureFormat::R32Sint
    } else if name == "depth24plus"@ {
        TextureFormat::Depth24Plus
    } else if name == "depth24plus-stencil8"@ {
        TextureFormat::Depth24PlusStencil8
    } else if name == "depth32float"@ {
        TextureFormat::Depth32Float
    } else if name == "depth32float-stencil8"@ {
        TextureFormat::Depth32FloatStencil8
    } else if name == "depth16unorm"@ {
        TextureFormat::Depth16Unorm
    } else if name == "stencil8"@ {
        TextureFormat::Stencil8
    } else if name == "bc1-rgba-unorm"@ {
        TextureFormat::Bc1RgbaUnorm
    } else if name == "bc1-rgba-unorm-srgb"@ {
        TextureFormat::Bc1RgbaUnormSrgb
    } else if name == "bc2-rgba-unorm"@ {
        TextureFormat::Bc2RgbaUnorm
    } else if name == "bc2-rgba-unorm-srgb"@ {
        TextureFormat::Bc2RgbaUnormSrgb
    } else if name == "bc3-rgba-unorm"@ {
        TextureFormat::Bc3RgbaUnorm
    } else if name == "bc3-rgba-unorm-srgb"@ {
        TextureFormat::Bc3RgbaUnormSrgb
    } else if name == "bc4-r-unorm"@ {
        TextureFormat::Bc4RUnorm
    } else if name == "bc4-r-snorm"@ {
        TextureFormat::Bc4RSnorm
    } else if name == "bc5-rg-unorm"@ {
        TextureFormat::Bc5RgUnorm
    } else if name == "bc5-rg-snorm"@ {
        TextureFormat::Bc5RgSnorm
    } else if name == "bc6h-rgb-ufloat"@ {
        TextureFormat::Bc6hRgbUfloat
    } else if name == "bc6h-rgb-float"@ {
        TextureFormat::Bc6hRgbFloat
    } else if name == "bc7-rgba-unorm"@ {
        TextureFormat::Bc7RgbaUnorm
    } else if name == "bc7-rgba-unorm-srgb"@ {
        TextureFormat::Bc7RgbaUnormSrgb
    } else if name == "etc2-rgb8unorm"@ {
        TextureFormat::Etc2Rgb8Unorm
    } else if name == "etc2-rgb8unorm-srgb"@ {
        TextureFormat::Etc2Rgb8UnormSrgb
    } else if name == "etc2-rgb8a1unorm"@ {
        TextureFormat::Etc2Rgb8A1Unorm
    } else if name == "etc2-rgb8a1unorm-srgb"@ {
        TextureFormat::Etc2Rgb8A1UnormSrgb
    } else if name == "etc2-rgba8unorm"@ {
        TextureFormat::Etc2Rgba8Unorm
    } else if name == "etc2-rgba8unorm-srgb"@ {
        TextureFormat::Etc2Rgba8UnormSrgb
    } else if name == "eac-r11unorm"@ {
        TextureFormat::EacR11Unorm
    } else if name == "eac-r11snorm"@ {
        TextureFormat::EacR11Snorm
    } else if name == "eac-rg11unorm"@ {
        TextureFormat::EacRg11Unorm
    } else if name == "eac-rg11snorm"@ {
        TextureFormat::EacRg11Snorm
    } else if starts_with(name, "astc-"@) {
        astc_format_named(name)
    } else {
        TextureFormat::Rgba8Unorm
    }
}

/// Reads an ASTC format name.
pub fn astc_texture_format(format: &str) -> (r: TextureFormat)
    ensures
        r == astc_format_named(format@),
{
    if text_eq(format, "astc-4x4-unorm") {
        TextureFormat::Astc { block: AstcBlock::B4x4, srgb: false }
    } else if text_eq(format, "astc-4x4-unorm-srgb") {
        TextureFormat::Astc { block: AstcBlock::B4x4, srgb: true }
    } else if text_eq(format, "astc-5x4-unorm") {
        TextureFormat::Astc { block: AstcBlock::B5x4, srgb: false }
    } else if text_eq(format, "astc-5x4-unorm-srgb") {
        TextureFormat::Astc { block: AstcBlock::B5x4, srgb: true }
    } else if text_eq(format, "astc-5x5-unorm") {
        TextureFormat::Astc { block: AstcBlock::B5x5, srgb: false }
    } else if text_eq(format, "astc-5x5-unorm-srgb") {
        TextureFormat::Astc { block: AstcBlock::B5x5, srgb: true }
    } else if text_eq(format, "astc-6x5-unorm") {
        TextureFormat::Astc { block: AstcBlock::B6x5, srgb: false }
    } else if text_eq(format, "astc-6x5-unorm-srgb") {
        TextureFormat::Astc { block: AstcBlock::B6x5, srgb: true }
    } else if text_eq(format, "astc-6x6-unorm") {
        TextureFormat::Astc { block: AstcBlock::B6x6, srgb: false }
    } else if text_eq(format, "astc-6x6-unorm-srgb") {
        TextureFormat::Astc { block: AstcBlock::B6x6, srgb: true }
    } else if text_eq(format, "astc-8x5-unorm") {
        TextureFormat::Astc { block: AstcBlock::B8x5, srgb: false }
    } else if text_eq(format, "astc-8x5-unorm-srgb") {
        TextureFormat::Astc { block: AstcBlock::B8x5, srgb: true }
    } else if text_eq(format, "astc-8x6-unorm") {
        TextureFormat::Astc { block: AstcBlock::B8x6, srgb: false }
    } else if text_eq(format, "astc-8x6-unorm-srgb") {
        TextureFormat::Astc { block: AstcBlock::B8x6, srgb: true }
    } else if text_eq(format, "astc-8x8-unorm") {
        TextureFormat::Astc { block: AstcBlock::B8x8, srgb: false }
    } else if text_eq(format, "astc-8x8-unorm-srgb") {
        TextureFormat::Astc { block: AstcBlock::B8x8, srgb: true }
    } else if text_eq(format, "astc-10x5-unorm") {
        TextureFormat::Astc { block: AstcBlock::B10x5, srgb: false }
    } else if text_eq(format, "astc-10x5-unorm-srgb") {
        TextureFormat::Astc { block: AstcBlock::B10x5, srgb: true }
    } else if text_eq(format, "astc-10x6-unorm") {
        TextureFormat::Astc { block: AstcBlock::B10x6, srgb: false }
    } else if text_eq(format, "astc-10x6-unorm-srgb") {
        TextureFormat::Astc { block: AstcBlock::B10x6, srgb: true }
    } else if text_eq(format, "astc-10x8-unorm") {
        TextureFormat::Astc { block: AstcBlock::B10x8, srgb: false }
    } else if text_eq(format, "astc-10x8-unorm-srgb") {
        TextureFormat::Astc { block: AstcBlock::B10x8, srgb: true }
    } else if text_eq(format, "astc-10x10-unorm") {
        TextureFormat::Astc { block: AstcBlock::B10x10, srgb: false }
    } else if text_eq(format, "astc-10x10-unorm-srgb") {
        TextureFormat::Astc { block: AstcBlock::B10x10, srgb: true }
    } else if text_eq(format, "astc-12x10-unorm") {
        TextureFormat::Astc { block: AstcBlock::B12x10, srgb: false }
    } else if text_eq(format, "astc-12x10-unorm-srgb") {
        TextureFormat::Astc { block: AstcBlock::B12x10, srgb: true }
    } else if text_eq(format, "astc-12x12-unorm") {
        TextureFormat::Astc { block: AstcBlock::B12x12, srgb: false }
    } else if text_eq(format, "astc-12x12-unorm-srgb") {
        TextureFormat::Astc { block: AstcBlock::B12x12, srgb: true }
    } else {
        TextureFormat::Rgba8Unorm
    }
}

/// The text starts with `astc-`.
fn has_astc_prefix(format: &str) -> (r: bool)
    ensures
        r == starts_with(format@, "astc-"@),
{
    let s = chars_of(format);
    let prefix = chars_of("astc-");
    matches_at_exec(&s, &prefix, 0)
}

/// Reads a texture format name.
pub fn texture_format(format: &str) -> (r: TextureFormat)
    ensures
        r == texture_format_named(format@),
{
    if text_eq(format, "r8unorm") {
        TextureFormat::R8Unorm
    } else if text_eq(format, "r8snorm") {
        TextureFormat::R8Snorm
    } else if text_eq(format, "r8uint") {
        TextureFormat::R8Uint
    } else if text_eq(format, "r8sint") {
        TextureFormat::R8Sint
    } else if text_eq(format, "r16uint") {
        TextureFormat::R16Uint
    } else if text_eq(format, "r16sint") {
        TextureFormat::R16Sint
    } else if text_eq(format, "r16float") {
        TextureFormat::R16Float
    } else if text_eq(format, "rg8unorm") {
        TextureFormat::Rg8Unorm
    } else if text_eq(format, "rg8snorm") {
        TextureFormat::Rg8Snorm
    } else if text_eq(format, "rg8uint") {
        TextureFormat::Rg8Uint
    } else if text_eq(format, "rg8sint") {
        TextureFormat::Rg8Sint
    } else if text_eq(format, "rg16uint") {
        TextureFormat::Rg16Uint
    } else if text_eq(format, "rg16sint") {
        TextureFormat::Rg16Sint
    } else if text_eq(format, "rg16float") {
        TextureFormat::Rg16Float
    } else if text_eq(format, "rgba8unorm") {
        TextureFormat::Rgba8Unorm
    } else if text_eq(format, "bgra8unorm") {
        TextureFormat::Bgra8Unorm
    } else if text_eq(format, "bgra8unorm-srgb") {
        TextureFormat::Bgra8UnormSrgb
    } else if text_eq(format, "rgba8unorm-srgb") {
        TextureFormat::Rgba8UnormSrgb
    } else if text_eq(format, "rgba8snorm") {
        TextureFormat::Rgba8Snorm
    } else if text_eq(format, "rgba8uint") {
        TextureFormat::Rgba8Uint
    } else if text_eq(format, "rgba8sint") {
        TextureFormat::Rgba8Sint
    } else if text_eq(format, "rgba16uint") {
        TextureFormat::Rgba16Uint
    } else if text_eq(format, "rgba16sint") {
        TextureFormat::Rgba16Sint
    } else if text_eq(format, "rgba16unorm") {
        TextureFormat::Rgba16Unorm
    } else if text_eq(format, "rgba16snorm") {
        TextureFormat::Rgba16Snorm
    } else if text_eq(format, "rgba16float") {
        TextureFormat::Rgba16Float
    } else if text_eq(format, "rg32uint") {
        TextureFormat::Rg32Uint
    } else if text_eq(format, "rg32sint") {
        TextureFormat::Rg32Sint
    } else if text_eq(format, "rg32float") {
        TextureFormat::Rg32Float
    } else if text_eq(format, "rgba32uint") {
        TextureFormat::Rgba32Uint
    } else if text_eq(format, "rgba32sint") {
        TextureFormat::Rgba32Sint
    } else if text_eq(format, "rgba32float") {
        TextureFormat::Rgba32Float
    } else if text_eq(format, "rgb9e5ufloat") {
        TextureFormat::Rgb9e5Ufloat
    } else if text_eq(format, "rgb10a2uint") {
        TextureFormat::Rgb10a2Uint
    } else if text_eq(format, "rgb10a2unorm") {
        TextureFormat::Rgb10a2Unorm
    } else if text_eq(format, "rg11b10ufloat") {
        TextureFormat::Rg11b10Float
    } else if text_eq(format, "r32float") {
        TextureFormat::R32Float
    } else if text_eq(format, "r32uint") {
        TextureFormat::R32Uint
    } else if text_eq(format, "r32sint") {
        TextureFormat::R32Sint
    } else if text_eq(format, "depth24plus") {
        TextureFormat::Depth24Plus
    } else if text_eq(format, "depth24plus-stencil8") {
        TextureFormat::Depth24PlusStencil8
    } else if text_eq(format, "depth32float") {
        TextureFormat::Depth32Float
    } else if text_eq(format, "depth32float-stencil8") {
        TextureFormat::Depth32FloatStencil8
    } else if text_eq(format, "depth16unorm") {
        TextureFormat::Depth16Unorm
    } else if text_eq(format, "stencil8") {
        TextureFormat::Stencil8
    } else if text_eq(format, "bc1-rgba-unorm") {
        TextureFormat::Bc1RgbaUnorm
    } else if text_eq(format, "bc1-rgba-unorm-srgb") {
        TextureFormat::Bc1RgbaUnormSrgb
    } else if text_eq(format, "bc2-rgba-unorm") {
        TextureFormat::Bc2RgbaUnorm
    } else if text_eq(format, "bc2-rgba-unorm-srgb") {
        TextureFormat::Bc2RgbaUnormSrgb
    } else if text_eq(format, "bc3-rgba-unorm") {
        TextureFormat::Bc3RgbaUnorm
    } else if text_eq(format, "bc3-rgba-unorm-srgb") {
        TextureFormat::Bc3RgbaUnormSrgb
    } else if text_eq(format, "bc4-r-unorm") {
        TextureFormat::Bc4RUnorm
    } else if text_eq(format, "bc4-r-snorm") {
        TextureFormat::Bc4RSnorm
    } else if text_eq(format, "bc5-rg-unorm") {
        TextureFormat::Bc5RgUnorm
    } else if text_eq(format, "bc5-rg-snorm") {
        TextureFormat::Bc5RgSnorm
    } else if text_eq(format, "bc6h-rgb-ufloat") {
        TextureFormat::Bc6hRgbUfloat
    } else if text_eq(format, "bc6h-rgb-float") {
        TextureFormat::Bc6hRgbFloat
    } else if text_eq(format, "bc7-rgba-unorm") {
        TextureFormat::Bc7RgbaUnorm
    } else if text_eq(format, "bc7-rgba-unorm-srgb") {
        TextureFormat::Bc7RgbaUnormSrgb
    } else if text_eq(format, "etc2-rgb8unorm") {
        TextureFormat::Etc2Rgb8Unorm
    } else if text_eq(format, "etc2-rgb8unorm-srgb") {
        TextureFormat::Etc2Rgb8UnormSrgb
    } else if text_eq(format, "etc2-rgb8a1unorm") {
        TextureFormat::Etc2Rgb8A1Unorm
    } else if text_eq(format, "etc2-rgb8a1unorm-srgb") {
        TextureFormat::Etc2Rgb8A1UnormSrgb
    } else if text_eq(format, "etc2-rgba8unorm") {
        TextureFormat::Etc2Rgba8Unorm
    } else if text_eq(format, "etc2-rgba8unorm-srgb") {
        TextureFormat::Etc2Rgba8UnormSrgb
    } else if text_eq(format, "eac-r11unorm") {
        TextureFormat::EacR11Unorm
    } else if text_eq(format, "eac-r11snorm") {
        TextureFormat::EacR11Snorm
    } else if text_eq(format, "eac-rg11unorm") {
        TextureFormat::EacRg11Unorm
    } else if text_eq(format, "eac-rg11snorm") {
        TextureFormat::EacRg11Snorm
    } else if has_astc_prefix(format) {
        astc_texture_format(format)
    } else {
        TextureFormat::Rgba8Unorm
    }
}

/// The vertex format; `float32x4` for an unknown name.
pub open spec fn vertex_format_named(name: Seq<char>) -> VertexFormat {
    if name == "float32"@ {
        VertexFormat::Float32
    } else if name == "float32x2"@ {
        VertexFormat::Float32x2
    } else if name == "float32x3"@ {
        VertexFormat::Float32x3
    } else if name == "uint32"@ {
        VertexFormat::Uint32
    } else if name == "uint32x2"@ {
        VertexFormat::Uint32x2
    } else if name == "uint32x3"@ {
        VertexFormat::Uint32x3
    } else if name == "uint32x4"@ {
        VertexFormat::Uint32x4
    } else if name == "sint32"@ {
        VertexFormat::Sint32
    } else if name == "sint32x2"@ {
        VertexFormat::Sint32x2
    } else if name == "sint32x3"@ {
        VertexFormat::Sint32x3
    } else if name == "sint32x4"@ {
        VertexFormat::Sint32x4
    } else if name == "unorm8x4"@ {
        VertexFormat::Unorm8x4
    } else if name == "snorm8x4"@ {
        VertexFormat::Snorm8x4
    } else if name == "uint8x4"@ {
        VertexFormat::Uint8x4
    } else if name == "sint8x4"@ {
        VertexFormat::Sint8x4
    } else if name == "unorm16x2"@ {
        VertexFormat::Unorm16x2
    } else if name == "unorm16x4"@ {
        VertexFormat::Unorm16x4
    } else if name == "snorm16x2"@ {
        VertexFormat::Snorm16x2
    } else if name == "snorm16x4"@ {
        VertexFormat::Snorm16x4
    } else if name == "uint16x2"@ {
        VertexFormat::Uint16x2
    } else if name == "uint16x4"@ {
        VertexFormat::Uint16x4
    } else if name == "sint16x2"@ {
        VertexFormat::Sint16x2
    } else if name == "sint16x4"@ {
        VertexFormat::Sint16x4
    } else {
        VertexFormat::Float32x4
    }
}

/// Reads a vertex format name.
pub fn vertex_format(value: &str) -> (r: VertexFormat)
    ensures
        r == vertex_format_named(value@),
{
    if text_eq(value, "float32") {
        VertexFormat::Float32
    } else if text_eq(value, "float32x2") {
        VertexFormat::Float32x2
    } else if text_eq(value, "float32x3") {
        VertexFormat::Float32x3
    } else if text_eq(value, "uint32") {
        VertexFormat::Uint32
    } else if text_eq(value, "uint32x2") {
        VertexFormat::Uint32x2
    } else if text_eq(value, "uint32x3") {
        VertexFormat::Uint32x3
    } else if text_eq(value, "uint32x4") {
        VertexFormat::Uint32x4
    } else if text_eq(value, "sint32") {
        VertexFormat::Sint32
    } else if text_eq(value, "sint32x2") {
        VertexFormat::Sint32x2
    } else if text_eq(value, "sint32x3") {
        VertexFormat::Sint32x3
    } else if text_eq(value, "sint32x4") {
        VertexFormat::Sint32x4
    } else if text_eq(value, "unorm8x4") {
        VertexFormat::Unorm8x4
    } else if text_eq(value, "snorm8x4") {
        VertexFormat::Snorm8x4
    } else if text_eq(value, "uint8x4") {
        VertexFormat::Uint8x4
    } else if text_eq(value, "sint8x4") {
        VertexFormat::Sint8x4
    } else if text_eq(value, "unorm16x2") {
        VertexFormat::Unorm16x2
    } else if text_eq(value, "unorm16x4") {
        VertexFormat::Unorm16x4
    } else if text_eq(value, "snorm16x2") {
        VertexFormat::Snorm16x2
    } else if text_eq(value, "snorm16x4") {
        VertexFormat::Snorm16x4
    } else if text_eq(value, "uint16x2") {
        VertexFormat::Uint16x2
    } else if text_eq(value, "uint16x4") {
        VertexFormat::Uint16x4
    } else if text_eq(value, "sint16x2") {
        VertexFormat::Sint16x2
    } else if text_eq(value, "sint16x4") {
        VertexFormat::Sint16x4
    } else {
        VertexFormat::Float32x4
    }
}

/// The blend factor; `one` for an unknown name.
pub open spec fn blend_factor_named(name: Seq<char>) -> BlendFactor {
    if name == "zero"@ {
        BlendFactor::Zero
    } else if name == "src"@ {
        BlendFactor::Src
    } else if name == "one-minus-src"@ {
        BlendFactor::OneMinusSrc
    } else if name == "src-alpha"@ {
        BlendFactor::SrcAlpha
    } else if name == "one-minus-src-alpha"@ {
        BlendFactor::OneMinusSrcAlpha
    } else if name == "dst"@ {
        BlendFactor::Dst
    } else if name == "one-minus-dst"@ {
        BlendFactor::OneMinusDst
    } else if name == "dst-alpha"@ {
        BlendFactor::DstAlpha
    } else if name == "one-minus-dst-alpha"@ {
        BlendFactor::OneMinusDstAlpha
    } else if name == "src-alpha-saturated"@ {
        BlendFactor::SrcAlphaSaturated
    } else if name == "constant"@ {
        BlendFactor::Constant
    } else if name == "one-minus-constant"@ {
        BlendFactor::OneMinusConstant
    } else {
        BlendFactor::One
    }
}

/// Reads a blend factor name.
pub fn blend_factor(value: &str) -> (r: BlendFactor)
    ensures
        r == blend_factor_named(value@),
{
    if text_eq(value, "zero") {
        BlendFactor::Zero
    } else if text_eq(value, "src") {
        BlendFactor::Src
    } else if text_eq(value, "one-minus-src") {
        BlendFactor::OneMinusSrc
    } else if text_eq(value, "src-alpha") {
        BlendFactor::SrcAlpha
    } else if text_eq(value, "one-minus-src-alpha") {
        BlendFactor::OneMinusSrcAlpha
    } else if text_eq(value, "dst") {
        BlendFactor::Dst
    } else if text_eq(value, "one-minus-dst") {
        BlendFactor::OneMinusDst
    } else if text_eq(value, "dst-alpha") {
        BlendFactor::DstAlpha
    } else if text_eq(value, "one-minus-dst-alpha") {
        BlendFactor::OneMinusDstAlpha
    } else if text_eq(value, "src-alpha-saturated") {
        BlendFactor::SrcAlphaSaturated
    } else if text_eq(value, "constant") {
        BlendFactor::Constant
    } else if text_eq(value, "one-minus-constant") {
        BlendFactor::OneMinusConstant
    } else {
        BlendFactor::One
    }
}

/// The blend operation; `add` for an unknown name.
pub open spec fn blend_operation_named(name: Seq<char>) -> BlendOperation {
    if name == "subtract"@ {
        BlendOperation::Subtract
    } else if name == "reverse-subtract"@ {
        BlendOperation::ReverseSubtract
    } else if name == "min"@ {
        BlendOperation::Min
    } else if name == "max"@ {
        BlendOperation::Max
    } else {
        BlendOperation::Add
    }
}

/// Reads a blend operation name.
pub fn blend_operation(value: &str) -> (r: BlendOperation)
    ensures
        r == blend_operation_named(value@),
{
    if text_eq(value, "subtract") {
        BlendOperation::Subtract
    } else if text_eq(value, "reverse-subtract") {
        BlendOperation::ReverseSubtract
    } else if text_eq(value, "min") {
        BlendOperation::Min
    } else if text_eq(value, "max") {
        BlendOperation::Max
    } else {
        BlendOperation::Add
    }
}

/// The comparison function a name gives; `always` when the name is
/// unknown or left out.
pub open spec fn compare_function_named(name: Option<Seq<char>>) -> CompareFunction {
    match name {
        None => CompareFunction::Always,
        Some(name) => {
            if name == "never"@ {
                CompareFunction::Never
            } else if name == "less"@ {
                CompareFunction::Less
            } else if name == "equal"@ {
                CompareFunction::Equal
            } else if name == "less-equal"@ {
                CompareFunction::LessEqual
            } else if name == "greater"@ {
                CompareFunction::Greater
            } else if name == "not-equal"@ {
                CompareFunction::NotEqual
            } else if name == "greater-equal"@ {
                CompareFunction::GreaterEqual
            } else if name == "always"@ {
                CompareFunction::Always
            } else {
                CompareFunction::Always
            }
        },
    }
}

/// Reads an optional comparison function name.
pub fn compare_function(value: Option<&str>) -> (r: CompareFunction)
    ensures
        r == compare_function_named(
            match value {
                Some(v) => Some(v@),
                None => None,
            },
        ),
{
    let value = match value {
        Some(v) => v,
        None => return CompareFunction::Always,
    };
    if text_eq(value, "never") {
        CompareFunction::Never
    } else if text_eq(value, "less") {
        CompareFunction::Less
    } else if text_eq(value, "equal") {
        CompareFunction::Equal
    } else if text_eq(value, "less-equal") {
        CompareFunction::LessEqual
    } else if text_eq(value, "greater") {
        CompareFunction::Greater
    } else if text_eq(value, "not-equal") {
        CompareFunction::NotEqual
    } else if text_eq(value, "greater-equal") {
        CompareFunction::GreaterEqual
    } else if text_eq(value, "always") {
        CompareFunction::Always
    } else {
        CompareFunction::Always
    }
}

/// The WebGPU name of an ASTC format.
pub open spec fn astc_format_name(block: AstcBlock, srgb: bool) -> Seq<char> {
    match block {
        AstcBlock::B4x4 => if srgb {
            "astc-4x4-unorm-srgb"@
        } else {
            "astc-4x4-unorm"@
        },
        AstcBlock::B5x4 => if srgb {
            "astc-5x4-unorm-srgb"@
        } else {
            "astc-5x4-unorm"@
        },
        AstcBlock::B5x5 => if srgb {
            "astc-5x5-unorm-srgb"@
        } else {
            "astc-5x5-unorm"@
        },
        AstcBlock::B6x5 => if srgb {
            "astc-6x5-unorm-srgb"@
        } else {
            "astc-6x5-unorm"@
        },
        AstcBlock::B6x6 => if srgb {
            "astc-6x6-unorm-srgb"@
        } else {
            "astc-6x6-unorm"@
        },
        AstcBlock::B8x5 => if srgb {
            "astc-8x5-unorm-srgb"@
        } else {
            "astc-8x5-unorm"@
        },
        AstcBlock::B8x6 => if srgb {
            "astc-8x6-unorm-srgb"@
        } else {
            "astc-8x6-unorm"@
        },
        AstcBlock::B8x8 => if srgb {
            "astc-8x8-unorm-srgb"@
        } else {
            "astc-8x8-unorm"@
        },
        AstcBlock::B10x5 => if srgb {
            "astc-10x5-unorm-srgb"@
        } else {
            "astc-10x5-unorm"@
        },
        AstcBlock::B10x6 => if srgb {
            "astc-10x6-unorm-srgb"@
        } else {
            "astc-10x6-unorm"@
        },
        AstcBlock::B10x8 => if srgb {
            "astc-10x8-unorm-srgb"@
        } else {
            "astc-10x8-unorm"@
        },
        AstcBlock::B10x10 => if srgb {
            "astc-10x10-unorm-srgb"@
        } else {
            "astc-10x10-unorm"@
        },
        AstcBlock::B12x10 => if srgb {
            "astc-12x10-unorm-srgb"@
        } else {
            "astc-12x10-unorm"@
        },
        AstcBlock::B12x12 => if srgb {
            "astc-12x12-unorm-srgb"@
        } else {
            "astc-12x12-unorm"@
        },
    }
}

/// The WebGPU name of a texture format.
pub open spec fn texture_format_name(f: TextureFormat) -> Seq<char> {
    match f {
        TextureFormat::R8Unorm => "r8unorm"@,
        TextureFormat::R8Snorm => "r8snorm"@,
        TextureFormat::R8Uint => "r8uint"@,
        TextureFormat::R8Sint => "r8sint"@,
        TextureFormat::R16Uint => "r16uint"@,
        TextureFormat::R16Sint => "r16sint"@,
        TextureFormat::R16Float => "r16float"@,
        TextureFormat::Rg8Unorm => "rg8unorm"@,
        TextureFormat::Rg8Snorm => "rg8snorm"@,
        TextureFormat::Rg8Uint => "rg8uint"@,
        TextureFormat::Rg8Sint => "rg8sint"@,
        TextureFormat::Rg16Uint => "rg16uint"@,
        TextureFormat::Rg16Sint => "rg16sint"@,
        TextureFormat::Rg16Float => "rg16float"@,
        TextureFormat::Rgba8Unorm => "rgba8unorm"@,
        TextureFormat::Bgra8Unorm => "bgra8unorm"@,
        TextureFormat::Bgra8UnormSrgb => "bgra8unorm-srgb"@,
        TextureFormat::Rgba8UnormSrgb => "rgba8unorm-srgb"@,
        TextureFormat::Rgba8Snorm => "rgba8snorm"@,
        TextureFormat::Rgba8Uint => "rgba8uint"@,
        TextureFormat::Rgba8Sint => "rgba8sint"@,
        TextureFormat::Rgba16Uint => "rgba16uint"@,
        TextureFormat::Rgba16Sint => "rgba16sint"@,
        TextureFormat::Rgba16Unorm => "rgba16unorm"@,
        TextureFormat::Rgba16Snorm => "rgba16snorm"@,
        TextureFormat::Rgba16Float => "rgba16float"@,
        TextureFormat::Rg32Uint => "rg32uint"@,
        TextureFormat::Rg32Sint => "rg32sint"@,
        TextureFormat::Rg32Float => "rg32float"@,
        TextureFormat::Rgba32Uint => "rgba32uint"@,
        TextureFormat::Rgba32Sint => "rgba32sint"@,
        TextureFormat::Rgba32Float => "rgba32float"@,
        TextureFormat::Rgb9e5Ufloat => "rgb9e5ufloat"@,
        TextureFormat::Rgb10a2Uint => "rgb10a2uint"@,
        TextureFormat::Rgb10a2Unorm => "rgb10a2unorm"@,
        TextureFormat::Rg11b10Float => "rg11b10ufloat"@,
        TextureFormat::R32Float => "r32float"@,
        TextureFormat::R32Uint => "r32uint"@,
        TextureFormat::R32Sint => "r32sint"@,
        TextureFormat::Depth24Plus => "depth24plus"@,
        TextureFormat::Depth24PlusStencil8 => "depth24plus-stencil8"@,
        TextureFormat::Depth32Float => "depth32float"@,
        TextureFormat::Depth32FloatStencil8 => "depth32float-stencil8"@,
        TextureFormat::Depth16Unorm => "depth16unorm"@,
        TextureFormat::Stencil8 => "stencil8"@,
        TextureFormat::Bc1RgbaUnorm => "bc1-rgba-unorm"@,
        TextureFormat::Bc1RgbaUnormSrgb => "bc1-rgba-unorm-srgb"@,
        TextureFormat::Bc2RgbaUnorm => "bc2-rgba-unorm"@,
        TextureFormat::Bc2RgbaUnormSrgb => "bc2-rgba-unorm-srgb"@,
        TextureFormat::Bc3RgbaUnorm => "bc3-rgba-unorm"@,
        TextureFormat::Bc3RgbaUnormSrgb => "bc3-rgba-unorm-srgb"@,
        TextureFormat::Bc4RUnorm => "bc4-r-unorm"@,
        TextureFormat::Bc4RSnorm => "bc4-r-snorm"@,
        TextureFormat::Bc5RgUnorm => "bc5-rg-unorm"@,
        TextureFormat::Bc5RgSnorm => "bc5-rg-snorm"@,
        TextureFormat::Bc6hRgbUfloat => "bc6h-rgb-ufloat"@,
        TextureFormat::Bc6hRgbFloat => "bc6h-rgb-float"@,
        TextureFormat::Bc7RgbaUnorm => "bc7-rgba-unorm"@,
        TextureFormat::Bc7RgbaUnormSrgb => "bc7-rgba-unorm-srgb"@,
        TextureFormat::Etc2Rgb8Unorm => "etc2-rgb8unorm"@,
        TextureFormat::Etc2Rgb8UnormSrgb => "etc2-rgb8unorm-srgb"@,
        TextureFormat::Etc2Rgb8A1Unorm => "etc2-rgb8a1unorm"@,
        TextureFormat::Etc2Rgb8A1UnormSrgb => "etc2-rgb8a1unorm-srgb"@,
        TextureFormat::Etc2Rgba8Unorm => "etc2-rgba8unorm"@,
        TextureFormat::Etc2Rgba8UnormSrgb => "etc2-rgba8unorm-srgb"@,
        TextureFormat::EacR11Unorm => "eac-r11unorm"@,
        TextureFormat::EacR11Snorm => "eac-r11snorm"@,
        TextureFormat::EacRg11Unorm => "eac-rg11unorm"@,
        TextureFormat::EacRg11Snorm => "eac-rg11snorm"@,
        TextureFormat::Astc { block, srgb } => astc_format_name(block, srgb),
    }
}

/// Every ASTC format name begins with `astc-`.
proof fn lemma_astc_names_have_prefix(block: AstcBlock, srgb: bool)
    ensures
        starts_with(astc_format_name(block, srgb), "astc-"@),
{
    reveal_strlit("astc-");
    reveal_strlit("astc-4x4-unorm");
    reveal_strlit("astc-4x4-unorm-srgb");
    reveal_strlit("astc-5x4-unorm");
    reveal_strlit("astc-5x4-unorm-srgb");
    reveal_strlit("astc-5x5-unorm");
    reveal_strlit("astc-5x5-unorm-srgb");
    reveal_strlit("astc-6x5-unorm");
    reveal_strlit("astc-6x5-unorm-srgb");
    reveal_strlit("astc-6x6-unorm");
    reveal_strlit("astc-6x6-unorm-srgb");
    reveal_strlit("astc-8x5-unorm");
    reveal_strlit("astc-8x5-unorm-srgb");
    reveal_strlit("astc-8x6-unorm");
    reveal_strlit("astc-8x6-unorm-srgb");
    reveal_strlit("astc-8x8-unorm");
    reveal_strlit("astc-8x8-unorm-srgb");
    reveal_strlit("astc-10x5-unorm");
    reveal_strlit("astc-10x5-unorm-srgb");
    reveal_strlit("astc-10x6-unorm");
    reveal_strlit("astc-10x6-unorm-srgb");
    reveal_strlit("astc-10x8-unorm");
    reveal_strlit("astc-10x8-unorm-srgb");
    reveal_strlit("astc-10x10-unorm");
    reveal_strlit("astc-10x10-unorm-srgb");
    reveal_strlit("astc-12x10-unorm");
    reveal_strlit("astc-12x10-unorm-srgb");
    reveal_strlit("astc-12x12-unorm");
    reveal_strlit("astc-12x12-unorm-srgb");
    match block {
        AstcBlock::B4x4 => {
            assert(astc_format_name(block, srgb).subrange(0, 5) =~= "astc-"@);
        },
        AstcBlock::B5x4 => {
            assert(astc_format_name(block, srgb).subrange(0, 5) =~= "astc-"@);
        },
        AstcBlock::B5x5 => {
            assert(astc_format_name(block, srgb).subrange(0, 5) =~= "astc-"@);
        },
        AstcBlock::B6x5 => {
            assert(astc_format_name(block, srgb).subrange(0, 5) =~= "astc-"@);
        },
        AstcBlock::B6x6 => {
            assert(astc_format_name(block, srgb).subrange(0, 5) =~= "astc-"@);
        },
        AstcBlock::B8x5 => {
            assert(astc_format_name(block, srgb).subrange(0, 5) =~= "astc-"@);
        },
        AstcBlock::B8x6 => {
            assert(astc_format_name(block, srgb).subrange(0, 5) =~= "astc-"@);
        },
        AstcBlock::B8x8 => {
            assert(astc_format_name(block, srgb).subrange(0, 5) =~= "astc-"@);
        },
        AstcBlock::B10x5 => {
            assert(astc_format_name(block, srgb).subrange(0, 5) =~= "astc-"@);
        },
        AstcBlock::B10x6 => {
            assert(astc_format_name(block, srgb).subrange(0, 5) =~= "astc-"@);
        },
        AstcBlock::B10x8 => {
            assert(astc_format_name(block, srgb).subrange(0, 5) =~= "astc-"@);
        },
        AstcBlock::B10x10 => {
            assert(astc_format_name(block, srgb).subrange(0, 5) =~= "astc-"@);
        },
        AstcBlock::B12x10 => {
            assert(astc_format_name(block, srgb).subrange(0, 5) =~= "astc-"@);
        },
        AstcBlock::B12x12 => {
            assert(astc_format_name(block, srgb).subrange(0, 5) =~= "astc-"@);
        },
    }
}

/// A name read as the format of that name, or as `rgba8unorm`.
#[verifier::rlimit(100)]
proof fn lemma_named_format_has_its_name_or_falls_back(name: Seq<char>)
    ensures
        texture_format_name(texture_format_named(name)) == name || texture_format_named(name)
            == TextureFormat::Rgba8Unorm,
{
}

/// A name read as `rgba8unorm`, other than `rgba8unorm` itself, is no
/// format's name.
#[verifier::rlimit(100)]
proof fn lemma_fallback_names_name_no_format(name: Seq<char>)
    requires
        texture_format_named(name) == TextureFormat::Rgba8Unorm,
        name != "rgba8unorm"@,
    ensures
        forall|f: TextureFormat| texture_format_name(f) != name,
{
    assert forall|f: TextureFormat| texture_format_name(f) != name by {
        if let TextureFormat::Astc { block, srgb } = f {
            lemma_astc_names_have_prefix(block, srgb);
        }
    }
}

/// Reading a format name gives the format of that name: for every WebGPU
/// texture format name, the format read has exactly that name (so an
/// `-srgb` name gives an sRGB format); any other name gives `rgba8unorm`.
pub proof fn law_texture_format_names_round_trip(name: Seq<char>)
    ensures
        (exists|f: TextureFormat| texture_format_name(f) == name) ==> texture_format_name(
            texture_format_named(name),
        ) == name,
        !(exists|f: TextureFormat| texture_format_name(f) == name) ==> texture_format_named(name)
            == TextureFormat::Rgba8Unorm,
{
    lemma_named_format_has_its_name_or_falls_back(name);
    if texture_format_name(texture_format_named(name)) != name && name != "rgba8unorm"@ {
        lemma_fallback_names_name_no_format(name);
    }
}

} // verus!

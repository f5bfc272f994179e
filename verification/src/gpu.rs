//! Decisions of the WebGPU binding layer that need no GPU: which usage
//! flags of a script's descriptor reach the device, texture dimensions,
//! and the handle ids given to GPU objects.
use vstd::prelude::*;
use crate::text::chars_of;
use std::collections::HashMap;
use vstd::std_specs::hash::spec_hash_map_iter;
use vstd::std_specs::iter::IteratorSpec;

verus! {

broadcast use vstd::std_specs::hash::group_hash_axioms;

/// WebGPU `GPUBufferUsage` flags the native device understands:
/// MAP_READ, MAP_WRITE, COPY_SRC, COPY_DST, INDEX, VERTEX, UNIFORM,
/// STORAGE, INDIRECT, QUERY_RESOLVE (bits 0 to 9; the native flags use the
/// same bits).
pub const BUFFER_USAGE_MASK: u64 = 0x3ff;

/// WebGPU `GPUTextureUsage` flags the native device understands:
/// COPY_SRC, COPY_DST, TEXTURE_BINDING, STORAGE_BINDING, RENDER_ATTACHMENT
/// (bits 0 to 4; the native flags use the same bits).
pub const TEXTURE_USAGE_MASK: u64 = 0x1f;

/// `GPUTextureUsage.RENDER_ATTACHMENT`.
pub const RENDER_ATTACHMENT: u64 = 0x10;

/// `GPUShaderStage` flags: VERTEX, FRAGMENT, COMPUTE.
pub const SHADER_STAGE_MASK: u32 = 0x7;

/// The buffer usage flags kept from a script's usage bits.
pub fn buffer_usage(bits: u64) -> (r: u64)
    ensures
        r == bits & BUFFER_USAGE_MASK,
{
    bits & BUFFER_USAGE_MASK
}

/// The texture usage flags kept from a script's usage bits.
pub fn texture_usage(bits: u64) -> (r: u64)
    ensures
        r == bits & TEXTURE_USAGE_MASK,
{
    bits & TEXTURE_USAGE_MASK
}

/// The shader stage flags kept from a script's visibility bits.
pub fn shader_stages(bits: u32) -> (r: u32)
    ensures
        r == bits & SHADER_STAGE_MASK,
{
    bits & SHADER_STAGE_MASK
}

/// Dimensionality of a texture.
#[derive(Debug, Clone, Copy, PartialEq, Eq, Structural)]
pub enum TextureDimension {
    D1,
    D2,
    D3,
}

/// The dimension a descriptor names: `"1d"`, `"3d"`, anything else 2D.
pub open spec fn dimension_named(name: Seq<char>) -> TextureDimension {
    if name == seq!['1', 'd'] {
        TextureDimension::D1
    } else if name == seq!['3', 'd'] {
        TextureDimension::D3
    } else {
        TextureDimension::D2
    }
}

/// Reads a descriptor's dimension name.
pub fn texture_dimension(value: &str) -> (r: TextureDimension)
    ensures
        r == dimension_named(value@),
{
    let v = chars_of(value);
    if v.len() == 2 && v[1] == 'd' && (v[0] == '1' || v[0] == '3') {
        if v[0] == '1' {
            assert(v@ =~= seq!['1', 'd']);
            TextureDimension::D1
        } else {
            assert(v@ =~= seq!['3', 'd']);
            TextureDimension::D3
        }
    } else {
        assert(v@ != seq!['1', 'd'] && v@ != seq!['3', 'd']) by {
            if v@ == seq!['1', 'd'] || v@ == seq!['3', 'd'] {
                assert(v@.len() == 2 && v@[1] == 'd');
            }
        }
        TextureDimension::D2
    }
}

/// Texture usage for a texture of the named dimension: the supported flags,
/// without RENDER_ATTACHMENT for 1D and 3D textures, which the native API
/// refuses as render targets.
pub fn texture_usage_for_dimension(bits: u64, dimension: &str) -> (r: u64)
    ensures
        r == if dimension_named(dimension@) == TextureDimension::D2 {
            bits & TEXTURE_USAGE_MASK
        } else {
            bits & (TEXTURE_USAGE_MASK & !RENDER_ATTACHMENT)
        },
{
    let usage = texture_usage(bits);
    match texture_dimension(dimension) {
        TextureDimension::D2 => usage,
        _ => {
            assert((bits & 0x1f) & !0x10u64 == bits & (0x1f & !0x10u64)) by (bit_vector);
            usage & !RENDER_ATTACHMENT
        },
    }
}

/// `Some(value)` unless `value` is zero (an absent optional count).
pub fn optional_u32(value: u32) -> (r: Option<u32>)
    ensures
        r == if value != 0 {
            Some(value)
        } else {
            None::<u32>
        },
{
    if value != 0 {
        Some(value)
    } else {
        None
    }
}

/// Why a GPU resource operation was refused.
#[derive(Debug, Clone, Copy, PartialEq, Eq, Structural)]
pub enum GpuError {
    /// A buffer of zero bytes was asked for.
    ZeroBufferSize,
    /// The end of a buffer read does not fit `u64`.
    ReadRangeOverflow,
    /// A buffer read `offset..end` goes past the buffer's `size`.
    ReadOutOfBounds { offset: u64, end: u64, size: u64 },
    /// A texture dimension is zero.
    ZeroTextureDimension,
    /// A texture's mip level or sample count is zero.
    ZeroMipOrSampleCount,
    /// A texture upload has `len` bytes where `expected` are needed.
    UploadTooSmall { len: usize, expected: usize },
}

/// Refuses a buffer of zero bytes.
pub fn check_buffer_size(size: u64) -> (r: Result<(), GpuError>)
    ensures
        r is Ok <==> size != 0,
        r is Err ==> r == Err::<(), GpuError>(GpuError::ZeroBufferSize),
{
    if size == 0 {
        Err(GpuError::ZeroBufferSize)
    } else {
        Ok(())
    }
}

/// The byte range `offset..offset + size` of a read from a buffer of
/// `buffer_size` bytes; refused when its end overflows or passes the end of
/// the buffer.
pub fn buffer_read_range(offset: u64, size: u64, buffer_size: u64) -> (r: Result<(u64, u64), GpuError>)
    ensures
        offset + size > u64::MAX ==> r == Err::<(u64, u64), GpuError>(GpuError::ReadRangeOverflow),
        offset + size <= u64::MAX && offset + size > buffer_size ==> r == Err::<(u64, u64), GpuError>(
            GpuError::ReadOutOfBounds { offset, end: (offset + size) as u64, size: buffer_size },
        ),
        offset + size <= buffer_size ==> r == Ok::<(u64, u64), GpuError>((offset, (offset + size) as u64)),
{
    let end = match offset.checked_add(size) {
        Some(end) => end,
        None => return Err(GpuError::ReadRangeOverflow),
    };
    if end > buffer_size {
        return Err(GpuError::ReadOutOfBounds { offset, end, size: buffer_size });
    }
    Ok((offset, end))
}

/// Refuses a texture with a zero dimension, then one with no mip level or
/// no sample.
pub fn check_texture_size(width: u32, height: u32, depth: u32, mip_level_count: u32, sample_count: u32) -> (r:
    Result<(), GpuError>)
    ensures
        width == 0 || height == 0 || depth == 0 ==> r == Err::<(), GpuError>(
            GpuError::ZeroTextureDimension,
        ),
        width != 0 && height != 0 && depth != 0 && (mip_level_count == 0 || sample_count == 0) ==> r
            == Err::<(), GpuError>(GpuError::ZeroMipOrSampleCount),
        width != 0 && height != 0 && depth != 0 && mip_level_count != 0 && sample_count != 0 ==> r
            is Ok,
{
    if width == 0 || height == 0 || depth == 0 {
        return Err(GpuError::ZeroTextureDimension);
    }
    if mip_level_count == 0 || sample_count == 0 {
        return Err(GpuError::ZeroMipOrSampleCount);
    }
    Ok(())
}

/// Refuses a texture upload of `len` bytes shorter than
/// `bytes_per_row * rows_per_image * depth`.
pub fn check_texture_upload(len: usize, bytes_per_row: u32, rows_per_image: u32, depth: u32) -> (r:
    Result<(), GpuError>)
    requires
        bytes_per_row * rows_per_image <= usize::MAX,
        bytes_per_row * rows_per_image * depth <= usize::MAX,
    ensures
        len >= bytes_per_row * rows_per_image * depth ==> r is Ok,
        len < bytes_per_row * rows_per_image * depth ==> r == Err::<(), GpuError>(
            GpuError::UploadTooSmall {
                len,
                expected: (bytes_per_row * rows_per_image * depth) as usize,
            },
        ),
{
    let rows = bytes_per_row as usize * rows_per_image as usize;
    let expected = rows * depth as usize;
    if len < expected {
        return Err(GpuError::UploadTooSmall { len, expected });
    }
    Ok(())
}

/// The views made from texture `texture_id`, each once, in some order:
/// the views that go stale when the texture is destroyed or presented.
pub fn views_of_texture(view_sources: &HashMap<u64, u64>, texture_id: u64) -> (r: Vec<u64>)
    ensures
        forall|v: u64| #[trigger] r@.contains(v) <==> view_sources@.contains_key(v) && view_sources@[v]
            == texture_id,
        r@.no_duplicates(),
{
    let ghost m = view_sources@;
    let mut out: Vec<u64> = Vec::new();
    for entry in it: view_sources.iter()
        invariant
            m == view_sources@,
            it.seq() == spec_hash_map_iter(view_sources).remaining(),
            it.seq().no_duplicates(),
            forall|v: u64| #[trigger] out@.contains(v) ==> m.contains_key(v) && m[v] == texture_id,
            forall|v: u64| #[trigger] out@.contains(v) ==> exists|j: int|
                0 <= j < it.index() && *(#[trigger] it.seq()[j]).0 == v,
            forall|j: int|
                0 <= j < it.index() && *(#[trigger] it.seq()[j]).1 == texture_id ==> out@.contains(
                    *it.seq()[j].0,
                ),
            out@.no_duplicates(),
    {
        let ghost idx = it.index();
        let ghost prev = out@;
        let (view, source) = entry;
        assert(it.seq()[idx] == (view, source));
        if *source == texture_id {
            proof {
                assert(m.contains_key(*view) && m[*view] == *source);
                if prev.contains(*view) {
                    let j = choose|j: int| 0 <= j < idx && *(#[trigger] it.seq()[j]).0 == *view;
                    assert(m[*it.seq()[j].0] == *it.seq()[j].1);
                    assert(it.seq()[j] == it.seq()[idx]);
                    assert(false);
                }
            }
            out.push(*view);
            proof {
                assert forall|v: u64| #[trigger] out@.contains(v) implies m.contains_key(v) && m[v]
                    == texture_id && exists|j: int| 0 <= j < idx + 1 && *(#[trigger] it.seq()[j]).0 == v by {
                    if v != *view {
                        assert(prev.contains(v));
                    } else {
                        assert(*it.seq()[idx].0 == v);
                    }
                }
                assert forall|j: int|
                    0 <= j < idx + 1 && *(#[trigger] it.seq()[j]).1 == texture_id implies out@.contains(
                        *it.seq()[j].0,
                    ) by {
                    if j < idx {
                        assert(prev.contains(*it.seq()[j].0));
                        let k = choose|k: int| 0 <= k < prev.len() && prev[k] == *it.seq()[j].0;
                        assert(out@[k] == prev[k]);
                    } else {
                        assert(out@[prev.len() as int] == *view);
                    }
                }
            }
        } else {
            proof {
                assert forall|v: u64| #[trigger] out@.contains(v) implies exists|j: int|
                    0 <= j < idx + 1 && *(#[trigger] it.seq()[j]).0 == v by {
                    let j = choose|j: int| 0 <= j < idx && *(#[trigger] it.seq()[j]).0 == v;
                }
            }
        }
    }
    proof {
        let v = spec_hash_map_iter(view_sources).remaining();
        assert forall|x: u64| m.contains_key(x) && m[x] == texture_id implies #[trigger] out@.contains(x) by {
            assert(v.contains((&x, &m[x])));
            let j = choose|j: int| 0 <= j < v.len() && v[j] == (&x, &m[x]);
            assert(*v[j].1 == texture_id);
        }
    }
    out
}

} // verus!

//! Recording of WebGPU command encoders for scripts. A script's calls
//! arrive as an operation name and a JSON payload; they are decoded into
//! commands and recorded on command encoders, open passes and render
//! bundle encoders by handle, until an encoder is finished and its commands
//! go to the GPU. Numbers that the GPU takes as floats stay JSON values
//! here; the host converts them when it encodes the commands.
use vstd::prelude::*;
use serde_json::Value;
use std::collections::{HashMap, HashSet};
use crate::text::text_eq;
use crate::json::{
    as_i64, as_u64, field, field_flag, field_present, field_text_or, field_u64, flag_field,
    is_number, json_clone, json_field, json_i64, json_is_null, json_is_number, json_is_object,
    json_items, json_shape, json_str, json_u64, present_field, text_field_or, u64_field, JsonShape,
};

verus! {

broadcast use vstd::std_specs::hash::group_hash_axioms;
use vstd::std_specs::hash::spec_hash_map_iter;
use vstd::std_specs::iter::IteratorSpec;

/// Why a command, pass or encoder operation was refused.
#[derive(Debug, Clone, Copy, PartialEq, Eq, Structural)]
pub enum CommandError {
    /// The payload of the command is not a JSON array.
    PayloadNotArray,
    /// The argument at this index is missing or not a non-negative integer.
    NotInteger(usize),
    /// The argument at this index is missing or not a number.
    NotNumber(usize),
    /// A texture copy location is not an object.
    CopyTargetNotObject,
    /// A texture copy location names no texture.
    NoTextureHandle,
    /// A buffer copy location is not an object.
    BufferTargetNotObject,
    /// A buffer copy location names no buffer.
    NoBufferHandle,
    /// A buffer copy location gives no `bytesPerRow`.
    NoBytesPerRow,
    /// The copy size is not an array.
    CopySizeNotArray,
    /// The dynamic offsets of `setBindGroup` are not an array.
    OffsetsNotArray,
    /// A dynamic offset is not a non-negative integer.
    OffsetNotInteger,
    /// A render bundle handle of `executeBundles` is not an integer.
    BundleNotInteger,
    /// The operation is not a command of this kind of recorder.
    Unsupported,
    /// Indirect draws cannot be recorded in render bundles.
    IndirectInBundle,
    /// No pipeline has this handle.
    UnknownPipeline(u64),
    /// No open pass has this handle.
    UnknownPass(u64),
    /// A compute pass was sent a render command.
    NotRenderPass(u64),
    /// A render pass was sent a compute command.
    NotComputePass(u64),
    /// No command encoder has this handle.
    UnknownEncoder(u64),
    /// No render bundle encoder has this handle.
    UnknownBundleEncoder(u64),
    /// The encoder still has a pass that was not ended.
    EncoderHasOpenPass,
    /// `colorAttachments` is not an array.
    AttachmentsNotArray,
    /// An attachment names no view.
    NoAttachmentView,
    /// `timestampWrites` names no query set.
    NoTimestampQuerySet,
    /// Timestamp writes inside passes are not available on this device.
    TimestampsUnsupported,
    /// `colorFormats` of a render bundle encoder is not an array.
    ColorFormatsNotArray,
    /// A render bundle color format is neither a string nor null.
    ColorFormatNotString,
    /// A render bundle encoder asked for zero samples.
    ZeroSampleCount,
    /// Every handle has been given out.
    IdsExhausted,
}

/// A location in a texture for a copy.
#[derive(Debug, Clone, Copy, PartialEq, Eq)]
pub struct TextureCopy {
    pub texture: u64,
    pub mip_level: u32,
    pub origin: [u32; 3],
}

/// A command recorded on a command encoder outside any pass.
#[derive(Debug)]
#[allow(inconsistent_fields)]
pub enum EncoderCommand {
    ClearBuffer { buffer: u64, offset: u64, size: Option<u64> },
    CopyBufferToBuffer {
        source: u64,
        source_offset: u64,
        destination: u64,
        destination_offset: u64,
        size: u64,
    },
    CopyBufferToTexture {
        source: u64,
        source_offset: u64,
        bytes_per_row: u32,
        rows_per_image: u32,
        destination: TextureCopy,
        size: [u32; 3],
    },
    CopyTextureToTexture { source: TextureCopy, destination: TextureCopy, size: [u32; 3] },
    CopyTextureToBuffer {
        source: TextureCopy,
        destination: u64,
        destination_offset: u64,
        bytes_per_row: u32,
        rows_per_image: u32,
        size: [u32; 3],
    },
    ResolveQuerySet {
        query_set: u64,
        first_query: u32,
        query_count: u32,
        destination: u64,
        destination_offset: u64,
    },
    WriteTimestamp { query_set: u64, query_index: u32 },
}

// ---------------------------------------------------------------------
// Arguments of a payload array
// ---------------------------------------------------------------------

/// The argument at index `i`, if there is one.
pub open spec fn item(items: Seq<Value>, i: int) -> Option<Value> {
    if 0 <= i < items.len() {
        Some(items[i])
    } else {
        None
    }
}

/// The argument at `i` as a non-negative integer.
pub open spec fn u64_at(items: Seq<Value>, i: int) -> Option<u64> {
    match item(items, i) {
        Some(v) => as_u64(v),
        None => None,
    }
}

/// The argument at `i` as a non-negative integer, else `default`.
pub open spec fn u64_or(items: Seq<Value>, i: int, default: u64) -> u64 {
    match u64_at(items, i) {
        Some(n) => n,
        None => default,
    }
}

/// The argument at `i` as a non-negative integer cut to its low 32 bits.
pub open spec fn u32_at(items: Seq<Value>, i: int) -> Option<u32> {
    match u64_at(items, i) {
        Some(n) => Some(n as u32),
        None => None,
    }
}

/// `u32_at`, else `default`.
pub open spec fn u32_or(items: Seq<Value>, i: int, default: u32) -> u32 {
    match u64_at(items, i) {
        Some(n) => n as u32,
        None => default,
    }
}

/// The argument at `i` as an `i64` cut to its low 32 bits, else `default`.
pub open spec fn i32_or(items: Seq<Value>, i: int, default: i32) -> i32 {
    match item(items, i) {
        Some(v) => match as_i64(v) {
            Some(n) => n as i32,
            None => default,
        },
        None => default,
    }
}

/// The argument at `i` when it is a number.
pub open spec fn number_at(items: Seq<Value>, i: int) -> Option<Value> {
    match item(items, i) {
        Some(v) => if is_number(v) {
            Some(v)
        } else {
            None
        },
        None => None,
    }
}

/// The items of an array value.
pub open spec fn array_items(v: Value) -> Option<Seq<Value>> {
    match json_shape(v) {
        JsonShape::Array(items) => Some(items),
        _ => None,
    }
}

/// The argument at `i` when it is an array.
pub open spec fn array_at(items: Seq<Value>, i: int) -> Option<Seq<Value>> {
    match item(items, i) {
        Some(v) => array_items(v),
        None => None,
    }
}

/// The argument at `i` when it is an object.
pub open spec fn object_at(items: Seq<Value>, i: int) -> Option<Value> {
    match item(items, i) {
        Some(v) => if json_shape(v) is Object {
            Some(v)
        } else {
            None
        },
        None => None,
    }
}

/// The field `key` of `v` when it is an array.
pub open spec fn array_field(v: Value, key: Seq<char>) -> Option<Seq<Value>> {
    match field(v, key) {
        Some(f) => array_items(f),
        None => None,
    }
}

/// The argument at `index`.
fn value_at(values: &Vec<Value>, index: usize) -> (r: Option<&Value>)
    ensures
        match item(values@, index as int) {
            Some(v) => r matches Some(x) && *x == v,
            None => r is None,
        },
{
    if index < values.len() {
        Some(&values[index])
    } else {
        None
    }
}

/// The argument at `index` as a non-negative integer.
pub fn value_u64(values: &Vec<Value>, index: usize) -> (r: Result<u64, CommandError>)
    ensures
        r == match u64_at(values@, index as int) {
            Some(n) => Ok(n),
            None => Err(CommandError::NotInteger(index)),
        },
{
    match value_at(values, index) {
        Some(v) => match json_u64(v) {
            Some(n) => Ok(n),
            None => Err(CommandError::NotInteger(index)),
        },
        None => Err(CommandError::NotInteger(index)),
    }
}

/// The argument at `index` as a non-negative integer, else `default`.
pub fn value_u64_or(values: &Vec<Value>, index: usize, default: u64) -> (r: u64)
    ensures
        r == u64_or(values@, index as int, default),
{
    match value_u64(values, index) {
        Ok(n) => n,
        Err(_) => default,
    }
}

/// The argument at `index` as a non-negative integer, cut to 32 bits.
pub fn value_u32(values: &Vec<Value>, index: usize) -> (r: Result<u32, CommandError>)
    ensures
        r == match u32_at(values@, index as int) {
            Some(n) => Ok(n),
            None => Err(CommandError::NotInteger(index)),
        },
{
    match value_u64(values, index) {
        Ok(n) => Ok(n as u32),
        Err(e) => Err(e),
    }
}

/// `value_u32`, else `default`.
pub fn value_u32_or(values: &Vec<Value>, index: usize, default: u32) -> (r: u32)
    ensures
        r == u32_or(values@, index as int, default),
{
    match value_u64(values, index) {
        Ok(n) => n as u32,
        Err(_) => default,
    }
}

/// The argument at `index` as an `i64` cut to 32 bits, else `default`.
pub fn value_i32_or(values: &Vec<Value>, index: usize, default: i32) -> (r: i32)
    ensures
        r == i32_or(values@, index as int, default),
{
    match value_at(values, index) {
        Some(v) => match json_i64(v) {
            Some(n) => n as i32,
            None => default,
        },
        None => default,
    }
}

/// The argument at `index`, which must be a number.
pub fn value_number(values: &Vec<Value>, index: usize) -> (r: Result<Value, CommandError>)
    ensures
        r == match number_at(values@, index as int) {
            Some(v) => Ok(v),
            None => Err(CommandError::NotNumber(index)),
        },
{
    match value_at(values, index) {
        Some(v) => if json_is_number(v) {
            Ok(json_clone(v))
        } else {
            Err(CommandError::NotNumber(index))
        },
        None => Err(CommandError::NotNumber(index)),
    }
}

/// The argument at `index` when it is an object.
fn value_object(values: &Vec<Value>, index: usize) -> (r: Option<&Value>)
    ensures
        match object_at(values@, index as int) {
            Some(v) => r matches Some(x) && *x == v,
            None => r is None,
        },
{
    match value_at(values, index) {
        Some(v) => if json_is_object(v) {
            Some(v)
        } else {
            None
        },
        None => None,
    }
}

/// The argument at `index` when it is an array.
fn value_array(values: &Vec<Value>, index: usize) -> (r: Option<&Vec<Value>>)
    ensures
        match array_at(values@, index as int) {
            Some(items) => r matches Some(a) && a@ == items,
            None => r is None,
        },
{
    match value_at(values, index) {
        Some(v) => json_items(v),
        None => None,
    }
}

// ---------------------------------------------------------------------
// Commands outside passes
// ---------------------------------------------------------------------

/// Origin of a texture copy location: `[x, y, z]` with `x` required and
/// `y`, `z` zero when left out; no origin at all is the texture's corner.
pub open spec fn origin_of(origin: Option<Seq<Value>>) -> Result<[u32; 3], CommandError> {
    match origin {
        Some(o) => match u32_at(o, 0) {
            Some(x) => Ok([x, u32_or(o, 1, 0), u32_or(o, 2, 0)]),
            None => Err(CommandError::NotInteger(0)),
        },
        None => Ok([0u32, 0u32, 0u32]),
    }
}

/// The texture copy location at argument `i`.
pub open spec fn texture_copy_at(items: Seq<Value>, i: int) -> Result<TextureCopy, CommandError> {
    match object_at(items, i) {
        None => Err(CommandError::CopyTargetNotObject),
        Some(d) => match origin_of(array_field(d, "origin"@)) {
            Err(e) => Err(e),
            Ok(origin) => match u64_field(d, "texture"@) {
                None => Err(CommandError::NoTextureHandle),
                Some(texture) => Ok(
                    TextureCopy {
                        texture,
                        mip_level: (match u64_field(d, "mipLevel"@) {
                            Some(m) => m,
                            None => 0,
                        }) as u32,
                        origin,
                    },
                ),
            },
        },
    }
}

/// Reads the texture copy location at argument `index`.
pub fn texture_copy_descriptor(values: &Vec<Value>, index: usize) -> (r: Result<TextureCopy, CommandError>)
    ensures
        r == texture_copy_at(values@, index as int),
{
    let descriptor = match value_object(values, index) {
        Some(d) => d,
        None => return Err(CommandError::CopyTargetNotObject),
    };
    let origin_value = match json_field(descriptor, "origin") {
        Some(o) => json_items(o),
        None => None,
    };
    let origin = match origin_value {
        Some(o) => match value_u32(o, 0) {
            Ok(x) => [x, value_u32_or(o, 1, 0), value_u32_or(o, 2, 0)],
            Err(e) => return Err(e),
        },
        None => [0u32, 0u32, 0u32],
    };
    let texture = match field_u64(descriptor, "texture") {
        Some(t) => t,
        None => return Err(CommandError::NoTextureHandle),
    };
    let mip_level = match field_u64(descriptor, "mipLevel") {
        Some(m) => m,
        None => 0,
    } as u32;
    Ok(TextureCopy { texture, mip_level, origin })
}

/// The size of a copy: `[width, height, depth]`, the width required and the
/// others one when left out.
pub open spec fn copy_size_of(size: Seq<Value>) -> Result<[u32; 3], CommandError> {
    match u32_at(size, 0) {
        Some(w) => Ok([w, u32_or(size, 1, 1), u32_or(size, 2, 1)]),
        None => Err(CommandError::NotInteger(0)),
    }
}

/// The layout of a buffer side of a copy (`{buffer, offset, bytesPerRow,
/// rowsPerImage}`): its buffer, offset, bytes per row and rows per image,
/// the last defaulting to the copy's height.
pub open spec fn buffer_layout_of(b: Value, size: Seq<Value>) -> Result<(u64, u64, u32, u32), CommandError> {
    match u64_field(b, "buffer"@) {
        None => Err(CommandError::NoBufferHandle),
        Some(buffer) => match u64_field(b, "bytesPerRow"@) {
            None => Err(CommandError::NoBytesPerRow),
            Some(bytes_per_row) => Ok(
                (
                    buffer,
                    match u64_field(b, "offset"@) {
                        Some(o) => o,
                        None => 0,
                    },
                    bytes_per_row as u32,
                    (match u64_field(b, "rowsPerImage"@) {
                        Some(r) => r,
                        None => u32_or(size, 1, 1) as u64,
                    }) as u32,
                ),
            ),
        },
    }
}

/// What an encoder command with this operation and payload records, or why
/// it is refused; the refusals come in the order the arguments are read.
pub open spec fn encoder_command_of(op: Seq<char>, payload: Value) -> Result<EncoderCommand, CommandError> {
    if op != "clearBuffer"@ && op != "copyBufferToBuffer"@ && op != "copyBufferToTexture"@ && op
        != "copyTextureToTexture"@ && op != "copyTextureToBuffer"@ && op != "resolveQuerySet"@ && op
        != "writeTimestamp"@ {
        Err(CommandError::Unsupported)
    } else {
        match array_items(payload) {
            None => Err(CommandError::PayloadNotArray),
            Some(v) => if op == "clearBuffer"@ {
                match u64_at(v, 0) {
                    None => Err(CommandError::NotInteger(0)),
                    Some(buffer) => Ok(
                        EncoderCommand::ClearBuffer {
                            buffer,
                            offset: u64_or(v, 1, 0),
                            size: u64_at(v, 2),
                        },
                    ),
                }
            } else if op == "copyBufferToBuffer"@ {
                match (u64_at(v, 0), u64_at(v, 2), u64_at(v, 4)) {
                    (None, _, _) => Err(CommandError::NotInteger(0)),
                    (Some(_), None, _) => Err(CommandError::NotInteger(2)),
                    (Some(_), Some(_), None) => Err(CommandError::NotInteger(4)),
                    (Some(source), Some(destination), Some(size)) => Ok(
                        EncoderCommand::CopyBufferToBuffer {
                            source,
                            source_offset: u64_or(v, 1, 0),
                            destination,
                            destination_offset: u64_or(v, 3, 0),
                            size,
                        },
                    ),
                }
            } else if op == "copyBufferToTexture"@ {
                match object_at(v, 0) {
                    None => Err(CommandError::BufferTargetNotObject),
                    Some(b) => match texture_copy_at(v, 1) {
                        Err(e) => Err(e),
                        Ok(destination) => match array_at(v, 2) {
                            None => Err(CommandError::CopySizeNotArray),
                            Some(size) => match buffer_layout_of(b, size) {
                                Err(e) => Err(e),
                                Ok(layout) => match copy_size_of(size) {
                                    Err(e) => Err(e),
                                    Ok(extent) => Ok(
                                        EncoderCommand::CopyBufferToTexture {
                                            source: layout.0,
                                            source_offset: layout.1,
                                            bytes_per_row: layout.2,
                                            rows_per_image: layout.3,
                                            destination,
                                            size: extent,
                                        },
                                    ),
                                },
                            },
                        },
                    },
                }
            } else if op == "copyTextureToTexture"@ {
                match texture_copy_at(v, 0) {
                    Err(e) => Err(e),
                    Ok(source) => match texture_copy_at(v, 1) {
                        Err(e) => Err(e),
                        Ok(destination) => match array_at(v, 2) {
                            None => Err(CommandError::CopySizeNotArray),
                            Some(size) => match copy_size_of(size) {
                                Err(e) => Err(e),
                                Ok(extent) => Ok(
                                    EncoderCommand::CopyTextureToTexture {
                                        source,
                                        destination,
                                        size: extent,
                                    },
                                ),
                            },
                        },
                    },
                }
            } else if op == "copyTextureToBuffer"@ {
                match texture_copy_at(v, 0) {
                    Err(e) => Err(e),
                    Ok(source) => match object_at(v, 1) {
                        None => Err(CommandError::BufferTargetNotObject),
                        Some(b) => match array_at(v, 2) {
                            None => Err(CommandError::CopySizeNotArray),
                            Some(size) => match buffer_layout_of(b, size) {
                                Err(e) => Err(e),
                                Ok(layout) => match copy_size_of(size) {
                                    Err(e) => Err(e),
                                    Ok(extent) => Ok(
                                        EncoderCommand::CopyTextureToBuffer {
                                            source,
                                            destination: layout.0,
                                            destination_offset: layout.1,
                                            bytes_per_row: layout.2,
                                            rows_per_image: layout.3,
                                            size: extent,
                                        },
                                    ),
                                },
                            },
                        },
                    },
                }
            } else if op == "resolveQuerySet"@ {
                match (u64_at(v, 0), u32_at(v, 2), u64_at(v, 3)) {
                    (None, _, _) => Err(CommandError::NotInteger(0)),
                    (Some(_), None, _) => Err(CommandError::NotInteger(2)),
                    (Some(_), Some(_), None) => Err(CommandError::NotInteger(3)),
                    (Some(query_set), Some(query_count), Some(destination)) => Ok(
                        EncoderCommand::ResolveQuerySet {
                            query_set,
                            first_query: u32_or(v, 1, 0),
                            query_count,
                            destination,
                            destination_offset: u64_or(v, 4, 0),
                        },
                    ),
                }
            } else {
                match (u64_at(v, 0), u32_at(v, 1)) {
                    (None, _) => Err(CommandError::NotInteger(0)),
                    (Some(_), None) => Err(CommandError::NotInteger(1)),
                    (Some(query_set), Some(query_index)) => Ok(
                        EncoderCommand::WriteTimestamp { query_set, query_index },
                    ),
                }
            },
        }
    }
}

/// Reads the buffer side of a copy.
fn buffer_layout(b: &Value, size: &Vec<Value>) -> (r: Result<(u64, u64, u32, u32), CommandError>)
    ensures
        r == buffer_layout_of(*b, size@),
{
    let buffer = match field_u64(b, "buffer") {
        Some(n) => n,
        None => return Err(CommandError::NoBufferHandle),
    };
    let offset = match field_u64(b, "offset") {
        Some(n) => n,
        None => 0,
    };
    let bytes_per_row = match field_u64(b, "bytesPerRow") {
        Some(n) => n as u32,
        None => return Err(CommandError::NoBytesPerRow),
    };
    let rows_per_image = match field_u64(b, "rowsPerImage") {
        Some(n) => n,
        None => value_u32_or(size, 1, 1) as u64,
    } as u32;
    Ok((buffer, offset, bytes_per_row, rows_per_image))
}

/// Reads the size of a copy.
fn copy_size(size: &Vec<Value>) -> (r: Result<[u32; 3], CommandError>)
    ensures
        r == copy_size_of(size@),
{
    match value_u32(size, 0) {
        Ok(w) => Ok([w, value_u32_or(size, 1, 1), value_u32_or(size, 2, 1)]),
        Err(e) => Err(e),
    }
}

/// Decodes an encoder command (`clearBuffer`, the four copies,
/// `resolveQuerySet`, `writeTimestamp`) from its operation name and JSON
/// payload array.
pub fn decode_encoder_command(operation: &str, payload: &Value) -> (r: Result<EncoderCommand, CommandError>)
    ensures
        r == encoder_command_of(operation@, *payload),
{
    let known = text_eq(operation, "clearBuffer") || text_eq(operation, "copyBufferToBuffer")
        || text_eq(operation, "copyBufferToTexture") || text_eq(operation, "copyTextureToTexture")
        || text_eq(operation, "copyTextureToBuffer") || text_eq(operation, "resolveQuerySet")
        || text_eq(operation, "writeTimestamp");
    if !known {
        return Err(CommandError::Unsupported);
    }
    let v = match json_items(payload) {
        Some(v) => v,
        None => return Err(CommandError::PayloadNotArray),
    };
    if text_eq(operation, "clearBuffer") {
        let buffer = value_u64(v, 0)?;
        Ok(
            EncoderCommand::ClearBuffer {
                buffer,
                offset: value_u64_or(v, 1, 0),
                size: match value_u64(v, 2) {
                    Ok(n) => Some(n),
                    Err(_) => None,
                },
            },
        )
    } else if text_eq(operation, "copyBufferToBuffer") {
        let source = value_u64(v, 0)?;
        let source_offset = value_u64_or(v, 1, 0);
        let destination = value_u64(v, 2)?;
        let destination_offset = value_u64_or(v, 3, 0);
        let size = value_u64(v, 4)?;
        Ok(
            EncoderCommand::CopyBufferToBuffer {
                source,
                source_offset,
                destination,
                destination_offset,
                size,
            },
        )
    } else if text_eq(operation, "copyBufferToTexture") {
        let b = match value_object(v, 0) {
            Some(b) => b,
            None => return Err(CommandError::BufferTargetNotObject),
        };
        let destination = texture_copy_descriptor(v, 1)?;
        let size = match value_array(v, 2) {
            Some(size) => size,
            None => return Err(CommandError::CopySizeNotArray),
        };
        let layout = buffer_layout(b, size)?;
        let extent = copy_size(size)?;
        Ok(
            EncoderCommand::CopyBufferToTexture {
                source: layout.0,
                source_offset: layout.1,
                bytes_per_row: layout.2,
                rows_per_image: layout.3,
                destination,
                size: extent,
            },
        )
    } else if text_eq(operation, "copyTextureToTexture") {
        let source = texture_copy_descriptor(v, 0)?;
        let destination = texture_copy_descriptor(v, 1)?;
        let size = match value_array(v, 2) {
            Some(size) => size,
            None => return Err(CommandError::CopySizeNotArray),
        };
        let extent = copy_size(size)?;
        Ok(EncoderCommand::CopyTextureToTexture { source, destination, size: extent })
    } else if text_eq(operation, "copyTextureToBuffer") {
        let source = texture_copy_descriptor(v, 0)?;
        let b = match value_object(v, 1) {
            Some(b) => b,
            None => return Err(CommandError::BufferTargetNotObject),
        };
        let size = match value_array(v, 2) {
            Some(size) => size,
            None => return Err(CommandError::CopySizeNotArray),
        };
        let layout = buffer_layout(b, size)?;
        let extent = copy_size(size)?;
        Ok(
            EncoderCommand::CopyTextureToBuffer {
                source,
                destination: layout.0,
                destination_offset: layout.1,
                bytes_per_row: layout.2,
                rows_per_image: layout.3,
                size: extent,
            },
        )
    } else if text_eq(operation, "resolveQuerySet") {
        let query_set = value_u64(v, 0)?;
        let first_query = value_u32_or(v, 1, 0);
        let query_count = value_u32(v, 2)?;
        let destination = value_u64(v, 3)?;
        let destination_offset = value_u64_or(v, 4, 0);
        Ok(
            EncoderCommand::ResolveQuerySet {
                query_set,
                first_query,
                query_count,
                destination,
                destination_offset,
            },
        )
    } else {
        let query_set = value_u64(v, 0)?;
        let query_index = value_u32(v, 1)?;
        Ok(EncoderCommand::WriteTimestamp { query_set, query_index })
    }
}

// ---------------------------------------------------------------------
// Commands inside passes and render bundles
// ---------------------------------------------------------------------

/// A command of a render pass or a render bundle. Viewport bounds and the
/// blend constant are JSON numbers, converted by the host when it encodes
/// the command.
#[derive(Debug)]
#[allow(inconsistent_fields)]
pub enum RenderCommand {
    SetPipeline(u64),
    SetBindGroup { index: u32, bind_group: u64, dynamic_offsets: Vec<u32> },
    SetVertexBuffer { slot: u32, buffer: u64, offset: u64, size: Option<u64> },
    SetIndexBuffer { buffer: u64, offset: u64, format: String },
    SetViewport { x: Value, y: Value, width: Value, height: Value, min_depth: Value, max_depth: Value },
    SetScissorRect { x: u32, y: u32, width: u32, height: u32 },
    SetBlendConstant { r: Value, g: Value, b: Value, a: Value },
    SetStencilReference(u32),
    Draw { vertex_count: u32, instance_count: u32, first_vertex: u32, first_instance: u32 },
    DrawIndexed {
        index_count: u32,
        instance_count: u32,
        first_index: u32,
        base_vertex: i32,
        first_instance: u32,
    },
    DrawIndirect { buffer: u64, offset: u64 },
    DrawIndexedIndirect { buffer: u64, offset: u64 },
    BeginOcclusionQuery(u32),
    EndOcclusionQuery,
    ExecuteBundles(Vec<u64>),
}

/// A command of a compute pass.
#[derive(Debug)]
pub enum ComputeCommand {
    SetPipeline(u64),
    SetBindGroup { index: u32, bind_group: u64, dynamic_offsets: Vec<u32> },
    DispatchWorkgroups { x: u32, y: u32, z: u32 },
    DispatchWorkgroupsIndirect { buffer: u64, offset: u64 },
}

/// A decoded pass command. `setPipeline` goes to the pass of the pipeline's
/// kind and `setBindGroup` to whichever pass it names, so both are decoded
/// before their kind is known.
#[derive(Debug)]
pub enum PassCommand {
    Render(RenderCommand),
    Compute(ComputeCommand),
    SetPipeline(u64),
    SetBindGroup { index: u32, bind_group: u64, dynamic_offsets: Vec<u32> },
}

/// Every item is a non-negative integer.
pub open spec fn all_u64(items: Seq<Value>) -> bool {
    forall|k: int| 0 <= k < items.len() ==> (#[trigger] as_u64(items[k])) is Some
}

/// The items as non-negative integers.
pub open spec fn u64_list(items: Seq<Value>) -> Seq<u64> {
    items.map_values(|x: Value| as_u64(x)->0)
}

/// The items as non-negative integers cut to 32 bits.
pub open spec fn u32_list(items: Seq<Value>) -> Seq<u32> {
    items.map_values(|x: Value| (as_u64(x)->0) as u32)
}

/// The first of the arguments `i..count` that is not a number.
pub open spec fn first_non_number(v: Seq<Value>, i: int, count: int) -> Option<CommandError>
    decreases count - i,
{
    if i >= count {
        None
    } else if number_at(v, i) is None {
        Some(CommandError::NotNumber(i as usize))
    } else {
        first_non_number(v, i + 1, count)
    }
}

/// The first of the arguments `i..count` that is not a non-negative
/// integer.
pub open spec fn first_non_integer(v: Seq<Value>, i: int, count: int) -> Option<CommandError>
    decreases count - i,
{
    if i >= count {
        None
    } else if u64_at(v, i) is None {
        Some(CommandError::NotInteger(i as usize))
    } else {
        first_non_integer(v, i + 1, count)
    }
}

/// The index format argument of `setIndexBuffer`: its text, `uint32` when
/// left out or not a string.
pub open spec fn index_format_text(v: Seq<Value>) -> Seq<char> {
    match item(v, 2) {
        Some(x) => match json_shape(x) {
            JsonShape::Text(t) => t,
            _ => "uint32"@,
        },
        None => "uint32"@,
    }
}

/// Why a pass command is refused before it reaches a pass, if it is.
pub open spec fn pass_command_error(op: Seq<char>, payload: Value) -> Option<CommandError> {
    match array_items(payload) {
        None => Some(CommandError::PayloadNotArray),
        Some(v) => if op == "setPipeline"@ {
            first_non_integer(v, 0, 1)
        } else if op == "setBindGroup"@ {
            if u64_at(v, 0) is None {
                Some(CommandError::NotInteger(0))
            } else if u64_at(v, 1) is None {
                Some(CommandError::NotInteger(1))
            } else {
                match array_at(v, 2) {
                    None => Some(CommandError::OffsetsNotArray),
                    Some(offsets) => if all_u64(offsets) {
                        None
                    } else {
                        Some(CommandError::OffsetNotInteger)
                    },
                }
            }
        } else if op == "setVertexBuffer"@ {
            first_non_integer(v, 0, 2)
        } else if op == "setIndexBuffer"@ {
            first_non_integer(v, 0, 1)
        } else if op == "setViewport"@ {
            first_non_number(v, 0, 6)
        } else if op == "setScissorRect"@ {
            first_non_integer(v, 0, 4)
        } else if op == "setBlendConstant"@ {
            first_non_number(v, 0, 4)
        } else if op == "setStencilReference"@ || op == "draw"@ || op == "drawIndexed"@ || op
            == "drawIndirect"@ || op == "drawIndexedIndirect"@ || op == "beginOcclusionQuery"@ {
            first_non_integer(v, 0, 1)
        } else if op == "endOcclusionQuery"@ {
            None
        } else if op == "executeBundles"@ {
            if all_u64(v) {
                None
            } else {
                Some(CommandError::BundleNotInteger)
            }
        } else if op == "dispatchWorkgroups"@ || op == "dispatchWorkgroupsIndirect"@ {
            first_non_integer(v, 0, 1)
        } else {
            Some(CommandError::Unsupported)
        },
    }
}

/// `c` is what the pass command decodes to (when it is not refused).
pub open spec fn pass_command_of(op: Seq<char>, payload: Value, c: PassCommand) -> bool {
    match array_items(payload) {
        None => false,
        Some(v) => if op == "setPipeline"@ {
            c == PassCommand::SetPipeline(u64_at(v, 0)->0)
        } else if op == "setBindGroup"@ {
            c matches PassCommand::SetBindGroup { index, bind_group, dynamic_offsets } && index
                == u32_at(v, 0)->0 && bind_group == u64_at(v, 1)->0 && dynamic_offsets@ == u32_list(
                array_at(v, 2)->0,
            )
        } else if op == "setVertexBuffer"@ {
            c == PassCommand::Render(
                RenderCommand::SetVertexBuffer {
                    slot: u32_at(v, 0)->0,
                    buffer: u64_at(v, 1)->0,
                    offset: u64_or(v, 2, 0),
                    size: u64_at(v, 3),
                },
            )
        } else if op == "setIndexBuffer"@ {
            c matches PassCommand::Render(RenderCommand::SetIndexBuffer { buffer, offset, format })
                && buffer == u64_at(v, 0)->0 && offset == u64_or(v, 1, 0) && format@
                == index_format_text(v)
        } else if op == "setViewport"@ {
            c == PassCommand::Render(
                RenderCommand::SetViewport {
                    x: v[0],
                    y: v[1],
                    width: v[2],
                    height: v[3],
                    min_depth: v[4],
                    max_depth: v[5],
                },
            )
        } else if op == "setScissorRect"@ {
            c == PassCommand::Render(
                RenderCommand::SetScissorRect {
                    x: u32_at(v, 0)->0,
                    y: u32_at(v, 1)->0,
                    width: u32_at(v, 2)->0,
                    height: u32_at(v, 3)->0,
                },
            )
        } else if op == "setBlendConstant"@ {
            c == PassCommand::Render(RenderCommand::SetBlendConstant { r: v[0], g: v[1], b: v[2], a: v[3] })
        } else if op == "setStencilReference"@ {
            c == PassCommand::Render(RenderCommand::SetStencilReference(u32_at(v, 0)->0))
        } else if op == "draw"@ {
            c == PassCommand::Render(
                RenderCommand::Draw {
                    vertex_count: u32_at(v, 0)->0,
                    instance_count: u32_or(v, 1, 1),
                    first_vertex: u32_or(v, 2, 0),
                    first_instance: u32_or(v, 3, 0),
                },
            )
        } else if op == "drawIndexed"@ {
            c == PassCommand::Render(
                RenderCommand::DrawIndexed {
                    index_count: u32_at(v, 0)->0,
                    instance_count: u32_or(v, 1, 1),
                    first_index: u32_or(v, 2, 0),
                    base_vertex: i32_or(v, 3, 0),
                    first_instance: u32_or(v, 4, 0),
                },
            )
        } else if op == "drawIndirect"@ {
            c == PassCommand::Render(
                RenderCommand::DrawIndirect { buffer: u64_at(v, 0)->0, offset: u64_or(v, 1, 0) },
            )
        } else if op == "drawIndexedIndirect"@ {
            c == PassCommand::Render(
                RenderCommand::DrawIndexedIndirect { buffer: u64_at(v, 0)->0, offset: u64_or(v, 1, 0) },
            )
        } else if op == "beginOcclusionQuery"@ {
            c == PassCommand::Render(RenderCommand::BeginOcclusionQuery(u32_at(v, 0)->0))
        } else if op == "endOcclusionQuery"@ {
            c == PassCommand::Render(RenderCommand::EndOcclusionQuery)
        } else if op == "executeBundles"@ {
            c matches PassCommand::Render(RenderCommand::ExecuteBundles(ids)) && ids@ == u64_list(v)
        } else if op == "dispatchWorkgroups"@ {
            c == PassCommand::Compute(
                ComputeCommand::DispatchWorkgroups {
                    x: u32_at(v, 0)->0,
                    y: u32_or(v, 1, 1),
                    z: u32_or(v, 2, 1),
                },
            )
        } else if op == "dispatchWorkgroupsIndirect"@ {
            c == PassCommand::Compute(
                ComputeCommand::DispatchWorkgroupsIndirect {
                    buffer: u64_at(v, 0)->0,
                    offset: u64_or(v, 1, 0),
                },
            )
        } else {
            false
        },
    }
}

/// Reads every item as a non-negative integer cut to 32 bits.
fn u32_items(items: &Vec<Value>) -> (r: Option<Vec<u32>>)
    ensures
        all_u64(items@) ==> (r matches Some(list) && list@ == u32_list(items@)),
        !all_u64(items@) ==> r is None,
{
    let mut out: Vec<u32> = Vec::new();
    let mut k: usize = 0;
    while k < items.len()
        invariant
            k <= items@.len(),
            out@.len() == k,
            forall|j: int| 0 <= j < k ==> (#[trigger] as_u64(items@[j])) is Some,
            forall|j: int| 0 <= j < k ==> out@[j] == (as_u64(items@[j])->0) as u32,
        decreases items.len() - k,
    {
        match json_u64(&items[k]) {
            Some(n) => out.push(n as u32),
            None => return None,
        }
        k = k + 1;
    }
    assert(out@ =~= u32_list(items@));
    Some(out)
}

/// Reads every item as a non-negative integer.
fn u64_items(items: &Vec<Value>) -> (r: Option<Vec<u64>>)
    ensures
        all_u64(items@) ==> (r matches Some(list) && list@ == u64_list(items@)),
        !all_u64(items@) ==> r is None,
{
    let mut out: Vec<u64> = Vec::new();
    let mut k: usize = 0;
    while k < items.len()
        invariant
            k <= items@.len(),
            out@.len() == k,
            forall|j: int| 0 <= j < k ==> (#[trigger] as_u64(items@[j])) is Some,
            forall|j: int| 0 <= j < k ==> out@[j] == as_u64(items@[j])->0,
        decreases items.len() - k,
    {
        match json_u64(&items[k]) {
            Some(n) => out.push(n),
            None => return None,
        }
        k = k + 1;
    }
    assert(out@ =~= u64_list(items@));
    Some(out)
}

/// The index format argument of `setIndexBuffer`.
fn index_format(v: &Vec<Value>) -> (r: String)
    ensures
        r@ == index_format_text(v@),
{
    let text = match value_at(v, 2) {
        Some(x) => match json_str(x) {
            Some(t) => t,
            None => "uint32",
        },
        None => "uint32",
    };
    text.to_string()
}

/// `drawIndexed` reads its arguments in WebGPU's order: a payload of the
/// five integers `[indexCount, instanceCount, firstIndex, baseVertex,
/// firstInstance]` decodes to the indexed draw with exactly those fields.
pub proof fn law_draw_indexed_argument_order(
    payload: Value,
    c: PassCommand,
    items: Seq<Value>,
    index_count: u32,
    instance_count: u32,
    first_index: u32,
    base_vertex: i32,
    first_instance: u32,
)
    requires
        pass_command_of("drawIndexed"@, payload, c),
        json_shape(payload) == JsonShape::Array(items),
        items.len() == 5,
        json_shape(items[0]) == JsonShape::Integer(index_count as int),
        json_shape(items[1]) == JsonShape::Integer(instance_count as int),
        json_shape(items[2]) == JsonShape::Integer(first_index as int),
        json_shape(items[3]) == JsonShape::Integer(base_vertex as int),
        json_shape(items[4]) == JsonShape::Integer(first_instance as int),
    ensures
        c == PassCommand::Render(
            RenderCommand::DrawIndexed { index_count, instance_count, first_index, base_vertex, first_instance },
        ),
{
    lemma_draw_indexed_is_not_an_earlier_operation();
}

/// A `drawIndexed` payload of the index count alone draws one instance
/// from the first index, base vertex and instance 0.
pub proof fn law_draw_indexed_defaults(payload: Value, c: PassCommand, items: Seq<Value>, index_count: u32)
    requires
        pass_command_of("drawIndexed"@, payload, c),
        json_shape(payload) == JsonShape::Array(items),
        items.len() == 1,
        json_shape(items[0]) == JsonShape::Integer(index_count as int),
    ensures
        c == PassCommand::Render(
            RenderCommand::DrawIndexed {
                index_count,
                instance_count: 1,
                first_index: 0,
                base_vertex: 0,
                first_instance: 0,
            },
        ),
{
    lemma_draw_indexed_is_not_an_earlier_operation();
}

/// `draw` reads its arguments in WebGPU's order: a payload of the four
/// integers `[vertexCount, instanceCount, firstVertex, firstInstance]`
/// decodes to the draw with exactly those fields.
pub proof fn law_draw_argument_order(
    payload: Value,
    c: PassCommand,
    items: Seq<Value>,
    vertex_count: u32,
    instance_count: u32,
    first_vertex: u32,
    first_instance: u32,
)
    requires
        pass_command_of("draw"@, payload, c),
        json_shape(payload) == JsonShape::Array(items),
        items.len() == 4,
        json_shape(items[0]) == JsonShape::Integer(vertex_count as int),
        json_shape(items[1]) == JsonShape::Integer(instance_count as int),
        json_shape(items[2]) == JsonShape::Integer(first_vertex as int),
        json_shape(items[3]) == JsonShape::Integer(first_instance as int),
    ensures
        c == PassCommand::Render(RenderCommand::Draw { vertex_count, instance_count, first_vertex, first_instance }),
{
    reveal_strlit("draw");
    reveal_strlit("setPipeline");
    reveal_strlit("setBindGroup");
    reveal_strlit("setVertexBuffer");
    reveal_strlit("setIndexBuffer");
    reveal_strlit("setViewport");
    reveal_strlit("setScissorRect");
    reveal_strlit("setBlendConstant");
    reveal_strlit("setStencilReference");
    assert("draw"@[0] != "setPipeline"@[0]);
    assert("draw"@[0] != "setBindGroup"@[0]);
    assert("draw"@[0] != "setVertexBuffer"@[0]);
    assert("draw"@[0] != "setIndexBuffer"@[0]);
    assert("draw"@[0] != "setViewport"@[0]);
    assert("draw"@[0] != "setScissorRect"@[0]);
    assert("draw"@[0] != "setBlendConstant"@[0]);
    assert("draw"@[0] != "setStencilReference"@[0]);
}

/// `drawIndexed` differs from the operation names tested before it.
proof fn lemma_draw_indexed_is_not_an_earlier_operation()
    ensures
        "drawIndexed"@ != "setPipeline"@,
        "drawIndexed"@ != "setBindGroup"@,
        "drawIndexed"@ != "setVertexBuffer"@,
        "drawIndexed"@ != "setIndexBuffer"@,
        "drawIndexed"@ != "setViewport"@,
        "drawIndexed"@ != "setScissorRect"@,
        "drawIndexed"@ != "setBlendConstant"@,
        "drawIndexed"@ != "setStencilReference"@,
        "drawIndexed"@ != "draw"@,
{
    reveal_strlit("drawIndexed");
    reveal_strlit("setPipeline");
    reveal_strlit("setBindGroup");
    reveal_strlit("setVertexBuffer");
    reveal_strlit("setIndexBuffer");
    reveal_strlit("setViewport");
    reveal_strlit("setScissorRect");
    reveal_strlit("setBlendConstant");
    reveal_strlit("setStencilReference");
    reveal_strlit("draw");
    assert("drawIndexed"@[0] != "setPipeline"@[0]);
    assert("drawIndexed"@[0] != "setBindGroup"@[0]);
    assert("drawIndexed"@[0] != "setVertexBuffer"@[0]);
    assert("drawIndexed"@[0] != "setIndexBuffer"@[0]);
    assert("drawIndexed"@[0] != "setViewport"@[0]);
    assert("drawIndexed"@[0] != "setScissorRect"@[0]);
    assert("drawIndexed"@[0] != "setBlendConstant"@[0]);
    assert("drawIndexed"@[0] != "setStencilReference"@[0]);
    assert("drawIndexed"@.len() != "draw"@.len());
}

/// Decodes a pass command from its operation name and JSON payload array.
pub fn decode_pass_command(operation: &str, payload: &Value) -> (r: Result<PassCommand, CommandError>)
    ensures
        match r {
            Ok(c) => pass_command_error(operation@, *payload) is None && pass_command_of(
                operation@,
                *payload,
                c,
            ),
            Err(e) => pass_command_error(operation@, *payload) == Some(e),
        },
{
    proof {
        reveal_with_fuel(first_non_integer, 5);
        reveal_with_fuel(first_non_number, 7);
    }
    let v = match json_items(payload) {
        Some(v) => v,
        None => return Err(CommandError::PayloadNotArray),
    };
    if text_eq(operation, "setPipeline") {
        Ok(PassCommand::SetPipeline(value_u64(v, 0)?))
    } else if text_eq(operation, "setBindGroup") {
        let index = value_u32(v, 0)?;
        let bind_group = value_u64(v, 1)?;
        let offsets = match value_array(v, 2) {
            Some(offsets) => offsets,
            None => return Err(CommandError::OffsetsNotArray),
        };
        let dynamic_offsets = match u32_items(offsets) {
            Some(list) => list,
            None => return Err(CommandError::OffsetNotInteger),
        };
        Ok(PassCommand::SetBindGroup { index, bind_group, dynamic_offsets })
    } else if text_eq(operation, "setVertexBuffer") {
        let slot = value_u32(v, 0)?;
        let buffer = value_u64(v, 1)?;
        let offset = value_u64_or(v, 2, 0);
        let size = match value_u64(v, 3) {
            Ok(n) => Some(n),
            Err(_) => None,
        };
        Ok(PassCommand::Render(RenderCommand::SetVertexBuffer { slot, buffer, offset, size }))
    } else if text_eq(operation, "setIndexBuffer") {
        let buffer = value_u64(v, 0)?;
        let offset = value_u64_or(v, 1, 0);
        let format = index_format(v);
        Ok(PassCommand::Render(RenderCommand::SetIndexBuffer { buffer, offset, format }))
    } else if text_eq(operation, "setViewport") {
        let x = value_number(v, 0)?;
        let y = value_number(v, 1)?;
        let width = value_number(v, 2)?;
        let height = value_number(v, 3)?;
        let min_depth = value_number(v, 4)?;
        let max_depth = value_number(v, 5)?;
        Ok(
            PassCommand::Render(
                RenderCommand::SetViewport { x, y, width, height, min_depth, max_depth },
            ),
        )
    } else if text_eq(operation, "setScissorRect") {
        let x = value_u32(v, 0)?;
        let y = value_u32(v, 1)?;
        let width = value_u32(v, 2)?;
        let height = value_u32(v, 3)?;
        Ok(PassCommand::Render(RenderCommand::SetScissorRect { x, y, width, height }))
    } else if text_eq(operation, "setBlendConstant") {
        let r = value_number(v, 0)?;
        let g = value_number(v, 1)?;
        let b = value_number(v, 2)?;
        let a = value_number(v, 3)?;
        Ok(PassCommand::Render(RenderCommand::SetBlendConstant { r, g, b, a }))
    } else if text_eq(operation, "setStencilReference") {
        Ok(PassCommand::Render(RenderCommand::SetStencilReference(value_u32(v, 0)?)))
    } else if text_eq(operation, "draw") {
        let vertex_count = value_u32(v, 0)?;
        Ok(
            PassCommand::Render(
                RenderCommand::Draw {
                    vertex_count,
                    instance_count: value_u32_or(v, 1, 1),
                    first_vertex: value_u32_or(v, 2, 0),
                    first_instance: value_u32_or(v, 3, 0),
                },
            ),
        )
    } else if text_eq(operation, "drawIndexed") {
        let index_count = value_u32(v, 0)?;
        Ok(
            PassCommand::Render(
                RenderCommand::DrawIndexed {
                    index_count,
                    instance_count: value_u32_or(v, 1, 1),
                    first_index: value_u32_or(v, 2, 0),
                    base_vertex: value_i32_or(v, 3, 0),
                    first_instance: value_u32_or(v, 4, 0),
                },
            ),
        )
    } else if text_eq(operation, "drawIndirect") {
        let buffer = value_u64(v, 0)?;
        Ok(PassCommand::Render(RenderCommand::DrawIndirect { buffer, offset: value_u64_or(v, 1, 0) }))
    } else if text_eq(operation, "drawIndexedIndirect") {
        let buffer = value_u64(v, 0)?;
        Ok(
            PassCommand::Render(
                RenderCommand::DrawIndexedIndirect { buffer, offset: value_u64_or(v, 1, 0) },
            ),
        )
    } else if text_eq(operation, "beginOcclusionQuery") {
        Ok(PassCommand::Render(RenderCommand::BeginOcclusionQuery(value_u32(v, 0)?)))
    } else if text_eq(operation, "endOcclusionQuery") {
        Ok(PassCommand::Render(RenderCommand::EndOcclusionQuery))
    } else if text_eq(operation, "executeBundles") {
        match u64_items(v) {
            Some(ids) => Ok(PassCommand::Render(RenderCommand::ExecuteBundles(ids))),
            None => Err(CommandError::BundleNotInteger),
        }
    } else if text_eq(operation, "dispatchWorkgroups") {
        let x = value_u32(v, 0)?;
        Ok(
            PassCommand::Compute(
                ComputeCommand::DispatchWorkgroups {
                    x,
                    y: value_u32_or(v, 1, 1),
                    z: value_u32_or(v, 2, 1),
                },
            ),
        )
    } else if text_eq(operation, "dispatchWorkgroupsIndirect") {
        let buffer = value_u64(v, 0)?;
        Ok(
            PassCommand::Compute(
                ComputeCommand::DispatchWorkgroupsIndirect { buffer, offset: value_u64_or(v, 1, 0) },
            ),
        )
    } else {
        Err(CommandError::Unsupported)
    }
}

/// The dynamic offsets of a render bundle's `setBindGroup`: none when the
/// argument is left out or not an array.
pub open spec fn bundle_offsets(v: Seq<Value>) -> Seq<Value> {
    match array_at(v, 2) {
        Some(offsets) => offsets,
        None => Seq::empty(),
    }
}

/// Why a render bundle command is refused, if it is.
pub open spec fn bundle_command_error(op: Seq<char>, payload: Value) -> Option<CommandError> {
    match array_items(payload) {
        None => Some(CommandError::PayloadNotArray),
        Some(v) => if op == "setPipeline"@ {
            first_non_integer(v, 0, 1)
        } else if op == "setBindGroup"@ {
            if u64_at(v, 0) is None {
                Some(CommandError::NotInteger(0))
            } else if u64_at(v, 1) is None {
                Some(CommandError::NotInteger(1))
            } else if all_u64(bundle_offsets(v)) {
                None
            } else {
                Some(CommandError::OffsetNotInteger)
            }
        } else if op == "setVertexBuffer"@ {
            first_non_integer(v, 0, 2)
        } else if op == "setIndexBuffer"@ || op == "draw"@ || op == "drawIndexed"@ {
            first_non_integer(v, 0, 1)
        } else if op == "drawIndirect"@ || op == "drawIndexedIndirect"@ {
            Some(CommandError::IndirectInBundle)
        } else {
            Some(CommandError::Unsupported)
        },
    }
}

/// `c` is what the render bundle command decodes to (when it is not
/// refused); unlike a pass, `setBindGroup` may leave out its offsets.
pub open spec fn bundle_command_of(op: Seq<char>, payload: Value, c: RenderCommand) -> bool {
    match array_items(payload) {
        None => false,
        Some(v) => if op == "setPipeline"@ {
            c == RenderCommand::SetPipeline(u64_at(v, 0)->0)
        } else if op == "setBindGroup"@ {
            c matches RenderCommand::SetBindGroup { index, bind_group, dynamic_offsets } && index
                == u32_at(v, 0)->0 && bind_group == u64_at(v, 1)->0 && dynamic_offsets@ == u32_list(
                bundle_offsets(v),
            )
        } else if op == "setVertexBuffer"@ {
            c == RenderCommand::SetVertexBuffer {
                slot: u32_at(v, 0)->0,
                buffer: u64_at(v, 1)->0,
                offset: u64_or(v, 2, 0),
                size: u64_at(v, 3),
            }
        } else if op == "setIndexBuffer"@ {
            c matches RenderCommand::SetIndexBuffer { buffer, offset, format } && buffer == u64_at(
                v,
                0,
            )->0 && offset == u64_or(v, 1, 0) && format@ == index_format_text(v)
        } else if op == "draw"@ {
            c == RenderCommand::Draw {
                vertex_count: u32_at(v, 0)->0,
                instance_count: u32_or(v, 1, 1),
                first_vertex: u32_or(v, 2, 0),
                first_instance: u32_or(v, 3, 0),
            }
        } else if op == "drawIndexed"@ {
            c == RenderCommand::DrawIndexed {
                index_count: u32_at(v, 0)->0,
                instance_count: u32_or(v, 1, 1),
                first_index: u32_or(v, 2, 0),
                base_vertex: i32_or(v, 3, 0),
                first_instance: u32_or(v, 4, 0),
            }
        } else {
            false
        },
    }
}

/// Decodes a render bundle command from its operation name and JSON payload
/// array.
pub fn decode_bundle_command(operation: &str, payload: &Value) -> (r: Result<RenderCommand, CommandError>)
    ensures
        match r {
            Ok(c) => bundle_command_error(operation@, *payload) is None && bundle_command_of(
                operation@,
                *payload,
                c,
            ),
            Err(e) => bundle_command_error(operation@, *payload) == Some(e),
        },
{
    proof {
        reveal_with_fuel(first_non_integer, 3);
    }
    let v = match json_items(payload) {
        Some(v) => v,
        None => return Err(CommandError::PayloadNotArray),
    };
    if text_eq(operation, "setPipeline") {
        Ok(RenderCommand::SetPipeline(value_u64(v, 0)?))
    } else if text_eq(operation, "setBindGroup") {
        let index = value_u32(v, 0)?;
        let bind_group = value_u64(v, 1)?;
        let dynamic_offsets = match value_array(v, 2) {
            Some(offsets) => match u32_items(offsets) {
                Some(list) => list,
                None => return Err(CommandError::OffsetNotInteger),
            },
            None => {
                let empty: Vec<u32> = Vec::new();
                proof {
                    assert(u32_list(bundle_offsets(v@)) =~= empty@);
                }
                empty
            },
        };
        Ok(RenderCommand::SetBindGroup { index, bind_group, dynamic_offsets })
    } else if text_eq(operation, "setVertexBuffer") {
        let slot = value_u32(v, 0)?;
        let buffer = value_u64(v, 1)?;
        let offset = value_u64_or(v, 2, 0);
        let size = match value_u64(v, 3) {
            Ok(n) => Some(n),
            Err(_) => None,
        };
        Ok(RenderCommand::SetVertexBuffer { slot, buffer, offset, size })
    } else if text_eq(operation, "setIndexBuffer") {
        let buffer = value_u64(v, 0)?;
        let offset = value_u64_or(v, 1, 0);
        let format = index_format(v);
        Ok(RenderCommand::SetIndexBuffer { buffer, offset, format })
    } else if text_eq(operation, "draw") {
        let vertex_count = value_u32(v, 0)?;
        Ok(
            RenderCommand::Draw {
                vertex_count,
                instance_count: value_u32_or(v, 1, 1),
                first_vertex: value_u32_or(v, 2, 0),
                first_instance: value_u32_or(v, 3, 0),
            },
        )
    } else if text_eq(operation, "drawIndexed") {
        let index_count = value_u32(v, 0)?;
        Ok(
            RenderCommand::DrawIndexed {
                index_count,
                instance_count: value_u32_or(v, 1, 1),
                first_index: value_u32_or(v, 2, 0),
                base_vertex: value_i32_or(v, 3, 0),
                first_instance: value_u32_or(v, 4, 0),
            },
        )
    } else if text_eq(operation, "drawIndirect") || text_eq(operation, "drawIndexedIndirect") {
        Err(CommandError::IndirectInBundle)
    } else {
        Err(CommandError::Unsupported)
    }
}

// ---------------------------------------------------------------------
// Pass descriptors
// ---------------------------------------------------------------------

/// A color attachment of a render pass. The clear color stays the JSON
/// `clearValue` (absent: transparent black is the host's default).
#[derive(Debug)]
pub struct ColorAttachment {
    pub view: u64,
    pub resolve_target: Option<u64>,
    pub load_op: String,
    pub store_op: String,
    pub clear_value: Option<Value>,
}

/// The depth-stencil attachment of a render pass. The clear depth stays
/// the JSON `depthClearValue` (absent: the host's default of one).
#[derive(Debug)]
pub struct DepthStencilAttachment {
    pub view: u64,
    pub depth_load_op: String,
    pub depth_store_op: String,
    pub depth_clear_value: Option<Value>,
}

/// Timestamp queries written at the start and end of a pass.
#[derive(Debug, Clone, Copy, PartialEq, Eq, Structural)]
pub struct TimestampWrites {
    pub query_set: u64,
    pub beginning_of_pass_write_index: Option<u32>,
    pub end_of_pass_write_index: Option<u32>,
}

/// A render pass: its attachments and queries, and the commands recorded
/// on it.
#[derive(Debug)]
pub struct RenderPassState {
    pub colors: Vec<ColorAttachment>,
    pub depth_stencil: Option<DepthStencilAttachment>,
    pub occlusion_query_set: Option<u64>,
    pub timestamp_writes: Option<TimestampWrites>,
    pub commands: Vec<RenderCommand>,
}

/// A compute pass: its timestamp queries and the commands recorded on it.
#[derive(Debug)]
pub struct ComputePassState {
    pub timestamp_writes: Option<TimestampWrites>,
    pub commands: Vec<ComputeCommand>,
}

/// `c` is the color attachment that `a` describes (given `a` has a view).
pub open spec fn color_attachment_of(a: Value, c: ColorAttachment) -> bool {
    &&& c.view == u64_field(a, "view"@)->0
    &&& c.resolve_target == u64_field(a, "resolveTarget"@)
    &&& c.load_op@ == text_field_or(a, "loadOp"@, "load"@)
    &&& c.store_op@ == text_field_or(a, "storeOp"@, "store"@)
    &&& c.clear_value == field(a, "clearValue"@)
}

/// `d` is the depth-stencil attachment that `a` describes (given `a` has a
/// view).
pub open spec fn depth_attachment_of(a: Value, d: DepthStencilAttachment) -> bool {
    &&& d.view == u64_field(a, "view"@)->0
    &&& d.depth_load_op@ == text_field_or(a, "depthLoadOp"@, "load"@)
    &&& d.depth_store_op@ == text_field_or(a, "depthStoreOp"@, "store"@)
    &&& d.depth_clear_value == field(a, "depthClearValue"@)
}

/// The timestamp writes a pass descriptor asks for, or why they are
/// refused.
pub open spec fn timestamp_writes_of(descriptor: Value) -> Result<Option<TimestampWrites>, CommandError> {
    match present_field(descriptor, "timestampWrites"@) {
        None => Ok(None),
        Some(t) => match u64_field(t, "querySet"@) {
            None => Err(CommandError::NoTimestampQuerySet),
            Some(query_set) => Ok(
                Some(
                    TimestampWrites {
                        query_set,
                        beginning_of_pass_write_index: match u64_field(
                            t,
                            "beginningOfPassWriteIndex"@,
                        ) {
                            Some(n) => Some(n as u32),
                            None => None,
                        },
                        end_of_pass_write_index: match u64_field(t, "endOfPassWriteIndex"@) {
                            Some(n) => Some(n as u32),
                            None => None,
                        },
                    },
                ),
            ),
        },
    }
}

/// Why a render pass descriptor is refused, if it is, in the order the
/// descriptor is read.
pub open spec fn render_pass_error(descriptor: Value) -> Option<CommandError> {
    match array_field(descriptor, "colorAttachments"@) {
        None => Some(CommandError::AttachmentsNotArray),
        Some(colors) => if exists|k: int|
            0 <= k < colors.len() && (#[trigger] u64_field(colors[k], "view"@)) is None {
            Some(CommandError::NoAttachmentView)
        } else if present_field(descriptor, "depthStencilAttachment"@) matches Some(d) && u64_field(
            d,
            "view"@,
        ) is None {
            Some(CommandError::NoAttachmentView)
        } else {
            match timestamp_writes_of(descriptor) {
                Err(e) => Some(e),
                Ok(_) => None,
            }
        },
    }
}

/// `p` is the render pass, with no commands yet, that `descriptor`
/// describes (given it is not refused).
pub open spec fn render_pass_of(descriptor: Value, p: RenderPassState) -> bool {
    let colors = array_field(descriptor, "colorAttachments"@)->0;
    &&& p.colors@.len() == colors.len()
    &&& forall|k: int| 0 <= k < colors.len() ==> color_attachment_of(colors[k], #[trigger] p.colors@[k])
    &&& match present_field(descriptor, "depthStencilAttachment"@) {
        Some(d) => p.depth_stencil matches Some(a) && depth_attachment_of(d, a),
        None => p.depth_stencil is None,
    }
    &&& p.occlusion_query_set == match present_field(descriptor, "occlusionQuerySet"@) {
        Some(q) => as_u64(q),
        None => None,
    }
    &&& Ok::<Option<TimestampWrites>, CommandError>(p.timestamp_writes) == timestamp_writes_of(
        descriptor,
    )
    &&& p.commands@.len() == 0
}

/// A clone of field `key` of `v`, if present.
fn field_clone(v: &Value, key: &str) -> (r: Option<Value>)
    ensures
        r == field(*v, key@),
{
    match json_field(v, key) {
        Some(f) => Some(json_clone(f)),
        None => None,
    }
}

/// Reads the timestamp writes of a pass descriptor.
pub fn timestamp_writes_descriptor(descriptor: &Value) -> (r: Result<Option<TimestampWrites>, CommandError>)
    ensures
        r == timestamp_writes_of(*descriptor),
{
    let t = match field_present(descriptor, "timestampWrites") {
        Some(t) => t,
        None => return Ok(None),
    };
    let query_set = match field_u64(t, "querySet") {
        Some(q) => q,
        None => return Err(CommandError::NoTimestampQuerySet),
    };
    let beginning_of_pass_write_index = match field_u64(t, "beginningOfPassWriteIndex") {
        Some(n) => Some(n as u32),
        None => None,
    };
    let end_of_pass_write_index = match field_u64(t, "endOfPassWriteIndex") {
        Some(n) => Some(n as u32),
        None => None,
    };
    Ok(Some(TimestampWrites { query_set, beginning_of_pass_write_index, end_of_pass_write_index }))
}

/// Reads one color attachment.
fn color_attachment(a: &Value) -> (r: Result<ColorAttachment, CommandError>)
    ensures
        u64_field(*a, "view"@) is None ==> r == Err::<ColorAttachment, CommandError>(
            CommandError::NoAttachmentView,
        ),
        u64_field(*a, "view"@) is Some ==> (r matches Ok(c) && color_attachment_of(*a, c)),
{
    let view = match field_u64(a, "view") {
        Some(v) => v,
        None => return Err(CommandError::NoAttachmentView),
    };
    Ok(
        ColorAttachment {
            view,
            resolve_target: field_u64(a, "resolveTarget"),
            load_op: field_text_or(a, "loadOp", "load"),
            store_op: field_text_or(a, "storeOp", "store"),
            clear_value: field_clone(a, "clearValue"),
        },
    )
}

/// Reads the depth-stencil attachment.
fn depth_attachment(a: &Value) -> (r: Result<DepthStencilAttachment, CommandError>)
    ensures
        u64_field(*a, "view"@) is None ==> r == Err::<DepthStencilAttachment, CommandError>(
            CommandError::NoAttachmentView,
        ),
        u64_field(*a, "view"@) is Some ==> (r matches Ok(d) && depth_attachment_of(*a, d)),
{
    let view = match field_u64(a, "view") {
        Some(v) => v,
        None => return Err(CommandError::NoAttachmentView),
    };
    Ok(
        DepthStencilAttachment {
            view,
            depth_load_op: field_text_or(a, "depthLoadOp", "load"),
            depth_store_op: field_text_or(a, "depthStoreOp", "store"),
            depth_clear_value: field_clone(a, "depthClearValue"),
        },
    )
}

/// Reads a render pass descriptor into a pass with no commands.
pub fn render_pass_descriptor(descriptor: &Value) -> (r: Result<RenderPassState, CommandError>)
    ensures
        match r {
            Ok(p) => render_pass_error(*descriptor) is None && render_pass_of(*descriptor, p),
            Err(e) => render_pass_error(*descriptor) == Some(e),
        },
{
    let items = match json_field(descriptor, "colorAttachments") {
        Some(c) => json_items(c),
        None => None,
    };
    let items = match items {
        Some(items) => items,
        None => return Err(CommandError::AttachmentsNotArray),
    };
    let mut colors: Vec<ColorAttachment> = Vec::new();
    let mut k: usize = 0;
    while k < items.len()
        invariant
            k <= items@.len(),
            colors@.len() == k,
            array_field(*descriptor, "colorAttachments"@) == Some(items@),
            forall|j: int| 0 <= j < k ==> (#[trigger] u64_field(items@[j], "view"@)) is Some,
            forall|j: int| 0 <= j < k ==> color_attachment_of(items@[j], #[trigger] colors@[j]),
        decreases items.len() - k,
    {
        let c = color_attachment(&items[k]);
        match c {
            Ok(c) => colors.push(c),
            Err(e) => {
                let ghost colors = array_field(*descriptor, "colorAttachments"@)->0;
                assert(colors == items@);
                assert(u64_field(colors[k as int], "view"@) is None);
                assert(e == CommandError::NoAttachmentView);
                return Err(e);
            },
        }
        k = k + 1;
    }
    let depth_stencil = match field_present(descriptor, "depthStencilAttachment") {
        Some(d) => match depth_attachment(d) {
            Ok(a) => Some(a),
            Err(e) => return Err(e),
        },
        None => None,
    };
    let occlusion_query_set = match field_present(descriptor, "occlusionQuerySet") {
        Some(q) => json_u64(q),
        None => None,
    };
    let timestamp_writes = timestamp_writes_descriptor(descriptor)?;
    Ok(
        RenderPassState {
            colors,
            depth_stencil,
            occlusion_query_set,
            timestamp_writes,
            commands: Vec::new(),
        },
    )
}

/// The depth-stencil format of a render bundle and which aspects it only
/// reads.
#[derive(Debug)]
pub struct BundleDepthStencil {
    pub format: String,
    pub depth_read_only: bool,
    pub stencil_read_only: bool,
}

/// A render bundle encoder: the target formats its bundle is made for and
/// the commands recorded on it. Formats stay names; the host maps them to
/// its texture formats when it encodes the bundle.
#[derive(Debug)]
pub struct BundleEncoderState {
    pub color_formats: Vec<Option<String>>,
    pub depth_stencil: Option<BundleDepthStencil>,
    pub sample_count: u32,
    pub commands: Vec<RenderCommand>,
}

/// A color format entry: `null` or a format name.
pub open spec fn is_format_entry(v: Value) -> bool {
    json_shape(v) is Null || json_shape(v) is Text
}

/// The `sampleCount` of a render bundle descriptor, one when left out.
pub open spec fn sample_count_of(descriptor: Value) -> u32 {
    match u64_field(descriptor, "sampleCount"@) {
        Some(n) => n as u32,
        None => 1,
    }
}

/// Why a render bundle encoder descriptor is refused, if it is.
pub open spec fn bundle_encoder_error(descriptor: Value) -> Option<CommandError> {
    match array_field(descriptor, "colorFormats"@) {
        None => Some(CommandError::ColorFormatsNotArray),
        Some(formats) => if exists|k: int|
            0 <= k < formats.len() && !is_format_entry(#[trigger] formats[k]) {
            Some(CommandError::ColorFormatNotString)
        } else if sample_count_of(descriptor) == 0 {
            Some(CommandError::ZeroSampleCount)
        } else {
            None
        },
    }
}

/// `b` is the render bundle encoder, with no commands yet, that
/// `descriptor` describes (given it is not refused).
pub open spec fn bundle_encoder_of(descriptor: Value, b: BundleEncoderState) -> bool {
    let formats = array_field(descriptor, "colorFormats"@)->0;
    &&& b.color_formats@.len() == formats.len()
    &&& forall|k: int|
        0 <= k < formats.len() ==> match json_shape(formats[k]) {
            JsonShape::Text(t) => (#[trigger] b.color_formats@[k]) matches Some(f) && f@ == t,
            _ => b.color_formats@[k] is None,
        }
    &&& match present_field(descriptor, "depthStencilFormat"@) {
        Some(f) => match json_shape(f) {
            JsonShape::Text(t) => b.depth_stencil matches Some(d) && d.format@ == t
                && d.depth_read_only == flag_field(descriptor, "depthReadOnly"@)
                && d.stencil_read_only == flag_field(descriptor, "stencilReadOnly"@),
            _ => b.depth_stencil is None,
        },
        None => b.depth_stencil is None,
    }
    &&& b.sample_count == sample_count_of(descriptor)
    &&& b.commands@.len() == 0
}

/// Reads a render bundle encoder descriptor into an encoder with no
/// commands.
pub fn bundle_encoder_descriptor(descriptor: &Value) -> (r: Result<BundleEncoderState, CommandError>)
    ensures
        match r {
            Ok(b) => bundle_encoder_error(*descriptor) is None && bundle_encoder_of(*descriptor, b),
            Err(e) => bundle_encoder_error(*descriptor) == Some(e),
        },
{
    let items = match json_field(descriptor, "colorFormats") {
        Some(c) => json_items(c),
        None => None,
    };
    let items = match items {
        Some(items) => items,
        None => return Err(CommandError::ColorFormatsNotArray),
    };
    let ghost formats = items@;
    let mut color_formats: Vec<Option<String>> = Vec::new();
    let mut k: usize = 0;
    while k < items.len()
        invariant
            k <= items@.len(),
            formats == items@,
            color_formats@.len() == k,
            array_field(*descriptor, "colorFormats"@) == Some(items@),
            forall|j: int| 0 <= j < k ==> is_format_entry(#[trigger] formats[j]),
            forall|j: int|
                0 <= j < k ==> match json_shape(formats[j]) {
                    JsonShape::Text(t) => (#[trigger] color_formats@[j]) matches Some(f) && f@ == t,
                    _ => color_formats@[j] is None,
                },
        decreases items.len() - k,
    {
        if json_is_null(&items[k]) {
            color_formats.push(None);
        } else {
            match json_str(&items[k]) {
                Some(name) => color_formats.push(Some(name.to_string())),
                None => {
                    let ghost listed = array_field(*descriptor, "colorFormats"@)->0;
                    assert(listed == formats);
                    assert(!is_format_entry(listed[k as int]));
                    return Err(CommandError::ColorFormatNotString);
                },
            }
        }
        k = k + 1;
    }
    let depth_stencil = match field_present(descriptor, "depthStencilFormat") {
        Some(f) => match json_str(f) {
            Some(name) => Some(
                BundleDepthStencil {
                    format: name.to_string(),
                    depth_read_only: field_flag(descriptor, "depthReadOnly"),
                    stencil_read_only: field_flag(descriptor, "stencilReadOnly"),
                },
            ),
            None => None,
        },
        None => None,
    };
    let sample_count = match field_u64(descriptor, "sampleCount") {
        Some(n) => n as u32,
        None => 1,
    };
    if sample_count == 0 {
        return Err(CommandError::ZeroSampleCount);
    }
    Ok(BundleEncoderState { color_formats, depth_stencil, sample_count, commands: Vec::new() })
}

// ---------------------------------------------------------------------
// The recorder
// ---------------------------------------------------------------------

/// A command recorded on a command encoder: a finished pass or a command
/// outside passes.
#[derive(Debug)]
pub enum RecordedCommand {
    RenderPass(RenderPassState),
    ComputePass(ComputePassState),
    Encoder(EncoderCommand),
}

/// A pass that was begun and not yet ended, with the encoder it belongs to.
#[derive(Debug)]
pub enum OpenPass {
    Render { encoder: u64, state: RenderPassState },
    Compute { encoder: u64, state: ComputePassState },
}

/// The encoder a pass belongs to.
pub open spec fn pass_encoder(p: OpenPass) -> u64 {
    match p {
        OpenPass::Render { encoder, .. } => encoder,
        OpenPass::Compute { encoder, .. } => encoder,
    }
}

/// What an encoder records when the pass ends.
pub open spec fn ended_pass(p: OpenPass) -> RecordedCommand {
    match p {
        OpenPass::Render { state, .. } => RecordedCommand::RenderPass(state),
        OpenPass::Compute { state, .. } => RecordedCommand::ComputePass(state),
    }
}

/// `after` is the render pass `before` with one more command, `c`.
pub open spec fn render_appended(before: OpenPass, after: OpenPass, c: RenderCommand) -> bool {
    &&& before matches OpenPass::Render { encoder: e0, state: s0 }
    &&& after matches OpenPass::Render { encoder: e1, state: s1 }
    &&& e0 == e1
    &&& s1.colors == s0.colors
    &&& s1.depth_stencil == s0.depth_stencil
    &&& s1.occlusion_query_set == s0.occlusion_query_set
    &&& s1.timestamp_writes == s0.timestamp_writes
    &&& s1.commands@ == s0.commands@.push(c)
}

/// `after` is the compute pass `before` with one more command, `c`.
pub open spec fn compute_appended(before: OpenPass, after: OpenPass, c: ComputeCommand) -> bool {
    &&& before matches OpenPass::Compute { encoder: e0, state: s0 }
    &&& after matches OpenPass::Compute { encoder: e1, state: s1 }
    &&& e0 == e1
    &&& s1.timestamp_writes == s0.timestamp_writes
    &&& s1.commands@ == s0.commands@.push(c)
}

/// `after` is `before` with the decoded pass command `c` recorded: a
/// pipeline goes to a pass of its kind, a bind group to either kind.
pub open spec fn pass_command_recorded(
    before: OpenPass,
    after: OpenPass,
    c: PassCommand,
    render_pipelines: Set<u64>,
    compute_pipelines: Set<u64>,
) -> bool {
    match c {
        PassCommand::Render(rc) => render_appended(before, after, rc),
        PassCommand::Compute(cc) => compute_appended(before, after, cc),
        PassCommand::SetPipeline(id) => if render_pipelines.contains(id) {
            render_appended(before, after, RenderCommand::SetPipeline(id))
        } else {
            compute_pipelines.contains(id) && compute_appended(
                before,
                after,
                ComputeCommand::SetPipeline(id),
            )
        },
        PassCommand::SetBindGroup { index, bind_group, dynamic_offsets } => match before {
            OpenPass::Render { .. } => render_appended(
                before,
                after,
                RenderCommand::SetBindGroup { index, bind_group, dynamic_offsets },
            ),
            OpenPass::Compute { .. } => compute_appended(
                before,
                after,
                ComputeCommand::SetBindGroup { index, bind_group, dynamic_offsets },
            ),
        },
    }
}

/// Which pass kind an operation's command needs, as the decoder sorts them.
pub enum PassKind {
    /// A pipeline or bind group: the pipeline or the pass decides.
    Either,
    Render,
    Compute,
}

/// The pass kind a decoded command of `op` needs.
pub open spec fn operation_kind(op: Seq<char>) -> PassKind {
    if op == "setPipeline"@ || op == "setBindGroup"@ {
        PassKind::Either
    } else if op == "setVertexBuffer"@ || op == "setIndexBuffer"@ || op == "setViewport"@ || op
        == "setScissorRect"@ || op == "setBlendConstant"@ || op == "setStencilReference"@ || op
        == "draw"@ || op == "drawIndexed"@ || op == "drawIndirect"@ || op == "drawIndexedIndirect"@
        || op == "beginOcclusionQuery"@ || op == "endOcclusionQuery"@ || op == "executeBundles"@ {
        PassKind::Render
    } else {
        PassKind::Compute
    }
}

/// Why a command for a pass of this kind cannot go to pass `id`.
pub open spec fn pass_target_error(passes: Map<u64, OpenPass>, id: u64, render: bool) -> Option<
    CommandError,
> {
    if !passes.contains_key(id) {
        Some(CommandError::UnknownPass(id))
    } else if render && passes[id] is Compute {
        Some(CommandError::NotRenderPass(id))
    } else if !render && passes[id] is Render {
        Some(CommandError::NotComputePass(id))
    } else {
        None
    }
}

/// Why a decoded pass command of `op` cannot be recorded on pass `id`.
pub open spec fn routing_error(
    op: Seq<char>,
    payload: Value,
    passes: Map<u64, OpenPass>,
    render_pipelines: Set<u64>,
    compute_pipelines: Set<u64>,
    id: u64,
) -> Option<CommandError> {
    match operation_kind(op) {
        PassKind::Either => if op == "setPipeline"@ {
            let pipeline = u64_at(array_items(payload)->0, 0)->0;
            if render_pipelines.contains(pipeline) {
                pass_target_error(passes, id, true)
            } else if compute_pipelines.contains(pipeline) {
                pass_target_error(passes, id, false)
            } else {
                Some(CommandError::UnknownPipeline(pipeline))
            }
        } else if !passes.contains_key(id) {
            Some(CommandError::UnknownPass(id))
        } else {
            None
        },
        PassKind::Render => pass_target_error(passes, id, true),
        PassKind::Compute => pass_target_error(passes, id, false),
    }
}

/// The handles and recorded state of the WebGPU objects scripts create:
/// command encoders with their commands, open passes, render bundle
/// encoders, and which handles are render or compute pipelines. Handles
/// count up from 1 and are never reused. The GPU objects themselves are
/// the host's, kept under the same handles.
pub struct CommandRecorder {
    next_id: u64,
    encoders: HashMap<u64, Vec<RecordedCommand>>,
    passes: HashMap<u64, OpenPass>,
    render_pipelines: HashSet<u64>,
    compute_pipelines: HashSet<u64>,
    bundle_encoders: HashMap<u64, BundleEncoderState>,
}

impl CommandRecorder {
    /// The handle the next allocation returns.
    pub closed spec fn next_id(&self) -> u64 {
        self.next_id
    }

    /// The commands recorded on each command encoder.
    pub closed spec fn encoders(&self) -> Map<u64, Seq<RecordedCommand>> {
        self.encoders@.map_values(|commands: Vec<RecordedCommand>| commands@)
    }

    /// The open passes.
    pub closed spec fn passes(&self) -> Map<u64, OpenPass> {
        self.passes@
    }

    /// The render pipeline handles.
    pub closed spec fn render_pipelines(&self) -> Set<u64> {
        self.render_pipelines@
    }

    /// The compute pipeline handles.
    pub closed spec fn compute_pipelines(&self) -> Set<u64> {
        self.compute_pipelines@
    }

    /// The open render bundle encoders.
    pub closed spec fn bundle_encoders(&self) -> Map<u64, BundleEncoderState> {
        self.bundle_encoders@
    }

    /// Every open pass belongs to a live encoder, and every handle in use
    /// was given out before `next_id`.
    pub closed spec fn wf(&self) -> bool {
        &&& forall|p: u64| #[trigger]
            self.passes@.contains_key(p) ==> p < self.next_id && self.encoders@.contains_key(
                pass_encoder(self.passes@[p]),
            )
        &&& forall|e: u64| #[trigger] self.encoders@.contains_key(e) ==> e < self.next_id
        &&& forall|b: u64| #[trigger] self.bundle_encoders@.contains_key(b) ==> b < self.next_id
        &&& forall|q: u64| #[trigger] self.render_pipelines@.contains(q) ==> q < self.next_id
        &&& forall|q: u64| #[trigger] self.compute_pipelines@.contains(q) ==> q < self.next_id
    }

    /// A recorder with nothing recorded; the first handle is 1.
    pub fn new() -> (r: Self)
        ensures
            r.wf(),
            r.next_id() == 1,
            r.encoders() == Map::<u64, Seq<RecordedCommand>>::empty(),
            r.passes() == Map::<u64, OpenPass>::empty(),
            r.render_pipelines() == Set::<u64>::empty(),
            r.compute_pipelines() == Set::<u64>::empty(),
            r.bundle_encoders() == Map::<u64, BundleEncoderState>::empty(),
    {
        let r = CommandRecorder {
            next_id: 1,
            encoders: HashMap::new(),
            passes: HashMap::new(),
            render_pipelines: HashSet::new(),
            compute_pipelines: HashSet::new(),
            bundle_encoders: HashMap::new(),
        };
        assert(r.encoders() =~= Map::<u64, Seq<RecordedCommand>>::empty());
        r
    }

    /// Gives out the next handle; refused, with nothing changed, once the
    /// counter cannot move past it.
    pub fn allocate_id(&mut self) -> (r: Result<u64, CommandError>)
        requires
            old(self).wf(),
        ensures
            final(self).wf(),
            old(self).next_id() < u64::MAX ==> r == Ok::<u64, CommandError>(old(self).next_id())
                && final(self).next_id() == old(self).next_id() + 1,
            old(self).next_id() == u64::MAX ==> r == Err::<u64, CommandError>(
                CommandError::IdsExhausted,
            ) && final(self).next_id() == old(self).next_id(),
            final(self).encoders() == old(self).encoders(),
            final(self).passes() == old(self).passes(),
            final(self).render_pipelines() == old(self).render_pipelines(),
            final(self).compute_pipelines() == old(self).compute_pipelines(),
            final(self).bundle_encoders() == old(self).bundle_encoders(),
    {
        let id = self.next_id;
        match self.next_id.checked_add(1) {
            Some(next) => {
                self.next_id = next;
                Ok(id)
            },
            None => Err(CommandError::IdsExhausted),
        }
    }

    /// Creates a command encoder with no commands under a new handle.
    pub fn create_command_encoder(&mut self) -> (r: Result<u64, CommandError>)
        requires
            old(self).wf(),
        ensures
            final(self).wf(),
            r matches Ok(id) ==> id == old(self).next_id() && !old(self).encoders().contains_key(id)
                && final(self).encoders() == old(self).encoders().insert(id, Seq::empty()),
            r is Err ==> r == Err::<u64, CommandError>(CommandError::IdsExhausted) && old(self).next_id() == u64::MAX && final(self).encoders() == old(self).encoders(),
            r is Ok <==> old(self).next_id() < u64::MAX,
            final(self).passes() == old(self).passes(),
            final(self).render_pipelines() == old(self).render_pipelines(),
            final(self).compute_pipelines() == old(self).compute_pipelines(),
            final(self).bundle_encoders() == old(self).bundle_encoders(),
    {
        let id = self.allocate_id()?;
        self.encoders.insert(id, Vec::new());
        proof {
            assert(self.encoders() =~= old(self).encoders().insert(id, Seq::empty()));
        }
        Ok(id)
    }

    /// Records that a new handle is a render pipeline.
    pub fn register_render_pipeline(&mut self) -> (r: Result<u64, CommandError>)
        requires
            old(self).wf(),
        ensures
            final(self).wf(),
            r matches Ok(id) ==> id == old(self).next_id() && final(self).render_pipelines()
                == old(self).render_pipelines().insert(id),
            r is Err ==> r == Err::<u64, CommandError>(CommandError::IdsExhausted) && final(self).render_pipelines() == old(self).render_pipelines(),
            r is Ok <==> old(self).next_id() < u64::MAX,
            final(self).encoders() == old(self).encoders(),
            final(self).passes() == old(self).passes(),
            final(self).compute_pipelines() == old(self).compute_pipelines(),
            final(self).bundle_encoders() == old(self).bundle_encoders(),
    {
        let id = self.allocate_id()?;
        self.render_pipelines.insert(id);
        Ok(id)
    }

    /// Records that a new handle is a compute pipeline.
    pub fn register_compute_pipeline(&mut self) -> (r: Result<u64, CommandError>)
        requires
            old(self).wf(),
        ensures
            final(self).wf(),
            r matches Ok(id) ==> id == old(self).next_id() && final(self).compute_pipelines()
                == old(self).compute_pipelines().insert(id),
            r is Err ==> r == Err::<u64, CommandError>(CommandError::IdsExhausted) && final(self).compute_pipelines() == old(self).compute_pipelines(),
            r is Ok <==> old(self).next_id() < u64::MAX,
            final(self).encoders() == old(self).encoders(),
            final(self).passes() == old(self).passes(),
            final(self).render_pipelines() == old(self).render_pipelines(),
            final(self).bundle_encoders() == old(self).bundle_encoders(),
    {
        let id = self.allocate_id()?;
        self.compute_pipelines.insert(id);
        Ok(id)
    }
}

/// The descriptor asks for timestamp writes.
pub open spec fn asks_timestamps(descriptor: Value) -> bool {
    match timestamp_writes_of(descriptor) {
        Ok(Some(_)) => true,
        _ => false,
    }
}

impl CommandRecorder {
    /// Begins a render pass on an encoder. Refused, in this order, for a
    /// descriptor that cannot be read, for timestamp writes the device cannot
    /// make inside passes, when handles are exhausted, and for an unknown
    /// encoder (the new handle is then spent).
    pub fn begin_render_pass(
        &mut self,
        encoder_id: u64,
        descriptor: &Value,
        timestamps_inside_passes: bool,
    ) -> (r: Result<u64, CommandError>)
        requires
            old(self).wf(),
        ensures
            final(self).wf(),
            final(self).encoders() == old(self).encoders(),
            final(self).render_pipelines() == old(self).render_pipelines(),
            final(self).compute_pipelines() == old(self).compute_pipelines(),
            final(self).bundle_encoders() == old(self).bundle_encoders(),
            render_pass_error(*descriptor) matches Some(e) ==> r == Err::<u64, CommandError>(e)
                && final(self).next_id() == old(self).next_id() && final(self).passes() == old(self).passes(),
            render_pass_error(*descriptor) is None && asks_timestamps(*descriptor)
                && !timestamps_inside_passes ==> r == Err::<u64, CommandError>(
                CommandError::TimestampsUnsupported,
            ) && final(self).next_id() == old(self).next_id() && final(self).passes() == old(self).passes(),
            r is Ok ==> render_pass_error(*descriptor) is None && (timestamps_inside_passes
                || timestamp_writes_of(*descriptor) == Ok::<Option<TimestampWrites>, CommandError>(
                None,
            )),
            r == Err::<u64, CommandError>(CommandError::IdsExhausted) ==> final(self).next_id() == old(self).next_id() && final(self).passes() == old(self).passes(),
            r == Err::<u64, CommandError>(CommandError::UnknownEncoder(encoder_id)) ==> final(self).passes() == old(self).passes(),
            render_pass_error(*descriptor) is None && (timestamps_inside_passes
                || timestamp_writes_of(*descriptor) == Ok::<Option<TimestampWrites>, CommandError>(
                None,
            )) ==> {
                &&& old(self).next_id() == u64::MAX ==> r == Err::<u64, CommandError>(
                    CommandError::IdsExhausted,
                )
                &&& old(self).next_id() < u64::MAX ==> final(self).next_id() == old(self).next_id()
                    + 1
                &&& old(self).next_id() < u64::MAX && !old(self).encoders().contains_key(
                    encoder_id,
                ) ==> r == Err::<u64, CommandError>(CommandError::UnknownEncoder(encoder_id))
                &&& old(self).next_id() < u64::MAX && old(self).encoders().contains_key(encoder_id)
                    ==> r == Ok::<u64, CommandError>(old(self).next_id())
            },
            r matches Ok(id) ==> !old(self).passes().contains_key(id) && final(self).passes()
                == old(self).passes().insert(id, final(self).passes()[id]) && (final(self).passes()[id] matches OpenPass::Render { encoder, state } && encoder == encoder_id
                && render_pass_of(*descriptor, state)),
    {
        let state = render_pass_descriptor(descriptor)?;
        if state.timestamp_writes.is_some() && !timestamps_inside_passes {
            return Err(CommandError::TimestampsUnsupported);
        }
        let id = self.allocate_id()?;
        if !self.encoders.contains_key(&encoder_id) {
            return Err(CommandError::UnknownEncoder(encoder_id));
        }
        self.passes.insert(id, OpenPass::Render { encoder: encoder_id, state });
        Ok(id)
    }

    /// Begins a compute pass on an encoder; refused as `begin_render_pass`
    /// refuses.
    pub fn begin_compute_pass(
        &mut self,
        encoder_id: u64,
        descriptor: &Value,
        timestamps_inside_passes: bool,
    ) -> (r: Result<u64, CommandError>)
        requires
            old(self).wf(),
        ensures
            final(self).wf(),
            final(self).encoders() == old(self).encoders(),
            final(self).render_pipelines() == old(self).render_pipelines(),
            final(self).compute_pipelines() == old(self).compute_pipelines(),
            final(self).bundle_encoders() == old(self).bundle_encoders(),
            timestamp_writes_of(*descriptor) matches Err(e) ==> r == Err::<u64, CommandError>(e)
                && final(self).next_id() == old(self).next_id() && final(self).passes() == old(self).passes(),
            asks_timestamps(*descriptor) && !timestamps_inside_passes ==> r
                == Err::<u64, CommandError>(CommandError::TimestampsUnsupported) && final(self).next_id() == old(self).next_id() && final(self).passes() == old(self).passes(),
            r == Err::<u64, CommandError>(CommandError::IdsExhausted) ==> final(self).next_id() == old(self).next_id() && final(self).passes() == old(self).passes(),
            r == Err::<u64, CommandError>(CommandError::UnknownEncoder(encoder_id)) ==> final(self).passes() == old(self).passes(),
            timestamp_writes_of(*descriptor) matches Ok(t) && (timestamps_inside_passes || t is None)
                ==> {
                &&& old(self).next_id() == u64::MAX ==> r == Err::<u64, CommandError>(
                    CommandError::IdsExhausted,
                )
                &&& old(self).next_id() < u64::MAX ==> final(self).next_id() == old(self).next_id()
                    + 1
                &&& old(self).next_id() < u64::MAX && !old(self).encoders().contains_key(
                    encoder_id,
                ) ==> r == Err::<u64, CommandError>(CommandError::UnknownEncoder(encoder_id))
                &&& old(self).next_id() < u64::MAX && old(self).encoders().contains_key(encoder_id)
                    ==> r == Ok::<u64, CommandError>(old(self).next_id())
            },
            r matches Ok(id) ==> !old(self).passes().contains_key(id) && final(self).passes()
                == old(self).passes().insert(id, final(self).passes()[id]) && (final(self).passes()[id] matches OpenPass::Compute { encoder, state } && encoder == encoder_id
                && Ok::<Option<TimestampWrites>, CommandError>(state.timestamp_writes)
                == timestamp_writes_of(*descriptor) && state.commands@.len() == 0),
    {
        let timestamp_writes = timestamp_writes_descriptor(descriptor)?;
        if timestamp_writes.is_some() && !timestamps_inside_passes {
            return Err(CommandError::TimestampsUnsupported);
        }
        let id = self.allocate_id()?;
        if !self.encoders.contains_key(&encoder_id) {
            return Err(CommandError::UnknownEncoder(encoder_id));
        }
        self.passes.insert(
            id,
            OpenPass::Compute {
                encoder: encoder_id,
                state: ComputePassState { timestamp_writes, commands: Vec::new() },
            },
        );
        Ok(id)
    }

    /// Ends an open pass: it is no longer open, and its encoder records it
    /// after the encoder's earlier commands.
    pub fn end_pass(&mut self, pass_id: u64) -> (r: Result<(), CommandError>)
        requires
            old(self).wf(),
        ensures
            final(self).wf(),
            final(self).next_id() == old(self).next_id(),
            final(self).render_pipelines() == old(self).render_pipelines(),
            final(self).compute_pipelines() == old(self).compute_pipelines(),
            final(self).bundle_encoders() == old(self).bundle_encoders(),
            r is Ok <==> old(self).passes().contains_key(pass_id),
            r is Err ==> r == Err::<(), CommandError>(CommandError::UnknownPass(pass_id)) && final(self).passes() == old(self).passes() && final(self).encoders() == old(self).encoders(),
            r is Ok ==> {
                let pass = old(self).passes()[pass_id];
                let encoder = pass_encoder(pass);
                &&& final(self).passes() == old(self).passes().remove(pass_id)
                &&& final(self).encoders() == old(self).encoders().insert(
                    encoder,
                    old(self).encoders()[encoder].push(ended_pass(pass)),
                )
            },
    {
        let pass = match self.passes.remove(&pass_id) {
            Some(pass) => pass,
            None => return Err(CommandError::UnknownPass(pass_id)),
        };
        let ghost gpass = pass;
        let (encoder_id, command) = match pass {
            OpenPass::Render { encoder, state } => (encoder, RecordedCommand::RenderPass(state)),
            OpenPass::Compute { encoder, state } => (encoder, RecordedCommand::ComputePass(state)),
        };
        assert(encoder_id == pass_encoder(gpass) && command == ended_pass(gpass));
        let mut commands = match self.encoders.remove(&encoder_id) {
            Some(commands) => commands,
            None => {
                assert(false);
                return Err(CommandError::UnknownEncoder(encoder_id));
            },
        };
        commands.push(command);
        self.encoders.insert(encoder_id, commands);
        proof {
            assert(self.encoders() =~= old(self).encoders().insert(
                encoder_id,
                old(self).encoders()[encoder_id].push(ended_pass(gpass)),
            ));
            assert forall|p: u64| #[trigger] self.passes@.contains_key(p) implies p < self.next_id
                && self.encoders@.contains_key(pass_encoder(self.passes@[p])) by {
                assert(old(self).passes@.contains_key(p));
            }
        }
        Ok(())
    }
}

impl CommandRecorder {
    /// Decodes an encoder command and records it on the encoder, after its
    /// earlier commands; refused for a payload that cannot be decoded, then
    /// for an unknown encoder.
    pub fn record_encoder_command(&mut self, encoder_id: u64, operation: &str, payload: &Value) -> (r:
        Result<(), CommandError>)
        requires
            old(self).wf(),
        ensures
            final(self).wf(),
            final(self).next_id() == old(self).next_id(),
            final(self).passes() == old(self).passes(),
            final(self).render_pipelines() == old(self).render_pipelines(),
            final(self).compute_pipelines() == old(self).compute_pipelines(),
            final(self).bundle_encoders() == old(self).bundle_encoders(),
            match encoder_command_of(operation@, *payload) {
                Err(e) => r == Err::<(), CommandError>(e) && final(self).encoders() == old(self).encoders(),
                Ok(c) => if old(self).encoders().contains_key(encoder_id) {
                    r is Ok && final(self).encoders() == old(self).encoders().insert(
                        encoder_id,
                        old(self).encoders()[encoder_id].push(RecordedCommand::Encoder(c)),
                    )
                } else {
                    r == Err::<(), CommandError>(CommandError::UnknownEncoder(encoder_id)) && final(self).encoders() == old(self).encoders()
                },
            },
    {
        let command = decode_encoder_command(operation, payload)?;
        let mut commands = match self.encoders.remove(&encoder_id) {
            Some(commands) => commands,
            None => return Err(CommandError::UnknownEncoder(encoder_id)),
        };
        commands.push(RecordedCommand::Encoder(command));
        self.encoders.insert(encoder_id, commands);
        proof {
            assert(self.encoders() =~= old(self).encoders().insert(
                encoder_id,
                old(self).encoders()[encoder_id].push(
                    RecordedCommand::Encoder(encoder_command_of(operation@, *payload)->Ok_0),
                ),
            ));
        }
        Ok(())
    }

    /// Records a render command on an open render pass.
    fn push_render_command(&mut self, pass_id: u64, command: RenderCommand) -> (r: Result<(), CommandError>)
        requires
            old(self).wf(),
        ensures
            final(self).wf(),
            final(self).next_id() == old(self).next_id(),
            final(self).encoders() == old(self).encoders(),
            final(self).render_pipelines() == old(self).render_pipelines(),
            final(self).compute_pipelines() == old(self).compute_pipelines(),
            final(self).bundle_encoders() == old(self).bundle_encoders(),
            match pass_target_error(old(self).passes(), pass_id, true) {
                Some(e) => r == Err::<(), CommandError>(e) && final(self).passes() == old(self).passes(),
                None => r is Ok && final(self).passes() == old(self).passes().insert(
                    pass_id,
                    final(self).passes()[pass_id],
                ) && render_appended(old(self).passes()[pass_id], final(self).passes()[pass_id], command),
            },
    {
        let pass = match self.passes.remove(&pass_id) {
            Some(pass) => pass,
            None => return Err(CommandError::UnknownPass(pass_id)),
        };
        match pass {
            OpenPass::Render { encoder, mut state } => {
                state.commands.push(command);
                self.passes.insert(pass_id, OpenPass::Render { encoder, state });
                proof {
                    assert(self.passes@ =~= old(self).passes@.insert(pass_id, self.passes@[pass_id]));
                }
                Ok(())
            },
            OpenPass::Compute { encoder, state } => {
                self.passes.insert(pass_id, OpenPass::Compute { encoder, state });
                proof {
                    assert(self.passes@ =~= old(self).passes@);
                }
                Err(CommandError::NotRenderPass(pass_id))
            },
        }
    }

    /// Records a compute command on an open compute pass.
    fn push_compute_command(&mut self, pass_id: u64, command: ComputeCommand) -> (r: Result<(), CommandError>)
        requires
            old(self).wf(),
        ensures
            final(self).wf(),
            final(self).next_id() == old(self).next_id(),
            final(self).encoders() == old(self).encoders(),
            final(self).render_pipelines() == old(self).render_pipelines(),
            final(self).compute_pipelines() == old(self).compute_pipelines(),
            final(self).bundle_encoders() == old(self).bundle_encoders(),
            match pass_target_error(old(self).passes(), pass_id, false) {
                Some(e) => r == Err::<(), CommandError>(e) && final(self).passes() == old(self).passes(),
                None => r is Ok && final(self).passes() == old(self).passes().insert(
                    pass_id,
                    final(self).passes()[pass_id],
                ) && compute_appended(old(self).passes()[pass_id], final(self).passes()[pass_id], command),
            },
    {
        let pass = match self.passes.remove(&pass_id) {
            Some(pass) => pass,
            None => return Err(CommandError::UnknownPass(pass_id)),
        };
        match pass {
            OpenPass::Compute { encoder, mut state } => {
                state.commands.push(command);
                self.passes.insert(pass_id, OpenPass::Compute { encoder, state });
                proof {
                    assert(self.passes@ =~= old(self).passes@.insert(pass_id, self.passes@[pass_id]));
                }
                Ok(())
            },
            OpenPass::Render { encoder, state } => {
                self.passes.insert(pass_id, OpenPass::Render { encoder, state });
                proof {
                    assert(self.passes@ =~= old(self).passes@);
                }
                Err(CommandError::NotComputePass(pass_id))
            },
        }
    }

    /// Decodes a pass command and records it on the open pass: a pipeline
    /// goes to a pass of the pipeline's kind, a bind group to a pass of
    /// either kind, any other command to a pass of its own kind. Refused for
    /// a payload that cannot be decoded, then for an unknown pipeline or a
    /// pass that is not open or not of the command's kind.
    pub fn record_pass_command(&mut self, pass_id: u64, operation: &str, payload: &Value) -> (r:
        Result<(), CommandError>)
        requires
            old(self).wf(),
        ensures
            final(self).wf(),
            final(self).next_id() == old(self).next_id(),
            final(self).encoders() == old(self).encoders(),
            final(self).render_pipelines() == old(self).render_pipelines(),
            final(self).compute_pipelines() == old(self).compute_pipelines(),
            final(self).bundle_encoders() == old(self).bundle_encoders(),
            pass_command_error(operation@, *payload) matches Some(e) ==> r == Err::<(), CommandError>(e),
            pass_command_error(operation@, *payload) is None ==> match routing_error(
                operation@,
                *payload,
                old(self).passes(),
                old(self).render_pipelines(),
                old(self).compute_pipelines(),
                pass_id,
            ) {
                Some(e) => r == Err::<(), CommandError>(e),
                None => r is Ok,
            },
            r is Err ==> final(self).passes() == old(self).passes(),
            r is Ok ==> exists|c: PassCommand|
                #![trigger pass_command_of(operation@, *payload, c)]
                pass_command_of(operation@, *payload, c) && final(self).passes() == old(self).passes().insert(pass_id, final(self).passes()[pass_id]) && pass_command_recorded(
                    old(self).passes()[pass_id],
                    final(self).passes()[pass_id],
                    c,
                    old(self).render_pipelines(),
                    old(self).compute_pipelines(),
                ),
    {
        let command = decode_pass_command(operation, payload)?;
        let ghost decoded = command;
        proof {
            lemma_pass_command_kind(operation@, *payload, decoded);
        }
        match command {
            PassCommand::SetPipeline(id) => {
                if self.render_pipelines.contains(&id) {
                    self.push_render_command(pass_id, RenderCommand::SetPipeline(id))
                } else if self.compute_pipelines.contains(&id) {
                    self.push_compute_command(pass_id, ComputeCommand::SetPipeline(id))
                } else {
                    Err(CommandError::UnknownPipeline(id))
                }
            },
            PassCommand::SetBindGroup { index, bind_group, dynamic_offsets } => {
                let is_render = match self.passes.get(&pass_id) {
                    Some(OpenPass::Render { .. }) => true,
                    Some(OpenPass::Compute { .. }) => false,
                    None => return Err(CommandError::UnknownPass(pass_id)),
                };
                if is_render {
                    self.push_render_command(
                        pass_id,
                        RenderCommand::SetBindGroup { index, bind_group, dynamic_offsets },
                    )
                } else {
                    self.push_compute_command(
                        pass_id,
                        ComputeCommand::SetBindGroup { index, bind_group, dynamic_offsets },
                    )
                }
            },
            PassCommand::Render(c) => self.push_render_command(pass_id, c),
            PassCommand::Compute(c) => self.push_compute_command(pass_id, c),
        }
    }
}

/// The decoder sorts each operation's command as `operation_kind` says.
proof fn lemma_pass_command_kind(op: Seq<char>, payload: Value, c: PassCommand)
    requires
        pass_command_of(op, payload, c),
    ensures
        c is SetPipeline ==> op == "setPipeline"@ && operation_kind(op) is Either,
        c is SetBindGroup ==> op == "setBindGroup"@ && operation_kind(op) is Either,
        c is Render ==> operation_kind(op) is Render,
        c is Compute ==> operation_kind(op) is Compute,
        c matches PassCommand::SetPipeline(id) ==> id == u64_at(array_items(payload)->0, 0)->0,
{
}

/// The encoder of a pass.
fn encoder_of(pass: &OpenPass) -> (r: u64)
    ensures
        r == pass_encoder(*pass),
{
    match pass {
        OpenPass::Render { encoder, .. } => *encoder,
        OpenPass::Compute { encoder, .. } => *encoder,
    }
}

impl CommandRecorder {
    /// Some open pass belongs to the encoder.
    pub open spec fn has_open_pass(&self, encoder_id: u64) -> bool {
        exists|p: u64| #[trigger]
            self.passes().contains_key(p) && pass_encoder(self.passes()[p]) == encoder_id
    }

    /// Whether some open pass belongs to the encoder.
    fn any_open_pass(&self, encoder_id: u64) -> (r: bool)
        ensures
            r == self.has_open_pass(encoder_id),
    {
        let ghost m = self.passes@;
        for entry in it: self.passes.iter()
            invariant
                m == self.passes@,
                it.seq() == spec_hash_map_iter(&self.passes).remaining(),
                forall|j: int| 0 <= j < it.index() ==> pass_encoder(*(#[trigger] it.seq()[j]).1) != encoder_id,
        {
            let (id, pass) = entry;
            if encoder_of(pass) == encoder_id {
                proof {
                    let k = *id;
                    assert(m.contains_key(k) && m[k] == *pass);
                    assert(self.passes().contains_key(k));
                }
                return true;
            }
        }
        proof {
            let v = spec_hash_map_iter(&self.passes).remaining();
            assert forall|p: u64| #[trigger] self.passes().contains_key(p) implies pass_encoder(
                self.passes()[p],
            ) != encoder_id by {
                assert(m.contains_key(p));
                assert(v.contains((&p, &m[p])));
                let j = choose|j: int| 0 <= j < v.len() && v[j] == (&p, &m[p]);
                assert(pass_encoder(*v[j].1) != encoder_id);
            }
        }
        false
    }

    /// Finishes a command encoder: it is gone, and its recorded commands
    /// are handed back in order for the GPU. Refused while a pass of the
    /// encoder is open, then for an unknown encoder.
    pub fn finish_command_encoder(&mut self, encoder_id: u64) -> (r: Result<Vec<RecordedCommand>, CommandError>)
        requires
            old(self).wf(),
        ensures
            final(self).wf(),
            final(self).next_id() == old(self).next_id(),
            final(self).passes() == old(self).passes(),
            final(self).render_pipelines() == old(self).render_pipelines(),
            final(self).compute_pipelines() == old(self).compute_pipelines(),
            final(self).bundle_encoders() == old(self).bundle_encoders(),
            old(self).has_open_pass(encoder_id) ==> r == Err::<Vec<RecordedCommand>, CommandError>(
                CommandError::EncoderHasOpenPass,
            ),
            !old(self).has_open_pass(encoder_id) && !old(self).encoders().contains_key(encoder_id)
                ==> r == Err::<Vec<RecordedCommand>, CommandError>(
                CommandError::UnknownEncoder(encoder_id),
            ),
            r is Err ==> final(self).encoders() == old(self).encoders(),
            !old(self).has_open_pass(encoder_id) && old(self).encoders().contains_key(encoder_id)
                ==> (r matches Ok(commands) && commands@ == old(self).encoders()[encoder_id] && final(self).encoders() == old(self).encoders().remove(encoder_id)),
    {
        if self.any_open_pass(encoder_id) {
            return Err(CommandError::EncoderHasOpenPass);
        }
        match self.encoders.remove(&encoder_id) {
            Some(commands) => {
                proof {
                    assert(self.encoders() =~= old(self).encoders().remove(encoder_id));
                    assert forall|p: u64| #[trigger] self.passes@.contains_key(p) implies p < self.next_id
                        && self.encoders@.contains_key(pass_encoder(self.passes@[p])) by {
                        assert(old(self).passes().contains_key(p));
                    }
                }
                Ok(commands)
            },
            None => Err(CommandError::UnknownEncoder(encoder_id)),
        }
    }
}

/// `after` is the render bundle encoder `before` with one more command,
/// `c`.
pub open spec fn bundle_appended(before: BundleEncoderState, after: BundleEncoderState, c: RenderCommand) -> bool {
    &&& after.color_formats == before.color_formats
    &&& after.depth_stencil == before.depth_stencil
    &&& after.sample_count == before.sample_count
    &&& after.commands@ == before.commands@.push(c)
}

impl CommandRecorder {
    /// Creates a render bundle encoder from its descriptor under a new
    /// handle; refused for a descriptor that cannot be read, then when
    /// handles are exhausted.
    pub fn create_render_bundle_encoder(&mut self, descriptor: &Value) -> (r: Result<u64, CommandError>)
        requires
            old(self).wf(),
        ensures
            final(self).wf(),
            final(self).encoders() == old(self).encoders(),
            final(self).passes() == old(self).passes(),
            final(self).render_pipelines() == old(self).render_pipelines(),
            final(self).compute_pipelines() == old(self).compute_pipelines(),
            bundle_encoder_error(*descriptor) matches Some(e) ==> r == Err::<u64, CommandError>(e),
            bundle_encoder_error(*descriptor) is None && old(self).next_id() == u64::MAX ==> r
                == Err::<u64, CommandError>(CommandError::IdsExhausted),
            bundle_encoder_error(*descriptor) is None && old(self).next_id() < u64::MAX ==> r
                == Ok::<u64, CommandError>(old(self).next_id()),
            r is Err ==> final(self).bundle_encoders() == old(self).bundle_encoders() && final(self).next_id() == old(self).next_id(),
            r matches Ok(id) ==> !old(self).bundle_encoders().contains_key(id) && final(self).bundle_encoders() == old(self).bundle_encoders().insert(
                id,
                final(self).bundle_encoders()[id],
            ) && bundle_encoder_of(*descriptor, final(self).bundle_encoders()[id]) && final(self).next_id() == old(self).next_id() + 1,
    {
        let state = bundle_encoder_descriptor(descriptor)?;
        let id = self.allocate_id()?;
        self.bundle_encoders.insert(id, state);
        Ok(id)
    }

    /// Decodes a render bundle command and records it on the bundle
    /// encoder, after its earlier commands; refused for a payload that cannot
    /// be decoded, then for an unknown bundle encoder.
    pub fn record_bundle_command(&mut self, encoder_id: u64, operation: &str, payload: &Value) -> (r:
        Result<(), CommandError>)
        requires
            old(self).wf(),
        ensures
            final(self).wf(),
            final(self).next_id() == old(self).next_id(),
            final(self).encoders() == old(self).encoders(),
            final(self).passes() == old(self).passes(),
            final(self).render_pipelines() == old(self).render_pipelines(),
            final(self).compute_pipelines() == old(self).compute_pipelines(),
            bundle_command_error(operation@, *payload) matches Some(e) ==> r == Err::<(), CommandError>(e),
            bundle_command_error(operation@, *payload) is None && !old(self).bundle_encoders().contains_key(
                encoder_id,
            ) ==> r == Err::<(), CommandError>(CommandError::UnknownBundleEncoder(encoder_id)),
            bundle_command_error(operation@, *payload) is None && old(self).bundle_encoders().contains_key(
                encoder_id,
            ) ==> r is Ok,
            r is Err ==> final(self).bundle_encoders() == old(self).bundle_encoders(),
            r is Ok ==> exists|c: RenderCommand|
                #![trigger bundle_command_of(operation@, *payload, c)]
                bundle_command_of(operation@, *payload, c) && final(self).bundle_encoders() == old(self).bundle_encoders().insert(encoder_id, final(self).bundle_encoders()[encoder_id])
                    && bundle_appended(
                    old(self).bundle_encoders()[encoder_id],
                    final(self).bundle_encoders()[encoder_id],
                    c,
                ),
    {
        let command = decode_bundle_command(operation, payload)?;
        let ghost decoded = command;
        let mut state = match self.bundle_encoders.remove(&encoder_id) {
            Some(state) => state,
            None => return Err(CommandError::UnknownBundleEncoder(encoder_id)),
        };
        state.commands.push(command);
        self.bundle_encoders.insert(encoder_id, state);
        proof {
            assert(self.bundle_encoders@ =~= old(self).bundle_encoders@.insert(
                encoder_id,
                self.bundle_encoders@[encoder_id],
            ));
            assert(bundle_command_of(operation@, *payload, decoded));
        }
        Ok(())
    }

    /// Finishes a render bundle encoder: it is gone, and its state is handed
    /// back for the GPU; refused for an unknown bundle encoder.
    pub fn finish_render_bundle_encoder(&mut self, encoder_id: u64) -> (r: Result<BundleEncoderState, CommandError>)
        requires
            old(self).wf(),
        ensures
            final(self).wf(),
            final(self).next_id() == old(self).next_id(),
            final(self).encoders() == old(self).encoders(),
            final(self).passes() == old(self).passes(),
            final(self).render_pipelines() == old(self).render_pipelines(),
            final(self).compute_pipelines() == old(self).compute_pipelines(),
            r is Ok <==> old(self).bundle_encoders().contains_key(encoder_id),
            r matches Ok(state) ==> state == old(self).bundle_encoders()[encoder_id] && final(self).bundle_encoders() == old(self).bundle_encoders().remove(encoder_id),
            r is Err ==> r == Err::<BundleEncoderState, CommandError>(
                CommandError::UnknownBundleEncoder(encoder_id),
            ) && final(self).bundle_encoders() == old(self).bundle_encoders(),
    {
        match self.bundle_encoders.remove(&encoder_id) {
            Some(state) => Ok(state),
            None => Err(CommandError::UnknownBundleEncoder(encoder_id)),
        }
    }
}

/// Handles are never reused: the handle the recorder gives out next is not
/// in use as an encoder, pass, render bundle encoder or pipeline.
pub proof fn law_next_handle_is_fresh(recorder: CommandRecorder)
    requires
        recorder.wf(),
    ensures
        !recorder.encoders().contains_key(recorder.next_id()),
        !recorder.passes().contains_key(recorder.next_id()),
        !recorder.bundle_encoders().contains_key(recorder.next_id()),
        !recorder.render_pipelines().contains(recorder.next_id()),
        !recorder.compute_pipelines().contains(recorder.next_id()),
{
}

/// Every open pass belongs to a command encoder that is still recording,
/// so ending the pass always has an encoder to record it on.
pub proof fn law_open_passes_have_encoders(recorder: CommandRecorder, pass_id: u64)
    requires
        recorder.wf(),
        recorder.passes().contains_key(pass_id),
    ensures
        recorder.encoders().contains_key(pass_encoder(recorder.passes()[pass_id])),
{
}

// ---------------------------------------------------------------------
// Surface textures written by submitted work
// ---------------------------------------------------------------------

/// The views a list of color attachments writes: each view, then its
/// resolve target if it has one.
pub open spec fn color_views(colors: Seq<ColorAttachment>) -> Seq<u64>
    decreases colors.len(),
{
    if colors.len() == 0 {
        Seq::empty()
    } else {
        let last = colors.last();
        color_views(colors.drop_last()) + match last.resolve_target {
            Some(t) => seq![last.view, t],
            None => seq![last.view],
        }
    }
}

/// The views a render pass writes: its color attachments', then its
/// depth-stencil view.
pub open spec fn pass_views(pass: RenderPassState) -> Seq<u64> {
    color_views(pass.colors@) + match pass.depth_stencil {
        Some(d) => seq![d.view],
        None => Seq::empty(),
    }
}

/// The views the render passes of a command list write, in order.
pub open spec fn written_views(commands: Seq<RecordedCommand>) -> Seq<u64>
    decreases commands.len(),
{
    if commands.len() == 0 {
        Seq::empty()
    } else {
        written_views(commands.drop_last()) + match commands.last() {
            RecordedCommand::RenderPass(pass) => pass_views(pass),
            _ => Seq::empty(),
        }
    }
}

/// The surface textures behind `views`, each once, in the order they are
/// first written: a view counts when it was made from a texture that is a
/// current surface texture.
pub open spec fn surface_textures_of(views: Seq<u64>, sources: Map<u64, u64>, surfaces: Set<u64>) -> Seq<u64>
    decreases views.len(),
{
    if views.len() == 0 {
        Seq::empty()
    } else {
        let earlier = surface_textures_of(views.drop_last(), sources, surfaces);
        let view = views.last();
        if sources.contains_key(view) && surfaces.contains(sources[view]) && !earlier.contains(
            sources[view],
        ) {
            earlier.push(sources[view])
        } else {
            earlier
        }
    }
}

/// Adds the surface texture behind `view`, if any and not yet listed.
fn collect_surface_texture_id<V>(
    view: u64,
    view_sources: &HashMap<u64, u64>,
    surface_textures: &HashMap<u64, V>,
    ids: &mut Vec<u64>,
)
    ensures
        final(ids)@ == if view_sources@.contains_key(view) && surface_textures@.contains_key(
            view_sources@[view],
        ) && !old(ids)@.contains(view_sources@[view]) {
            old(ids)@.push(view_sources@[view])
        } else {
            old(ids)@
        },
{
    if let Some(texture_id) = view_sources.get(&view) {
        if surface_textures.contains_key(texture_id) && !contains_id(ids, *texture_id) {
            ids.push(*texture_id);
        }
    }
}

/// The list holds `id`.
fn contains_id(ids: &Vec<u64>, id: u64) -> (r: bool)
    ensures
        r == ids@.contains(id),
{
    let mut k: usize = 0;
    while k < ids.len()
        invariant
            k <= ids@.len(),
            forall|j: int| 0 <= j < k ==> ids@[j] != id,
        decreases ids.len() - k,
    {
        if ids[k] == id {
            return true;
        }
        k = k + 1;
    }
    false
}

/// The surface textures a command list's render passes write, each once,
/// in the order they are first written; the host presents them once the
/// work is submitted.
pub fn collect_surface_texture_ids<V>(
    commands: &Vec<RecordedCommand>,
    view_sources: &HashMap<u64, u64>,
    surface_textures: &HashMap<u64, V>,
) -> (r: Vec<u64>)
    ensures
        r@ == surface_textures_of(
            written_views(commands@),
            view_sources@,
            surface_textures@.dom(),
        ),
{
    let ghost sources = view_sources@;
    let ghost surfaces = surface_textures@.dom();
    let mut ids: Vec<u64> = Vec::new();
    let ghost mut views: Seq<u64> = Seq::empty();
    let mut c: usize = 0;
    while c < commands.len()
        invariant
            c <= commands@.len(),
            sources == view_sources@,
            surfaces == surface_textures@.dom(),
            views == written_views(commands@.take(c as int)),
            ids@ == surface_textures_of(views, sources, surfaces),
        decreases commands.len() - c,
    {
        proof {
            assert(commands@.take(c + 1).drop_last() =~= commands@.take(c as int));
        }
        if let RecordedCommand::RenderPass(pass) = &commands[c] {
            let mut k: usize = 0;
            let ghost start = views;
            while k < pass.colors.len()
                invariant
                    k <= pass.colors@.len(),
                    sources == view_sources@,
                    surfaces == surface_textures@.dom(),
                    views == start + color_views(pass.colors@.take(k as int)),
                    ids@ == surface_textures_of(views, sources, surfaces),
                decreases pass.colors.len() - k,
            {
                proof {
                    assert(pass.colors@.take(k + 1).drop_last() =~= pass.colors@.take(k as int));
                }
                let attachment = &pass.colors[k];
                collect_surface_texture_id(attachment.view, view_sources, surface_textures, &mut ids);
                proof {
                    assert((views.push(attachment.view)).drop_last() =~= views);
                    assert(ids@ == surface_textures_of(views.push(attachment.view), sources, surfaces));
                    views = views.push(attachment.view);
                }
                if let Some(target) = attachment.resolve_target {
                    collect_surface_texture_id(target, view_sources, surface_textures, &mut ids);
                    proof {
                        assert((views.push(target)).drop_last() =~= views);
                        assert(ids@ == surface_textures_of(views.push(target), sources, surfaces));
                        views = views.push(target);
                    }
                }
                k = k + 1;
                proof {
                    assert(views =~= start + color_views(pass.colors@.take(k as int)));
                }
            }
            proof {
                assert(pass.colors@.take(pass.colors@.len() as int) =~= pass.colors@);
            }
            if let Some(depth) = &pass.depth_stencil {
                collect_surface_texture_id(depth.view, view_sources, surface_textures, &mut ids);
                proof {
                    assert((views.push(depth.view)).drop_last() =~= views);
                    assert(ids@ == surface_textures_of(views.push(depth.view), sources, surfaces));
                    views = views.push(depth.view);
                }
            }
            proof {
                assert(views =~= written_views(commands@.take(c + 1)));
            }
        } else {
            proof {
                assert(written_views(commands@.take(c + 1)) =~= views);
            }
        }
        c = c + 1;
    }
    proof {
        assert(commands@.take(commands@.len() as int) =~= commands@);
    }
    ids
}

/// The list is strictly increasing.
pub open spec fn strictly_increasing(ids: Seq<u64>) -> bool {
    forall|i: int, j: int| 0 <= i < j < ids.len() ==> ids[i] < ids[j]
}

/// The ids in increasing order, each once (the surface textures that a
/// submission presents).
pub fn sorted_unique(ids: &Vec<u64>) -> (r: Vec<u64>)
    ensures
        strictly_increasing(r@),
        r@.to_set() == ids@.to_set(),
{
    let mut out: Vec<u64> = Vec::new();
    let mut k: usize = 0;
    while k < ids.len()
        invariant
            k <= ids@.len(),
            strictly_increasing(out@),
            out@.to_set() == ids@.take(k as int).to_set(),
        decreases ids.len() - k,
    {
        let id = ids[k];
        let ghost t0 = ids@.take(k as int);
        let ghost t1 = ids@.take(k + 1);
        proof {
            assert(t1 =~= t0.push(id));
            lemma_push_to_set(t0, id);
        }
        let mut p: usize = 0;
        while p < out.len() && out[p] < id
            invariant
                p <= out@.len(),
                forall|j: int| 0 <= j < p ==> out@[j] < id,
            decreases out.len() - p,
        {
            p = p + 1;
        }
        let ghost before = out@;
        if p < out.len() && out[p] == id {
            proof {
                assert(before.to_set().contains(id)) by {
                    assert(before[p as int] == id);
                }
                assert(t1.to_set() =~= before.to_set());
            }
        } else {
            out.insert(p, id);
            proof {
                assert(out@ == before.insert(p as int, id));
                assert forall|i: int, j: int| 0 <= i < j < out@.len() implies out@[i] < out@[j] by {
                    if j < p {
                    } else if i < p && j == p {
                    } else if i < p {
                        assert(out@[j] == before[j - 1]);
                        assert(before[p as int] > id);
                    } else if i == p {
                        assert(out@[j] == before[j - 1]);
                        assert(before[p as int] > id);
                    } else {
                        assert(out@[i] == before[i - 1] && out@[j] == before[j - 1]);
                    }
                }
                lemma_insert_to_set(before, p as int, id);
                assert(out@.to_set() =~= t1.to_set());
            }
        }
        k = k + 1;
    }
    proof {
        assert(ids@.take(ids@.len() as int) =~= ids@);
    }
    out
}

/// Pushing an element adds it to the set of the sequence.
proof fn lemma_push_to_set(s: Seq<u64>, x: u64)
    ensures
        s.push(x).to_set() == s.to_set().insert(x),
{
    assert forall|y: u64| s.push(x).to_set().contains(y) <==> s.to_set().insert(x).contains(y) by {
        if s.push(x).contains(y) && y != x {
            let j = choose|j: int| 0 <= j < s.push(x).len() && s.push(x)[j] == y;
            assert(s[j] == y);
        }
        if s.contains(y) {
            let j = choose|j: int| 0 <= j < s.len() && s[j] == y;
            assert(s.push(x)[j] == y);
        }
        if y == x {
            assert(s.push(x)[s.len() as int] == x);
        }
    }
    assert(s.push(x).to_set() =~= s.to_set().insert(x));
}

/// Inserting an element adds it to the set of the sequence.
proof fn lemma_insert_to_set(s: Seq<u64>, p: int, x: u64)
    requires
        0 <= p <= s.len(),
    ensures
        s.insert(p, x).to_set() == s.to_set().insert(x),
{
    let t = s.insert(p, x);
    assert forall|y: u64| t.to_set().contains(y) <==> s.to_set().insert(x).contains(y) by {
        if t.contains(y) && y != x {
            let j = choose|j: int| 0 <= j < t.len() && t[j] == y;
            if j < p {
                assert(s[j] == y);
            } else {
                assert(j != p);
                assert(s[j - 1] == y);
            }
        }
        if s.contains(y) {
            let j = choose|j: int| 0 <= j < s.len() && s[j] == y;
            if j < p {
                assert(t[j] == y);
            } else {
                assert(t[j + 1] == y);
            }
        }
        if y == x {
            assert(t[p] == x);
        }
    }
    assert(t.to_set() =~= s.to_set().insert(x));
}

} // verus!

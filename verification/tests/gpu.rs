use hyperthree_native::gpu::{
    buffer_read_range, buffer_usage, check_buffer_size, check_texture_size, check_texture_upload,
    optional_u32, shader_stages, texture_dimension, texture_usage, texture_usage_for_dimension,
    views_of_texture, GpuError, TextureDimension, RENDER_ATTACHMENT,
};
use std::collections::HashMap;

const COPY_DST: u64 = 2;
const TEXTURE_BINDING: u64 = 4;

#[test]
fn removes_invalid_render_attachment_usage_from_non_2d_textures() {
    let usage = texture_usage_for_dimension(2 | 4 | 16, "3d");
    assert!(usage & COPY_DST != 0);
    assert!(usage & TEXTURE_BINDING != 0);
    assert!(usage & RENDER_ATTACHMENT == 0);
}

#[test]
fn two_dimensional_textures_keep_render_attachment_usage() {
    assert_eq!(texture_usage_for_dimension(2 | 16, "2d"), 2 | 16);
    assert_eq!(texture_usage_for_dimension(2 | 16, "1d"), 2);
    assert_eq!(texture_usage(0xff), 0x1f);
}

#[test]
fn usage_and_stage_bits_outside_the_native_sets_are_dropped() {
    assert_eq!(buffer_usage(0xffff), 0x3ff);
    assert_eq!(buffer_usage(1 | 8), 1 | 8);
    assert_eq!(shader_stages(0xf), 7);
}

#[test]
fn texture_dimension_names() {
    assert_eq!(texture_dimension("1d"), TextureDimension::D1);
    assert_eq!(texture_dimension("3d"), TextureDimension::D3);
    assert_eq!(texture_dimension("2d"), TextureDimension::D2);
    assert_eq!(texture_dimension("cube"), TextureDimension::D2);
}

#[test]
fn zero_counts_are_absent() {
    assert_eq!(optional_u32(0), None);
    assert_eq!(optional_u32(4), Some(4));
}

#[test]
fn buffer_reads_stay_inside_the_buffer() {
    assert_eq!(buffer_read_range(16, 32, 64), Ok((16, 48)));
    assert_eq!(buffer_read_range(0, 64, 64), Ok((0, 64)));
    assert_eq!(
        buffer_read_range(40, 32, 64),
        Err(GpuError::ReadOutOfBounds { offset: 40, end: 72, size: 64 })
    );
    assert_eq!(buffer_read_range(u64::MAX, 1, 64), Err(GpuError::ReadRangeOverflow));
    assert_eq!(check_buffer_size(0), Err(GpuError::ZeroBufferSize));
    assert_eq!(check_buffer_size(4), Ok(()));
}

#[test]
fn texture_sizes_and_uploads_are_checked() {
    assert_eq!(check_texture_size(4, 4, 1, 1, 1), Ok(()));
    assert_eq!(check_texture_size(4, 0, 1, 1, 1), Err(GpuError::ZeroTextureDimension));
    assert_eq!(check_texture_size(4, 4, 1, 0, 1), Err(GpuError::ZeroMipOrSampleCount));
    assert_eq!(check_texture_upload(64, 16, 4, 1), Ok(()));
    assert_eq!(
        check_texture_upload(63, 16, 4, 1),
        Err(GpuError::UploadTooSmall { len: 63, expected: 64 })
    );
    assert_eq!(
        check_texture_upload(100, 16, 4, 2),
        Err(GpuError::UploadTooSmall { len: 100, expected: 128 })
    );
}

#[test]
fn views_of_a_texture_are_listed_once() {
    let mut sources: HashMap<u64, u64> = HashMap::new();
    sources.insert(10, 1);
    sources.insert(11, 2);
    sources.insert(12, 1);
    let mut views = views_of_texture(&sources, 1);
    views.sort();
    assert_eq!(views, vec![10, 12]);
    assert!(views_of_texture(&sources, 3).is_empty());
}

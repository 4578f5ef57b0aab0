//! The records in which a C caller passes copy geometry, and the functions
//! that turn them into the crate's own value types.
use vstd::prelude::*;
use crate::geometry::{Extent3d, ImageCopyBuffer, ImageCopyTexture, ImageDataLayout, Origin3d, nonzero};
use crate::registry::ResourceId;

verus! {

#[allow(non_snake_case)]
#[derive(Clone, Copy, Debug)]
pub struct WGPUExtent3D {
    pub width: u32,
    pub height: u32,
    pub depth: u32,
}

#[allow(non_snake_case)]
#[derive(Clone, Copy, Debug)]
pub struct WGPUOrigin3D {
    pub x: u32,
    pub y: u32,
    pub z: u32,
}

/// A stride of zero means that none is given.
#[allow(non_snake_case)]
#[derive(Clone, Copy, Debug)]
pub struct WGPUTextureDataLayout {
    pub offset: u64,
    pub bytesPerRow: u32,
    pub rowsPerImage: u32,
}

#[allow(non_snake_case)]
#[derive(Clone, Copy, Debug)]
pub struct WGPUImageCopyTexture {
    pub texture: ResourceId,
    pub mipLevel: u32,
    pub origin: WGPUOrigin3D,
}

#[allow(non_snake_case)]
#[derive(Clone, Copy, Debug)]
pub struct WGPUImageCopyBuffer {
    pub buffer: ResourceId,
    pub layout: WGPUTextureDataLayout,
}

pub fn map_extent3d(native: &WGPUExtent3D) -> (r: Extent3d)
    ensures
        r.width == native.width,
        r.height == native.height,
        r.depth_or_array_layers == native.depth,
{
    Extent3d { width: native.width, height: native.height, depth_or_array_layers: native.depth }
}

pub fn map_origin3d(native: &WGPUOrigin3D) -> (r: Origin3d)
    ensures
        r.x == native.x,
        r.y == native.y,
        r.z == native.z,
{
    Origin3d { x: native.x, y: native.y, z: native.z }
}

/// Strides of zero become absent strides, so the result is always well formed.
pub fn map_texture_data_layout(native: &WGPUTextureDataLayout) -> (r: ImageDataLayout)
    ensures
        r.offset == native.offset,
        r.bytes_per_row == nonzero(native.bytesPerRow),
        r.rows_per_image == nonzero(native.rowsPerImage),
        r.wf(),
{
    ImageDataLayout {
        offset: native.offset,
        bytes_per_row: if native.bytesPerRow == 0 { None } else { Some(native.bytesPerRow) },
        rows_per_image: if native.rowsPerImage == 0 { None } else { Some(native.rowsPerImage) },
    }
}

pub fn map_image_copy_texture(native: &WGPUImageCopyTexture) -> (r: ImageCopyTexture)
    ensures
        r.texture == native.texture,
        r.mip_level == native.mipLevel,
        r.origin.x == native.origin.x,
        r.origin.y == native.origin.y,
        r.origin.z == native.origin.z,
{
    ImageCopyTexture {
        texture: native.texture,
        mip_level: native.mipLevel,
        origin: map_origin3d(&native.origin),
    }
}

pub fn map_image_copy_buffer(native: &WGPUImageCopyBuffer) -> (r: ImageCopyBuffer)
    ensures
        r.buffer == native.buffer,
        r.layout.offset == native.layout.offset,
        r.layout.bytes_per_row == nonzero(native.layout.bytesPerRow),
        r.layout.rows_per_image == nonzero(native.layout.rowsPerImage),
        r.layout.wf(),
{
    ImageCopyBuffer { buffer: native.buffer, layout: map_texture_data_layout(&native.layout) }
}

} // verus!

//! The rules that a copy must meet, as spec functions, and the functions
//! that decide them.
use vstd::prelude::*;
use crate::error::CommandError;
use crate::geometry::{mip_dim, mip_extent, Extent3d, ImageCopyBuffer, ImageCopyTexture, ImageDataLayout};
use crate::registry::{has_usage, usage_allows, BufferInfo, Registry, ResourceId, ResourceMetadata, TextureFormat, TextureInfo, USAGE_COPY_DST, USAGE_COPY_SRC};

verus! {

/// Why a copy of `size` bytes between two buffers is refused, if it is. The
/// source is judged before the destination, ranges before usage flags, and
/// an overlap last.
pub open spec fn buffer_copy_error(
    reg: &Registry,
    src: ResourceId,
    src_offset: u64,
    dst: ResourceId,
    dst_offset: u64,
    size: u64,
) -> Option<CommandError> {
    match (reg.buffer(src), reg.buffer(dst)) {
        (None, _) => Some(CommandError::InvalidHandle),
        (Some(s), d) => if src_offset + size > s.size {
            Some(CommandError::OutOfBounds)
        } else {
            match d {
                None => Some(CommandError::InvalidHandle),
                Some(d) => if dst_offset + size > d.size {
                    Some(CommandError::OutOfBounds)
                } else if !has_usage(s.usage, USAGE_COPY_SRC) || !has_usage(
                    d.usage,
                    USAGE_COPY_DST,
                ) {
                    Some(CommandError::UsageViolation)
                } else if src == dst && src_offset < dst_offset + size && dst_offset < src_offset
                    + size {
                    Some(CommandError::Overlap)
                } else {
                    None
                },
            }
        },
    }
}

impl Registry {
    pub fn resolve_buffer(&self, id: ResourceId) -> (r: Result<BufferInfo, CommandError>)
        requires
            self.wf(),
        ensures
            match self.buffer(id) {
                Some(b) => r == Ok::<BufferInfo, CommandError>(b),
                None => r == Err::<BufferInfo, CommandError>(CommandError::InvalidHandle),
            },
    {
        match self.resolve(id) {
            Ok(ResourceMetadata::Buffer(b)) => Ok(*b),
            _ => Err(CommandError::InvalidHandle),
        }
    }

    pub fn resolve_texture(&self, id: ResourceId) -> (r: Result<TextureInfo, CommandError>)
        requires
            self.wf(),
        ensures
            match self.texture(id) {
                Some(t) => r == Ok::<TextureInfo, CommandError>(t),
                None => r == Err::<TextureInfo, CommandError>(CommandError::InvalidHandle),
            },
    {
        match self.resolve(id) {
            Ok(ResourceMetadata::Texture(t)) => Ok(*t),
            _ => Err(CommandError::InvalidHandle),
        }
    }
}

/// Decides [`buffer_copy_error`].
pub fn check_buffer_copy(
    reg: &Registry,
    src: ResourceId,
    src_offset: u64,
    dst: ResourceId,
    dst_offset: u64,
    size: u64,
) -> (r: Option<CommandError>)
    requires
        reg.wf(),
    ensures
        r == buffer_copy_error(reg, src, src_offset, dst, dst_offset, size),
{
    let s = match reg.resolve_buffer(src) {
        Ok(s) => s,
        Err(e) => { return Some(e); },
    };
    if size > s.size || src_offset > s.size - size {
        return Some(CommandError::OutOfBounds);
    }
    let d = match reg.resolve_buffer(dst) {
        Ok(d) => d,
        Err(e) => { return Some(e); },
    };
    if size > d.size || dst_offset > d.size - size {
        return Some(CommandError::OutOfBounds);
    }
    if !usage_allows(s.usage, USAGE_COPY_SRC) || !usage_allows(d.usage, USAGE_COPY_DST) {
        return Some(CommandError::UsageViolation);
    }
    if src == dst && src_offset < dst_offset + size && dst_offset < src_offset + size {
        return Some(CommandError::Overlap);
    }
    None
}

/// Why the region of `size` at `copy` does not lie in texture `t`, or is
/// not made of whole blocks of its format.
pub open spec fn texture_region_error(t: TextureInfo, copy: ImageCopyTexture, size: Extent3d)
    -> Option<CommandError> {
    let f = t.format;
    if copy.mip_level >= t.mip_level_count {
        Some(CommandError::OutOfBounds)
    } else if copy.origin.x + size.width > mip_dim(t.size.width as nat, copy.mip_level as nat)
        || copy.origin.y + size.height > mip_dim(t.size.height as nat, copy.mip_level as nat)
        || copy.origin.z + size.depth_or_array_layers > t.size.depth_or_array_layers {
        Some(CommandError::OutOfBounds)
    } else if f.block_width == 0 || f.block_height == 0 || f.block_bytes == 0 {
        Some(CommandError::FormatMismatch)
    } else if copy.origin.x % f.block_width != 0 || copy.origin.y % f.block_height != 0
        || size.width % f.block_width != 0 || size.height % f.block_height != 0 {
        Some(CommandError::FormatMismatch)
    } else {
        None
    }
}

/// Decides [`texture_region_error`].
pub fn check_texture_region(t: &TextureInfo, copy: &ImageCopyTexture, size: &Extent3d) -> (r:
    Option<CommandError>)
    ensures
        r == texture_region_error(*t, *copy, *size),
{
    let f = t.format;
    if copy.mip_level >= t.mip_level_count {
        return Some(CommandError::OutOfBounds);
    }
    let w: u64 = mip_extent(t.size.width, copy.mip_level) as u64;
    let h: u64 = mip_extent(t.size.height, copy.mip_level) as u64;
    if copy.origin.x as u64 + size.width as u64 > w || copy.origin.y as u64 + size.height as u64
        > h || copy.origin.z as u64 + size.depth_or_array_layers as u64
        > t.size.depth_or_array_layers as u64 {
        return Some(CommandError::OutOfBounds);
    }
    if f.block_width == 0 || f.block_height == 0 || f.block_bytes == 0 {
        return Some(CommandError::FormatMismatch);
    }
    if copy.origin.x % f.block_width != 0 || copy.origin.y % f.block_height != 0 || size.width
        % f.block_width != 0 || size.height % f.block_height != 0 {
        return Some(CommandError::FormatMismatch);
    }
    None
}

/// Why `layout` cannot hold texels of format `f`: the offset and a row
/// stride, where one is given, are multiples of the block's size in bytes,
/// an image stride of the block's height in rows, and a stride that is given
/// is positive.
pub open spec fn layout_error(layout: ImageDataLayout, f: TextureFormat) -> Option<CommandError> {
    if f.block_bytes == 0 || f.block_height == 0 {
        Some(CommandError::FormatMismatch)
    } else if layout.offset % (f.block_bytes as u64) != 0 {
        Some(CommandError::FormatMismatch)
    } else if layout.bytes_per_row matches Some(stride) && (stride == 0 || stride % f.block_bytes
        != 0) {
        Some(CommandError::FormatMismatch)
    } else if layout.rows_per_image matches Some(rows) && (rows == 0 || rows % f.block_height
        != 0) {
        Some(CommandError::FormatMismatch)
    } else {
        None
    }
}

/// Decides [`layout_error`].
pub fn check_layout(layout: &ImageDataLayout, f: &TextureFormat) -> (r: Option<CommandError>)
    ensures
        r == layout_error(*layout, *f),
{
    if f.block_bytes == 0 || f.block_height == 0 {
        return Some(CommandError::FormatMismatch);
    }
    if layout.offset % (f.block_bytes as u64) != 0 {
        return Some(CommandError::FormatMismatch);
    }
    match layout.bytes_per_row {
        Some(stride) => {
            if stride == 0 || stride % f.block_bytes != 0 {
                return Some(CommandError::FormatMismatch);
            }
        },
        None => {},
    }
    match layout.rows_per_image {
        Some(rows) => {
            if rows == 0 || rows % f.block_height != 0 {
                return Some(CommandError::FormatMismatch);
            }
        },
        None => {},
    }
    None
}

/// Why a copy between two textures is refused, if it is: both must be live,
/// carry the usage flags, have one format, and hold their region.
pub open spec fn texture_copy_error(
    reg: &Registry,
    src: ImageCopyTexture,
    dst: ImageCopyTexture,
    size: Extent3d,
) -> Option<CommandError> {
    match (reg.texture(src.texture), reg.texture(dst.texture)) {
        (Some(s), Some(d)) => if !has_usage(s.usage, USAGE_COPY_SRC) || !has_usage(
            d.usage,
            USAGE_COPY_DST,
        ) {
            Some(CommandError::UsageViolation)
        } else if s.format.code != d.format.code {
            Some(CommandError::FormatMismatch)
        } else if texture_region_error(s, src, size) is Some {
            texture_region_error(s, src, size)
        } else {
            texture_region_error(d, dst, size)
        },
        _ => Some(CommandError::InvalidHandle),
    }
}

/// Decides [`texture_copy_error`].
pub fn check_texture_copy(
    reg: &Registry,
    src: &ImageCopyTexture,
    dst: &ImageCopyTexture,
    size: &Extent3d,
) -> (r: Option<CommandError>)
    requires
        reg.wf(),
    ensures
        r == texture_copy_error(reg, *src, *dst, *size),
{
    let s = match reg.resolve_texture(src.texture) {
        Ok(s) => s,
        Err(e) => { return Some(e); },
    };
    let d = match reg.resolve_texture(dst.texture) {
        Ok(d) => d,
        Err(e) => { return Some(e); },
    };
    if !usage_allows(s.usage, USAGE_COPY_SRC) || !usage_allows(d.usage, USAGE_COPY_DST) {
        return Some(CommandError::UsageViolation);
    }
    if s.format.code != d.format.code {
        return Some(CommandError::FormatMismatch);
    }
    let first = check_texture_region(&s, src, size);
    if first.is_some() {
        return first;
    }
    check_texture_region(&d, dst, size)
}

/// Why a copy between a buffer and a texture is refused, if it is.
/// `to_texture` says which of the two is written.
pub open spec fn buffer_texture_copy_error(
    reg: &Registry,
    buffer: ImageCopyBuffer,
    texture: ImageCopyTexture,
    size: Extent3d,
    to_texture: bool,
) -> Option<CommandError> {
    match (reg.buffer(buffer.buffer), reg.texture(texture.texture)) {
        (Some(b), Some(t)) => if !has_usage(
            b.usage,
            if to_texture {
                USAGE_COPY_SRC
            } else {
                USAGE_COPY_DST
            },
        ) || !has_usage(
            t.usage,
            if to_texture {
                USAGE_COPY_DST
            } else {
                USAGE_COPY_SRC
            },
        ) {
            Some(CommandError::UsageViolation)
        } else if texture_region_error(t, texture, size) is Some {
            texture_region_error(t, texture, size)
        } else {
            layout_error(buffer.layout, t.format)
        },
        _ => Some(CommandError::InvalidHandle),
    }
}

/// Decides [`buffer_texture_copy_error`].
pub fn check_buffer_texture_copy(
    reg: &Registry,
    buffer: &ImageCopyBuffer,
    texture: &ImageCopyTexture,
    size: &Extent3d,
    to_texture: bool,
) -> (r: Option<CommandError>)
    requires
        reg.wf(),
    ensures
        r == buffer_texture_copy_error(reg, *buffer, *texture, *size, to_texture),
{
    let b = match reg.resolve_buffer(buffer.buffer) {
        Ok(b) => b,
        Err(e) => { return Some(e); },
    };
    let t = match reg.resolve_texture(texture.texture) {
        Ok(t) => t,
        Err(e) => { return Some(e); },
    };
    let buffer_flag: u32 = if to_texture { USAGE_COPY_SRC } else { USAGE_COPY_DST };
    let texture_flag: u32 = if to_texture { USAGE_COPY_DST } else { USAGE_COPY_SRC };
    if !usage_allows(b.usage, buffer_flag) || !usage_allows(t.usage, texture_flag) {
        return Some(CommandError::UsageViolation);
    }
    let region = check_texture_region(&t, texture, size);
    if region.is_some() {
        return region;
    }
    check_layout(&buffer.layout, &t.format)
}

} // verus!

use vstd::prelude::*;
use crate::error::CommandError;
use crate::geometry::{Color, Extent3d, ImageCopyBuffer, ImageCopyTexture};
use crate::registry::ResourceId;

verus! {

/// What happens to an attachment's previous content when a pass starts.
#[derive(Clone, Copy, Debug, PartialEq, Eq, Structural)]
pub enum LoadOp {
    Clear,
    Load,
}

/// What happens to an attachment's content when a pass ends. `Clear` discards
/// it.
#[derive(Clone, Copy, Debug, PartialEq, Eq, Structural)]
pub enum StoreOp {
    Clear,
    Store,
}

/// The load operation that a C caller's number stands for.
pub fn map_load_op(native: u32) -> (r: Option<LoadOp>)
    ensures
        r == (if native == 0 {
            Some(LoadOp::Clear)
        } else if native == 1 {
            Some(LoadOp::Load)
        } else {
            None
        }),
{
    if native == 0 {
        Some(LoadOp::Clear)
    } else if native == 1 {
        Some(LoadOp::Load)
    } else {
        None
    }
}

/// The store operation that a C caller's number stands for.
pub fn map_store_op(native: u32) -> (r: Option<StoreOp>)
    ensures
        r == (if native == 0 {
            Some(StoreOp::Store)
        } else if native == 1 {
            Some(StoreOp::Clear)
        } else {
            None
        }),
{
    if native == 0 {
        Some(StoreOp::Store)
    } else if native == 1 {
        Some(StoreOp::Clear)
    } else {
        None
    }
}

/// The value an attachment is cleared to. A depth holds the bit pattern of
/// an IEEE 754 single.
#[derive(Clone, Copy, Debug, PartialEq, Eq, Structural)]
pub enum ClearValue {
    Color(Color),
    Depth(u32),
    Stencil(u32),
}

/// The bit pattern of the single-precision number 1.0. The patterns from 0 up
/// to this one are exactly the numbers from 0.0 to 1.0.
pub const DEPTH_ONE_BITS: u32 = 0x3F80_0000;

/// What a channel of an attachment must hold.
#[derive(Clone, Copy, Debug, PartialEq, Eq, Structural)]
pub enum ChannelKind {
    Color,
    Depth,
    Stencil,
}

#[derive(Clone, Copy, Debug, PartialEq, Eq, Structural)]
pub struct PassChannel {
    pub load_op: LoadOp,
    pub store_op: StoreOp,
    pub clear_value: ClearValue,
    pub read_only: bool,
}

impl PassChannel {
    /// Whether the value to clear to is one of the channel's kind; a depth
    /// lies between 0.0 and 1.0.
    pub open spec fn clear_value_fits(self, kind: ChannelKind) -> bool {
        match kind {
            ChannelKind::Color => self.clear_value is Color,
            ChannelKind::Depth => self.clear_value matches ClearValue::Depth(bits) && bits
                <= DEPTH_ONE_BITS,
            ChannelKind::Stencil => self.clear_value is Stencil,
        }
    }

    /// Why the channel cannot serve an attachment of the given kind: it is
    /// cleared to a value that does not fit, or it stores though it is
    /// read-only.
    pub open spec fn error_for(self, kind: ChannelKind) -> Option<CommandError> {
        if self.load_op == LoadOp::Clear && !self.clear_value_fits(kind) {
            Some(CommandError::FormatMismatch)
        } else if self.read_only && self.store_op == StoreOp::Store {
            Some(CommandError::ReadOnlyAttachmentViolation)
        } else {
            None
        }
    }

    /// Decides [`PassChannel::error_for`].
    pub fn check(&self, kind: ChannelKind) -> (r: Option<CommandError>)
        ensures
            r == self.error_for(kind),
    {
        let fits = match kind {
            ChannelKind::Color => match self.clear_value {
                ClearValue::Color(_) => true,
                _ => false,
            },
            ChannelKind::Depth => match self.clear_value {
                ClearValue::Depth(bits) => bits <= DEPTH_ONE_BITS,
                _ => false,
            },
            ChannelKind::Stencil => match self.clear_value {
                ClearValue::Stencil(_) => true,
                _ => false,
            },
        };
        let clears = match self.load_op {
            LoadOp::Clear => true,
            LoadOp::Load => false,
        };
        let stores = match self.store_op {
            StoreOp::Store => true,
            StoreOp::Clear => false,
        };
        if clears && !fits {
            Some(CommandError::FormatMismatch)
        } else if self.read_only && stores {
            Some(CommandError::ReadOnlyAttachmentViolation)
        } else {
            None
        }
    }
}

#[derive(Clone, Copy, Debug, PartialEq, Eq, Structural)]
pub struct ColorAttachment {
    pub view: ResourceId,
    pub resolve_target: Option<ResourceId>,
    pub channel: PassChannel,
}

#[derive(Clone, Copy, Debug, PartialEq, Eq, Structural)]
pub struct DepthStencilAttachment {
    pub view: ResourceId,
    pub depth: PassChannel,
    pub stencil: PassChannel,
}

/// The attachments of a render pass.
#[derive(Clone, Debug, PartialEq, Eq)]
pub struct RenderPassDescriptor {
    pub color_attachments: Vec<ColorAttachment>,
    pub depth_stencil_attachment: Option<DepthStencilAttachment>,
}

#[derive(Clone, Copy, Debug, PartialEq, Eq, Structural)]
pub enum IndexFormat {
    Uint16,
    Uint32,
}

/// The index format that a C caller's number stands for. Zero, which the
/// caller uses for an undefined format, stands for none.
pub fn map_index_format(native: u32) -> (r: Option<IndexFormat>)
    ensures
        r == (if native == 1 {
            Some(IndexFormat::Uint16)
        } else if native == 2 {
            Some(IndexFormat::Uint32)
        } else {
            None
        }),
{
    if native == 1 {
        Some(IndexFormat::Uint16)
    } else if native == 2 {
        Some(IndexFormat::Uint32)
    } else {
        None
    }
}

/// One entry of a recorded command stream.
#[allow(inconsistent_fields)]
#[derive(Clone, Debug, PartialEq, Eq)]
pub enum Command {
    CopyBufferToBuffer { src: ResourceId, src_offset: u64, dst: ResourceId, dst_offset: u64, size: u64 },
    CopyTextureToTexture { src: ImageCopyTexture, dst: ImageCopyTexture, size: Extent3d },
    CopyTextureToBuffer { src: ImageCopyTexture, dst: ImageCopyBuffer, size: Extent3d },
    CopyBufferToTexture { src: ImageCopyBuffer, dst: ImageCopyTexture, size: Extent3d },
    BeginComputePass,
    BeginRenderPass(RenderPassDescriptor),
    SetPipeline(ResourceId),
    SetBindGroup { index: u32, group: ResourceId, dynamic_offsets: Vec<u32> },
    Dispatch { x: u32, y: u32, z: u32 },
    SetIndexBuffer { buffer: ResourceId, format: IndexFormat, offset: u64, size: u64 },
    SetVertexBuffer { slot: u32, buffer: ResourceId, offset: u64, size: u64 },
    Draw { vertex_count: u32, instance_count: u32, first_vertex: u32, first_instance: u32 },
    DrawIndexed {
        index_count: u32,
        instance_count: u32,
        first_index: u32,
        base_vertex: i32,
        first_instance: u32,
    },
    /// Each number is the bit pattern of an IEEE 754 single.
    SetViewport { x: u32, y: u32, w: u32, h: u32, depth_min: u32, depth_max: u32 },
    SetScissorRect { x: u32, y: u32, w: u32, h: u32 },
    SetBlendColor(Color),
    SetStencilReference(u32),
    SetPushConstants { stages: u32, offset: u32, data: Vec<u8> },
    EndPass,
}

} // verus!

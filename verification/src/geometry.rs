use vstd::prelude::*;
use crate::registry::ResourceId;

verus! {

/// Size of a region, in texels, and in layers or depth slices.
#[derive(Clone, Copy, Debug, PartialEq, Eq, Structural)]
pub struct Extent3d {
    pub width: u32,
    pub height: u32,
    pub depth_or_array_layers: u32,
}

impl Extent3d {
    /// A region without texels: one of its sides is zero.
    pub open spec fn empty(self) -> bool {
        self.width == 0 || self.height == 0 || self.depth_or_array_layers == 0
    }

    pub fn is_empty(&self) -> (r: bool)
        ensures
            r == self.empty(),
    {
        self.width == 0 || self.height == 0 || self.depth_or_array_layers == 0
    }
}

/// Corner of a region inside a texture.
#[derive(Clone, Copy, Debug, PartialEq, Eq, Structural)]
pub struct Origin3d {
    pub x: u32,
    pub y: u32,
    pub z: u32,
}

/// A colour of four channels. Each channel holds the bit pattern of an
/// IEEE 754 double, which this crate stores and never interprets.
#[derive(Clone, Copy, Debug, PartialEq, Eq, Structural)]
pub struct Color {
    pub r_bits: u64,
    pub g_bits: u64,
    pub b_bits: u64,
    pub a_bits: u64,
}

/// How texel data is laid out in a buffer. An absent stride means that rows,
/// or images, are tightly packed.
#[derive(Clone, Copy, Debug, PartialEq, Eq)]
pub struct ImageDataLayout {
    pub offset: u64,
    pub bytes_per_row: Option<u32>,
    pub rows_per_image: Option<u32>,
}

impl ImageDataLayout {
    /// A stride that is present is positive.
    pub open spec fn wf(&self) -> bool {
        &&& self.bytes_per_row != Some(0u32)
        &&& self.rows_per_image != Some(0u32)
    }
}

/// The texture side of a copy.
#[derive(Clone, Copy, Debug, PartialEq, Eq)]
pub struct ImageCopyTexture {
    pub texture: ResourceId,
    pub mip_level: u32,
    pub origin: Origin3d,
}

/// The buffer side of a copy between a buffer and a texture.
#[derive(Clone, Copy, Debug, PartialEq, Eq)]
pub struct ImageCopyBuffer {
    pub buffer: ResourceId,
    pub layout: ImageDataLayout,
}

/// What a stride of zero stands for: no stride given.
pub open spec fn nonzero(v: u32) -> Option<u32> {
    if v == 0 {
        None
    } else {
        Some(v)
    }
}

/// Extent of `dim` at mip level `level`: halved once per level, never below 1.
pub open spec fn mip_dim(dim: nat, level: nat) -> nat
    decreases level,
{
    if level == 0 {
        if dim == 0 {
            1
        } else {
            dim
        }
    } else {
        mip_dim(dim / 2, (level - 1) as nat)
    }
}

/// Computes [`mip_dim`].
pub fn mip_extent(dim: u32, level: u32) -> (r: u32)
    ensures
        r == mip_dim(dim as nat, level as nat),
        r >= 1,
{
    let mut d: u32 = dim;
    let mut l: u32 = level;
    while l > 0
        invariant
            mip_dim(d as nat, l as nat) == mip_dim(dim as nat, level as nat),
        decreases l,
    {
        d = d / 2;
        l = l - 1;
    }
    if d == 0 {
        1
    } else {
        d
    }
}

} // verus!

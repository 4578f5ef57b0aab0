use vstd::prelude::*;
use crate::error::CommandError;
use crate::geometry::Extent3d;

verus! {

/// Handle of a resource: a slot and the generation of the slot's content.
#[derive(Clone, Copy, Debug, PartialEq, Eq, Structural)]
pub struct ResourceId {
    pub index: u32,
    pub generation: u32,
}

/// Usage flag: a buffer or texture may be read by a copy.
pub const USAGE_COPY_SRC: u32 = 1;
/// Usage flag: a buffer or texture may be written by a copy.
pub const USAGE_COPY_DST: u32 = 2;
/// Usage flag: a buffer may be bound as index buffer.
pub const USAGE_INDEX: u32 = 4;
/// Usage flag: a buffer may be bound as vertex buffer.
pub const USAGE_VERTEX: u32 = 8;
/// Usage flag: a texture may be an attachment of a render pass.
pub const USAGE_RENDER_ATTACHMENT: u32 = 16;

/// Whether `usage` holds every bit of `flag`.
pub open spec fn has_usage(usage: u32, flag: u32) -> bool {
    usage & flag == flag
}

pub fn usage_allows(usage: u32, flag: u32) -> (r: bool)
    ensures
        r == has_usage(usage, flag),
{
    usage & flag == flag
}

#[derive(Clone, Copy, Debug, PartialEq, Eq, Structural)]
pub struct BufferInfo {
    pub size: u64,
    pub usage: u32,
}

/// A texel format, as far as copies need it: the size of a block in texels
/// and in bytes. Formats are equal when their codes are.
#[derive(Clone, Copy, Debug, PartialEq, Eq, Structural)]
pub struct TextureFormat {
    pub code: u32,
    pub block_width: u32,
    pub block_height: u32,
    pub block_bytes: u32,
}

#[derive(Clone, Copy, Debug, PartialEq, Eq, Structural)]
pub struct TextureInfo {
    pub size: Extent3d,
    pub mip_level_count: u32,
    pub sample_count: u32,
    pub format: TextureFormat,
    pub usage: u32,
}

#[derive(Clone, Copy, Debug, PartialEq, Eq, Structural)]
pub struct BindGroupInfo {
    pub layout: u32,
    pub dynamic_binding_count: u32,
}

/// Bytes `start..end` of push-constant space, visible to `stages`.
#[derive(Clone, Copy, Debug, PartialEq, Eq, Structural)]
pub struct PushConstantRange {
    pub stages: u32,
    pub start: u32,
    pub end: u32,
}

#[derive(Clone, Debug, PartialEq, Eq)]
pub struct PipelineInfo {
    pub is_render: bool,
    /// The bind group layout expected at each index.
    pub bind_group_layouts: Vec<u32>,
    pub push_constant_ranges: Vec<PushConstantRange>,
    pub depth_write: bool,
}

/// What the registry knows of a resource.
#[derive(Clone, Debug, PartialEq, Eq)]
pub enum ResourceMetadata {
    Buffer(BufferInfo),
    Texture(TextureInfo),
    BindGroup(BindGroupInfo),
    Pipeline(PipelineInfo),
}

struct Slot {
    generation: u32,
    meta: Option<ResourceMetadata>,
}

/// Issues handles and answers what they stand for. A slot's generation grows
/// each time its resource is destroyed, so a handle that was destroyed never
/// resolves again.
pub struct Registry {
    slots: Vec<Slot>,
}

impl Registry {
    pub closed spec fn wf(&self) -> bool {
        &&& self.slots@.len() <= u32::MAX
        &&& forall|i: int|
            0 <= i < self.slots@.len() && self.slots@[i].meta is Some
                ==> #[trigger] self.slots@[i].generation < u32::MAX
    }

    /// The metadata of the live resource that `id` names, if there is one.
    pub closed spec fn lookup(&self, id: ResourceId) -> Option<ResourceMetadata> {
        if id.index < self.slots@.len() && self.slots@[id.index as int].generation
            == id.generation {
            self.slots@[id.index as int].meta
        } else {
            None
        }
    }

    /// `id` is older than what its slot now holds: it was destroyed.
    pub closed spec fn retired(&self, id: ResourceId) -> bool {
        id.index < self.slots@.len() && id.generation < self.slots@[id.index as int].generation
    }

    /// No slot is free and none can be added.
    pub closed spec fn full(&self) -> bool {
        &&& self.slots@.len() == u32::MAX
        &&& forall|i: int|
            0 <= i < self.slots@.len() ==> (#[trigger] self.slots@[i]).meta is Some
                || self.slots@[i].generation == u32::MAX
    }

    pub open spec fn buffer(&self, id: ResourceId) -> Option<BufferInfo> {
        match self.lookup(id) {
            Some(ResourceMetadata::Buffer(b)) => Some(b),
            _ => None,
        }
    }

    pub open spec fn texture(&self, id: ResourceId) -> Option<TextureInfo> {
        match self.lookup(id) {
            Some(ResourceMetadata::Texture(t)) => Some(t),
            _ => None,
        }
    }

    pub open spec fn bind_group(&self, id: ResourceId) -> Option<BindGroupInfo> {
        match self.lookup(id) {
            Some(ResourceMetadata::BindGroup(g)) => Some(g),
            _ => None,
        }
    }

    pub open spec fn pipeline(&self, id: ResourceId) -> Option<PipelineInfo> {
        match self.lookup(id) {
            Some(ResourceMetadata::Pipeline(p)) => Some(p),
            _ => None,
        }
    }

    pub fn new() -> (r: Registry)
        ensures
            r.wf(),
            !r.full(),
            forall|id: ResourceId| r.lookup(id) is None && !r.retired(id),
    {
        Registry { slots: Vec::new() }
    }

    /// Registers a resource. The handle that comes back was neither live nor
    /// retired before; every other handle resolves as it did.
    pub fn create(&mut self, meta: ResourceMetadata) -> (r: Option<ResourceId>)
        requires
            old(self).wf(),
        ensures
            final(self).wf(),
            r is None <==> old(self).full(),
            r is None ==> forall|id: ResourceId|
                final(self).lookup(id) == old(self).lookup(id),
            r matches Some(id) ==> {
                &&& old(self).lookup(id) is None
                &&& !old(self).retired(id)
                &&& final(self).lookup(id) == Some(meta)
                &&& forall|other: ResourceId|
                    other != id ==> final(self).lookup(other) == old(self).lookup(other)
            },
            forall|id: ResourceId| old(self).retired(id) <==> final(self).retired(id),
    {
        let n: usize = self.slots.len();
        let mut i: usize = 0;
        while i < n
            invariant
                n == self.slots@.len(),
                n <= u32::MAX,
                i <= n,
                *self == *old(self),
                self.wf(),
                forall|j: int|
                    0 <= j < i ==> (#[trigger] self.slots@[j]).meta is Some
                        || self.slots@[j].generation == u32::MAX,
            decreases n - i,
        {
            let generation: u32 = self.slots[i].generation;
            if self.slots[i].meta.is_none() && generation < u32::MAX {
                self.slots.set(i, Slot { generation, meta: Some(meta) });
                return Some(ResourceId { index: i as u32, generation });
            }
            i = i + 1;
        }
        if n < u32::MAX as usize {
            self.slots.push(Slot { generation: 0, meta: Some(meta) });
            Some(ResourceId { index: n as u32, generation: 0 })
        } else {
            None
        }
    }

    /// Ends the life of the resource that `id` names. Fails, and changes
    /// nothing, when `id` names none.
    pub fn destroy(&mut self, id: ResourceId) -> (r: Result<(), CommandError>)
        requires
            old(self).wf(),
        ensures
            final(self).wf(),
            r is Ok <==> old(self).lookup(id) is Some,
            r is Err ==> r == Err::<(), CommandError>(CommandError::InvalidHandle),
            r is Err ==> forall|other: ResourceId|
                final(self).retired(other) == old(self).retired(other),
            r is Ok ==> final(self).retired(id),
            final(self).lookup(id) is None,
            forall|other: ResourceId|
                other != id ==> final(self).lookup(other) == old(self).lookup(other),
            forall|other: ResourceId| old(self).retired(other) ==> final(self).retired(other),
    {
        let i: usize = id.index as usize;
        if i >= self.slots.len() {
            return Err(CommandError::InvalidHandle);
        }
        let generation: u32 = self.slots[i].generation;
        if generation != id.generation || self.slots[i].meta.is_none() {
            return Err(CommandError::InvalidHandle);
        }
        self.slots.set(i, Slot { generation: generation + 1, meta: None });
        Ok(())
    }

    /// The metadata behind `id`, or `InvalidHandle` when `id` was never
    /// issued or its resource was destroyed.
    pub fn resolve(&self, id: ResourceId) -> (r: Result<&ResourceMetadata, CommandError>)
        requires
            self.wf(),
        ensures
            match self.lookup(id) {
                Some(m) => r matches Ok(found) && *found == m,
                None => r == Err::<&ResourceMetadata, CommandError>(CommandError::InvalidHandle),
            },
    {
        let i: usize = id.index as usize;
        if i >= self.slots.len() {
            return Err(CommandError::InvalidHandle);
        }
        if self.slots[i].generation != id.generation {
            return Err(CommandError::InvalidHandle);
        }
        match &self.slots[i].meta {
            Some(m) => Ok(m),
            None => Err(CommandError::InvalidHandle),
        }
    }
}

/// A handle that is retired names no resource.
pub proof fn lemma_retired_is_dead(reg: &Registry, id: ResourceId)
    requires
        reg.wf(),
        reg.retired(id),
    ensures
        reg.lookup(id) is None,
{
}

} // verus!

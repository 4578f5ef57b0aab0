//! What compute and render passes share: the rules for binding pipelines,
//! bind groups and buffers, and for pushing constants.
use vstd::prelude::*;
use crate::error::CommandError;
use crate::registry::{has_usage, usage_allows, PipelineInfo, PushConstantRange, Registry, ResourceId, ResourceMetadata, BindGroupInfo};

verus! {

/// Every bit that names a shader stage.
pub const ALL_STAGES: u32 = 0x1FF;

/// A stage mask is known when it sets no bit outside [`ALL_STAGES`].
pub open spec fn known_stages(bits: u32) -> Option<u32> {
    if bits & ALL_STAGES == bits {
        Some(bits)
    } else {
        None
    }
}

/// Calls `wgpu_types::ShaderStages::from_bits`, then `bits` on what it
/// found. The contract claims what the flag type's definition shows: its
/// named flags fill the nine lowest bits, and a value with any other bit set
/// is refused, while any other value comes back unchanged.
#[verifier::external_body]
fn stages_from_bits(bits: u32) -> (r: Option<u32>)
    ensures
        r == known_stages(bits),
{
    match wgpu_types::ShaderStages::from_bits(bits) {
        Some(stages) => Some(stages.bits()),
        None => None,
    }
}

/// The stage mask that `bits` spells, if every bit of it names a stage.
pub fn stage_mask(bits: u32) -> (r: Option<u32>)
    ensures
        r == known_stages(bits),
        r matches Some(mask) ==> mask == bits && mask <= ALL_STAGES,
{
    let r = stages_from_bits(bits);
    proof {
        assert(bits & 0x1FF == bits ==> bits <= 0x1FF) by (bit_vector);
    }
    r
}

/// What an operation of a pass returns whose validation came to `check`.
pub open spec fn result_of(check: Option<CommandError>) -> Result<(), CommandError> {
    match check {
        Some(e) => Err(e),
        None => Ok(()),
    }
}

/// A pass keeps the first error it met.
pub open spec fn first_error(earlier: Option<CommandError>, later: Option<CommandError>)
    -> Option<CommandError> {
    if earlier is Some {
        earlier
    } else {
        later
    }
}

/// Why `id` cannot be bound as pipeline of a pass of the given kind.
pub open spec fn pipeline_error(reg: &Registry, id: ResourceId, render: bool) -> Option<
    CommandError,
> {
    match reg.pipeline(id) {
        Some(p) if p.is_render == render => None,
        _ => Some(CommandError::InvalidHandle),
    }
}

/// Whether the pipeline expects `layout` at `index`.
pub open spec fn layout_matches(p: PipelineInfo, index: u32, layout: u32) -> bool {
    index < p.bind_group_layouts@.len() && p.bind_group_layouts@[index as int] == layout
}

/// Why a bind group cannot be set at `index` with `offsets` dynamic offsets,
/// while `pipeline` is bound.
pub open spec fn bind_group_error(
    reg: &Registry,
    pipeline: Option<ResourceId>,
    index: u32,
    group: ResourceId,
    offsets: nat,
) -> Option<CommandError> {
    match reg.bind_group(group) {
        None => Some(CommandError::InvalidHandle),
        Some(g) => match pipeline {
            Some(id) => match reg.pipeline(id) {
                None => Some(CommandError::InvalidHandle),
                Some(p) => if !layout_matches(p, index, g.layout) {
                    Some(CommandError::LayoutMismatch)
                } else if offsets != g.dynamic_binding_count {
                    Some(CommandError::DynamicOffsetCountMismatch)
                } else {
                    None
                },
            },
            None => if offsets != g.dynamic_binding_count {
                Some(CommandError::DynamicOffsetCountMismatch)
            } else {
                None
            },
        },
    }
}

/// A bind group of the wrong layout unbinds the pipeline.
pub open spec fn pipeline_after_bind(pipeline: Option<ResourceId>, check: Option<CommandError>)
    -> Option<ResourceId> {
    if check == Some(CommandError::LayoutMismatch) {
        None
    } else {
        pipeline
    }
}

/// Why bytes `offset..offset + size` of a buffer cannot be bound for `usage`.
pub open spec fn binding_error(
    reg: &Registry,
    buffer: ResourceId,
    usage: u32,
    offset: u64,
    size: u64,
) -> Option<CommandError> {
    match reg.buffer(buffer) {
        None => Some(CommandError::InvalidHandle),
        Some(b) => if !has_usage(b.usage, usage) {
            Some(CommandError::UsageViolation)
        } else if offset + size > b.size {
            Some(CommandError::OutOfBounds)
        } else {
            None
        },
    }
}

/// Whether `range` may take `len` bytes at `offset` for all of `stages`.
pub open spec fn range_covers(range: PushConstantRange, stages: u32, offset: u32, len: nat)
    -> bool {
    &&& range.stages & stages == stages
    &&& range.start <= offset
    &&& offset + len <= range.end
}

/// Why `len` bytes cannot be pushed at `offset` for `stages`.
pub open spec fn push_constant_error(
    reg: &Registry,
    pipeline: Option<ResourceId>,
    stages: u32,
    offset: u32,
    len: nat,
) -> Option<CommandError> {
    match pipeline {
        None => Some(CommandError::NoPipelineBound),
        Some(id) => match reg.pipeline(id) {
            None => Some(CommandError::InvalidHandle),
            Some(p) => if known_stages(stages) is Some && exists|i: int|
                0 <= i < p.push_constant_ranges@.len() && range_covers(
                    #[trigger] p.push_constant_ranges@[i],
                    stages,
                    offset,
                    len,
                ) {
                None
            } else {
                Some(CommandError::RangeNotInPipelineLayout)
            },
        },
    }
}

impl Registry {
    pub fn resolve_pipeline(&self, id: ResourceId) -> (r: Result<&PipelineInfo, CommandError>)
        requires
            self.wf(),
        ensures
            match self.pipeline(id) {
                Some(p) => r matches Ok(found) && *found == p,
                None => r == Err::<&PipelineInfo, CommandError>(CommandError::InvalidHandle),
            },
    {
        match self.resolve(id) {
            Ok(ResourceMetadata::Pipeline(p)) => Ok(p),
            _ => Err(CommandError::InvalidHandle),
        }
    }

    pub fn resolve_bind_group(&self, id: ResourceId) -> (r: Result<BindGroupInfo, CommandError>)
        requires
            self.wf(),
        ensures
            match self.bind_group(id) {
                Some(g) => r == Ok::<BindGroupInfo, CommandError>(g),
                None => r == Err::<BindGroupInfo, CommandError>(CommandError::InvalidHandle),
            },
    {
        match self.resolve(id) {
            Ok(ResourceMetadata::BindGroup(g)) => Ok(*g),
            _ => Err(CommandError::InvalidHandle),
        }
    }
}

/// Decides [`pipeline_error`]; with no error, also tells whether the
/// pipeline writes depth.
pub fn check_pipeline(reg: &Registry, id: ResourceId, render: bool) -> (r: Result<
    bool,
    CommandError,
>)
    requires
        reg.wf(),
    ensures
        match pipeline_error(reg, id, render) {
            Some(e) => r == Err::<bool, CommandError>(e),
            None => r == Ok::<bool, CommandError>(reg.pipeline(id).unwrap().depth_write),
        },
{
    match reg.resolve_pipeline(id) {
        Ok(p) => {
            if p.is_render == render {
                Ok(p.depth_write)
            } else {
                Err(CommandError::InvalidHandle)
            }
        },
        Err(e) => Err(e),
    }
}

/// Decides [`bind_group_error`].
pub fn check_bind_group(
    reg: &Registry,
    pipeline: Option<ResourceId>,
    index: u32,
    group: ResourceId,
    offsets: usize,
) -> (r: Option<CommandError>)
    requires
        reg.wf(),
    ensures
        r == bind_group_error(reg, pipeline, index, group, offsets as nat),
{
    let g = match reg.resolve_bind_group(group) {
        Ok(g) => g,
        Err(e) => { return Some(e); },
    };
    match pipeline {
        Some(id) => {
            let p = match reg.resolve_pipeline(id) {
                Ok(p) => p,
                Err(e) => { return Some(e); },
            };
            let i: usize = index as usize;
            if i >= p.bind_group_layouts.len() || p.bind_group_layouts[i] != g.layout {
                return Some(CommandError::LayoutMismatch);
            }
        },
        None => {},
    }
    if offsets != g.dynamic_binding_count as usize {
        return Some(CommandError::DynamicOffsetCountMismatch);
    }
    None
}

/// Decides [`binding_error`].
pub fn check_binding(reg: &Registry, buffer: ResourceId, usage: u32, offset: u64, size: u64) -> (r:
    Option<CommandError>)
    requires
        reg.wf(),
    ensures
        r == binding_error(reg, buffer, usage, offset, size),
{
    let b = match reg.resolve_buffer(buffer) {
        Ok(b) => b,
        Err(e) => { return Some(e); },
    };
    if !usage_allows(b.usage, usage) {
        return Some(CommandError::UsageViolation);
    }
    if size > b.size || offset > b.size - size {
        return Some(CommandError::OutOfBounds);
    }
    None
}

/// Decides [`push_constant_error`].
pub fn check_push_constants(
    reg: &Registry,
    pipeline: Option<ResourceId>,
    stages: u32,
    offset: u32,
    len: usize,
) -> (r: Option<CommandError>)
    requires
        reg.wf(),
    ensures
        r == push_constant_error(reg, pipeline, stages, offset, len as nat),
{
    let id = match pipeline {
        Some(id) => id,
        None => { return Some(CommandError::NoPipelineBound); },
    };
    let p = match reg.resolve_pipeline(id) {
        Ok(p) => p,
        Err(e) => { return Some(e); },
    };
    if stage_mask(stages).is_none() {
        return Some(CommandError::RangeNotInPipelineLayout);
    }
    let n: usize = p.push_constant_ranges.len();
    let mut i: usize = 0;
    while i < n
        invariant
            i <= n,
            n == p.push_constant_ranges@.len(),
            pipeline == Some(id),
            reg.pipeline(id) == Some(*p),
            known_stages(stages) is Some,
            forall|j: int|
                0 <= j < i ==> !range_covers(
                    #[trigger] p.push_constant_ranges@[j],
                    stages,
                    offset,
                    len as nat,
                ),
        decreases n - i,
    {
        let range = p.push_constant_ranges[i];
        if range.stages & stages == stages && range.start <= offset && range.end >= offset
            && len <= (range.end - offset) as usize {
            assert(range_covers(p.push_constant_ranges@[i as int], stages, offset, len as nat));
            assert(reg.pipeline(id).unwrap().push_constant_ranges@ == p.push_constant_ranges@);
            return None;
        }
        i = i + 1;
    }
    Some(CommandError::RangeNotInPipelineLayout)
}

} // verus!

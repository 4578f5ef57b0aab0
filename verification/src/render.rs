use vstd::prelude::*;
use crate::command::{ChannelKind, ColorAttachment, Command, DepthStencilAttachment, IndexFormat, RenderPassDescriptor};
use crate::encoder::CommandEncoder;
use crate::error::CommandError;
use crate::geometry::Color;
use crate::pass::{bind_group_error, binding_error, check_bind_group, check_binding, check_pipeline, check_push_constants, first_error, pipeline_after_bind, pipeline_error, push_constant_error, result_of};
use crate::registry::{has_usage, usage_allows, Registry, ResourceId, TextureInfo, USAGE_INDEX, USAGE_RENDER_ATTACHMENT, USAGE_VERTEX};

verus! {

/// The most colour attachments that a render pass may have.
pub const MAX_COLOR_ATTACHMENTS: usize = 8;

/// Whether two textures agree in size and sample count.
pub open spec fn same_shape(a: TextureInfo, b: TextureInfo) -> bool {
    a.size == b.size && a.sample_count == b.sample_count
}

/// Why a colour attachment is refused. `first` is the texture of the first
/// colour attachment, with which every one must agree in shape.
pub open spec fn color_attachment_error(reg: &Registry, a: ColorAttachment, first: TextureInfo)
    -> Option<CommandError> {
    match reg.texture(a.view) {
        None => Some(CommandError::InvalidHandle),
        Some(t) => if a.resolve_target matches Some(target) && reg.texture(target) is None {
            Some(CommandError::InvalidHandle)
        } else if !has_usage(t.usage, USAGE_RENDER_ATTACHMENT) {
            Some(CommandError::UsageViolation)
        } else if a.channel.error_for(ChannelKind::Color) is Some {
            a.channel.error_for(ChannelKind::Color)
        } else if !same_shape(t, first) {
            Some(CommandError::FormatMismatch)
        } else {
            None
        },
    }
}

/// The error of the first of the first `n` colour attachments that has one.
pub open spec fn colors_error(reg: &Registry, atts: Seq<ColorAttachment>, n: nat) -> Option<
    CommandError,
>
    decreases n,
{
    if n == 0 || n > atts.len() {
        None
    } else {
        match colors_error(reg, atts, (n - 1) as nat) {
            Some(e) => Some(e),
            None => match reg.texture(atts[0].view) {
                None => Some(CommandError::InvalidHandle),
                Some(first) => color_attachment_error(reg, atts[n - 1], first),
            },
        }
    }
}

/// Why a depth-stencil attachment is refused. `first` is the texture of the
/// first colour attachment, where there is one; its size must be matched.
pub open spec fn depth_stencil_error(
    reg: &Registry,
    a: DepthStencilAttachment,
    first: Option<TextureInfo>,
) -> Option<CommandError> {
    match reg.texture(a.view) {
        None => Some(CommandError::InvalidHandle),
        Some(t) => if !has_usage(t.usage, USAGE_RENDER_ATTACHMENT) {
            Some(CommandError::UsageViolation)
        } else if a.depth.error_for(ChannelKind::Depth) is Some {
            a.depth.error_for(ChannelKind::Depth)
        } else if a.stencil.error_for(ChannelKind::Stencil) is Some {
            a.stencil.error_for(ChannelKind::Stencil)
        } else if first matches Some(f) && f.size != t.size {
            Some(CommandError::FormatMismatch)
        } else {
            None
        },
    }
}

/// The texture that gives a pass its size: that of the first colour
/// attachment, else that of the depth-stencil attachment.
pub open spec fn reference_texture(reg: &Registry, desc: RenderPassDescriptor) -> Option<
    TextureInfo,
> {
    if desc.color_attachments@.len() > 0 {
        reg.texture(desc.color_attachments@[0].view)
    } else {
        match desc.depth_stencil_attachment {
            Some(d) => reg.texture(d.view),
            None => None,
        }
    }
}

/// Why a render pass with these attachments cannot begin.
pub open spec fn render_pass_error(reg: &Registry, desc: RenderPassDescriptor) -> Option<
    CommandError,
> {
    let colors = desc.color_attachments@;
    if colors.len() > MAX_COLOR_ATTACHMENTS {
        Some(CommandError::OutOfBounds)
    } else if colors_error(reg, colors, colors.len()) is Some {
        colors_error(reg, colors, colors.len())
    } else {
        match desc.depth_stencil_attachment {
            Some(d) => depth_stencil_error(
                reg,
                d,
                if colors.len() > 0 {
                    reg.texture(colors[0].view)
                } else {
                    None
                },
            ),
            None => None,
        }
    }
}

/// Decides [`color_attachment_error`].
pub fn check_color_attachment(reg: &Registry, a: &ColorAttachment, first: &TextureInfo) -> (r:
    Option<CommandError>)
    requires
        reg.wf(),
    ensures
        r == color_attachment_error(reg, *a, *first),
{
    let t = match reg.resolve_texture(a.view) {
        Ok(t) => t,
        Err(e) => { return Some(e); },
    };
    match a.resolve_target {
        Some(target) => {
            if reg.resolve_texture(target).is_err() {
                return Some(CommandError::InvalidHandle);
            }
        },
        None => {},
    }
    if !usage_allows(t.usage, USAGE_RENDER_ATTACHMENT) {
        return Some(CommandError::UsageViolation);
    }
    let channel = a.channel.check(ChannelKind::Color);
    if channel.is_some() {
        return channel;
    }
    if t.size != first.size || t.sample_count != first.sample_count {
        return Some(CommandError::FormatMismatch);
    }
    None
}

/// Decides [`depth_stencil_error`].
pub fn check_depth_stencil(reg: &Registry, a: &DepthStencilAttachment, first: Option<TextureInfo>)
    -> (r: Option<CommandError>)
    requires
        reg.wf(),
    ensures
        r == depth_stencil_error(reg, *a, first),
{
    let t = match reg.resolve_texture(a.view) {
        Ok(t) => t,
        Err(e) => { return Some(e); },
    };
    if !usage_allows(t.usage, USAGE_RENDER_ATTACHMENT) {
        return Some(CommandError::UsageViolation);
    }
    let depth = a.depth.check(ChannelKind::Depth);
    if depth.is_some() {
        return depth;
    }
    let stencil = a.stencil.check(ChannelKind::Stencil);
    if stencil.is_some() {
        return stencil;
    }
    match first {
        Some(f) => {
            if f.size != t.size {
                return Some(CommandError::FormatMismatch);
            }
        },
        None => {},
    }
    None
}

/// Decides [`render_pass_error`].
pub fn check_render_pass(reg: &Registry, desc: &RenderPassDescriptor) -> (r: Option<CommandError>)
    requires
        reg.wf(),
    ensures
        r == render_pass_error(reg, *desc),
{
    let n: usize = desc.color_attachments.len();
    if n > MAX_COLOR_ATTACHMENTS {
        return Some(CommandError::OutOfBounds);
    }
    let mut first: Option<TextureInfo> = None;
    if n > 0 {
        let t = match reg.resolve_texture(desc.color_attachments[0].view) {
            Ok(t) => t,
            Err(e) => {
                proof {
                    reveal_with_fuel(colors_error, 2);
                    assert(colors_error(reg, desc.color_attachments@, 1) == Some(e));
                    lemma_colors_error_stays(reg, desc.color_attachments@, 1, n as nat);
                }
                return Some(e);
            },
        };
        first = Some(t);
        let mut i: usize = 0;
        while i < n
            invariant
                reg.wf(),
                i <= n,
                n == desc.color_attachments@.len(),
                n <= MAX_COLOR_ATTACHMENTS,
                reg.texture(desc.color_attachments@[0].view) == Some(t),
                colors_error(reg, desc.color_attachments@, i as nat) is None,
            decreases n - i,
        {
            let check = check_color_attachment(reg, &desc.color_attachments[i], &t);
            if check.is_some() {
                assert(colors_error(reg, desc.color_attachments@, (i + 1) as nat) == check);
                proof {
                    lemma_colors_error_stays(reg, desc.color_attachments@, (i + 1) as nat, n as nat);
                }
                return check;
            }
            i = i + 1;
        }
    }
    match &desc.depth_stencil_attachment {
        Some(d) => check_depth_stencil(reg, d, first),
        None => None,
    }
}

/// An error among the first `n` attachments is the error among any more.
pub proof fn lemma_colors_error_stays(reg: &Registry, atts: Seq<ColorAttachment>, n: nat, m: nat)
    requires
        n <= m <= atts.len(),
        colors_error(reg, atts, n) is Some,
    ensures
        colors_error(reg, atts, m) == colors_error(reg, atts, n),
    decreases m,
{
    if n < m {
        lemma_colors_error_stays(reg, atts, n, (m - 1) as nat);
    }
}

/// A render pass as contracts see it.
pub struct RenderPassView {
    /// The encoder that the pass locks.
    pub parent: u32,
    /// The attachments, which never change.
    pub descriptor: RenderPassDescriptor,
    /// The size of the attachments.
    pub width: u32,
    pub height: u32,
    pub commands: Seq<Command>,
    pub pipeline: Option<ResourceId>,
    pub index_buffer_set: bool,
    /// Whether a pipeline that writes depth was ever bound.
    pub depth_write_bound: bool,
    /// The first error the pass met.
    pub error: Option<CommandError>,
}

impl RenderPassView {
    pub open spec fn fresh(reg: &Registry, parent: u32, descriptor: RenderPassDescriptor)
        -> RenderPassView {
        let (width, height) = match reference_texture(reg, descriptor) {
            Some(t) => (t.size.width, t.size.height),
            None => (0u32, 0u32),
        };
        RenderPassView {
            parent,
            descriptor,
            width,
            height,
            commands: Seq::empty(),
            pipeline: None,
            index_buffer_set: false,
            depth_write_bound: false,
            error: None,
        }
    }

    /// Whether the depth of the pass may only be read.
    pub open spec fn depth_read_only(self) -> bool {
        self.descriptor.depth_stencil_attachment matches Some(d) && d.depth.read_only
    }

    /// The pass after an operation: a command more, or an error noted.
    pub open spec fn noted(self, check: Option<CommandError>, cmd: Command) -> RenderPassView {
        match check {
            Some(_) => RenderPassView { error: first_error(self.error, check), ..self },
            None => RenderPassView { commands: self.commands.push(cmd), ..self },
        }
    }

    pub open spec fn after_set_pipeline(self, reg: &Registry, id: ResourceId) -> RenderPassView {
        let check = pipeline_error(reg, id, true);
        let next = self.noted(check, Command::SetPipeline(id));
        if check is None {
            RenderPassView {
                pipeline: Some(id),
                depth_write_bound: self.depth_write_bound || reg.pipeline(id).unwrap().depth_write,
                ..next
            }
        } else {
            next
        }
    }

    pub open spec fn after_set_bind_group(
        self,
        reg: &Registry,
        index: u32,
        group: ResourceId,
        dynamic_offsets: Vec<u32>,
    ) -> RenderPassView {
        let check = bind_group_error(reg, self.pipeline, index, group, dynamic_offsets@.len());
        RenderPassView {
            pipeline: pipeline_after_bind(self.pipeline, check),
            ..self.noted(check, Command::SetBindGroup { index, group, dynamic_offsets })
        }
    }

    pub open spec fn after_set_index_buffer(
        self,
        reg: &Registry,
        buffer: ResourceId,
        format: IndexFormat,
        offset: u64,
        size: u64,
    ) -> RenderPassView {
        let check = binding_error(reg, buffer, USAGE_INDEX, offset, size);
        RenderPassView {
            index_buffer_set: self.index_buffer_set || check is None,
            ..self.noted(check, Command::SetIndexBuffer { buffer, format, offset, size })
        }
    }

    /// A draw needs a pipeline.
    pub open spec fn draw_error(self) -> Option<CommandError> {
        if self.pipeline is None {
            Some(CommandError::NoPipelineBound)
        } else {
            None
        }
    }

    /// An indexed draw needs an index buffer, and a pipeline.
    pub open spec fn draw_indexed_error(self) -> Option<CommandError> {
        if !self.index_buffer_set {
            Some(CommandError::NoIndexBuffer)
        } else {
            self.draw_error()
        }
    }

    /// A scissor rectangle lies within the attachments.
    pub open spec fn scissor_error(self, x: u32, y: u32, w: u32, h: u32) -> Option<CommandError> {
        if x + w > self.width || y + h > self.height {
            Some(CommandError::OutOfBounds)
        } else {
            None
        }
    }

    /// What the end of the pass reports: the first error it met, else that a
    /// pipeline which writes depth was bound though depth is read-only.
    pub open spec fn end_error(self) -> Option<CommandError> {
        if self.error is Some {
            self.error
        } else if self.depth_read_only() && self.depth_write_bound {
            Some(CommandError::ReadOnlyAttachmentViolation)
        } else {
            None
        }
    }
}

/// Records the commands of one render pass.
pub struct RenderPass {
    parent: u32,
    descriptor: RenderPassDescriptor,
    width: u32,
    height: u32,
    commands: Vec<Command>,
    pipeline: Option<ResourceId>,
    index_buffer_set: bool,
    depth_write_bound: bool,
    error: Option<CommandError>,
}

impl View for RenderPass {
    type V = RenderPassView;

    closed spec fn view(&self) -> RenderPassView {
        RenderPassView {
            parent: self.parent,
            descriptor: self.descriptor,
            width: self.width,
            height: self.height,
            commands: self.commands@,
            pipeline: self.pipeline,
            index_buffer_set: self.index_buffer_set,
            depth_write_bound: self.depth_write_bound,
            error: self.error,
        }
    }
}

impl CommandEncoder {
    /// Opens a render pass on the given attachments, which locks the encoder
    /// until the pass ends. Attachments that do not validate poison the
    /// encoder.
    pub fn begin_render_pass(&mut self, reg: &Registry, descriptor: RenderPassDescriptor) -> (r:
        Result<RenderPass, CommandError>)
        requires
            old(self).wf(),
            reg.wf(),
        ensures
            final(self).wf(),
            final(self)@ == old(self)@.after_begin(render_pass_error(reg, descriptor)),
            match r {
                Ok(pass) => old(self)@.op_result(render_pass_error(reg, descriptor)) is Ok
                    && pass@ == RenderPassView::fresh(reg, old(self)@.id, descriptor),
                Err(e) => old(self)@.op_result(render_pass_error(reg, descriptor)) == Err::<
                    (),
                    CommandError,
                >(e),
            },
    {
        if let Some(e) = self.refusal() {
            return Err(e);
        }
        let check = check_render_pass(reg, &descriptor);
        match self.begin(check) {
            Ok(()) => {
                let mut width: u32 = 0;
                let mut height: u32 = 0;
                let view: Option<ResourceId> = if descriptor.color_attachments.len() > 0 {
                    Some(descriptor.color_attachments[0].view)
                } else {
                    match &descriptor.depth_stencil_attachment {
                        Some(d) => Some(d.view),
                        None => None,
                    }
                };
                if let Some(id) = view {
                    if let Ok(t) = reg.resolve_texture(id) {
                        width = t.size.width;
                        height = t.size.height;
                    }
                }
                Ok(
                    RenderPass {
                        parent: self.id(),
                        descriptor,
                        width,
                        height,
                        commands: Vec::new(),
                        pipeline: None,
                        index_buffer_set: false,
                        depth_write_bound: false,
                        error: None,
                    },
                )
            },
            Err(e) => Err(e),
        }
    }
}

impl RenderPass {
    pub fn parent_id(&self) -> (r: u32)
        ensures
            r == self@.parent,
    {
        self.parent
    }

    fn note(&mut self, check: Option<CommandError>, cmd: Command) -> (r: Result<(), CommandError>)
        ensures
            r == result_of(check),
            final(self)@ == old(self)@.noted(check, cmd),
    {
        match check {
            Some(e) => {
                if self.error.is_none() {
                    self.error = Some(e);
                }
                Err(e)
            },
            None => {
                self.commands.push(cmd);
                Ok(())
            },
        }
    }

    /// Binds a render pipeline.
    pub fn set_pipeline(&mut self, reg: &Registry, id: ResourceId) -> (r: Result<(), CommandError>)
        requires
            reg.wf(),
        ensures
            r == result_of(pipeline_error(reg, id, true)),
            final(self)@ == old(self)@.after_set_pipeline(reg, id),
    {
        match check_pipeline(reg, id, true) {
            Ok(writes_depth) => {
                self.pipeline = Some(id);
                self.depth_write_bound = self.depth_write_bound || writes_depth;
                self.note(None, Command::SetPipeline(id))
            },
            Err(e) => self.note(Some(e), Command::SetPipeline(id)),
        }
    }

    /// Sets a bind group. One whose layout the bound pipeline does not
    /// expect at `index` unbinds the pipeline.
    pub fn set_bind_group(
        &mut self,
        reg: &Registry,
        index: u32,
        group: ResourceId,
        dynamic_offsets: Vec<u32>,
    ) -> (r: Result<(), CommandError>)
        requires
            reg.wf(),
        ensures
            r == result_of(
                bind_group_error(reg, old(self)@.pipeline, index, group, dynamic_offsets@.len()),
            ),
            final(self)@ == old(self)@.after_set_bind_group(reg, index, group, dynamic_offsets),
    {
        let check = check_bind_group(reg, self.pipeline, index, group, dynamic_offsets.len());
        if let Some(CommandError::LayoutMismatch) = check {
            self.pipeline = None;
        }
        self.note(check, Command::SetBindGroup { index, group, dynamic_offsets })
    }

    /// Binds `size` bytes of a buffer, from `offset`, as index buffer. A size
    /// of zero stands for the rest of the buffer, so only `offset` is held
    /// against the buffer's size.
    pub fn set_index_buffer(
        &mut self,
        reg: &Registry,
        buffer: ResourceId,
        format: IndexFormat,
        offset: u64,
        size: u64,
    ) -> (r: Result<(), CommandError>)
        requires
            reg.wf(),
        ensures
            r == result_of(binding_error(reg, buffer, USAGE_INDEX, offset, size)),
            final(self)@ == old(self)@.after_set_index_buffer(reg, buffer, format, offset, size),
    {
        let check = check_binding(reg, buffer, USAGE_INDEX, offset, size);
        if check.is_none() {
            self.index_buffer_set = true;
        }
        self.note(check, Command::SetIndexBuffer { buffer, format, offset, size })
    }

    /// Binds `size` bytes of a buffer, from `offset`, as vertex buffer `slot`.
    /// A size of zero stands for the rest of the buffer.
    pub fn set_vertex_buffer(
        &mut self,
        reg: &Registry,
        slot: u32,
        buffer: ResourceId,
        offset: u64,
        size: u64,
    ) -> (r: Result<(), CommandError>)
        requires
            reg.wf(),
        ensures
            r == result_of(binding_error(reg, buffer, USAGE_VERTEX, offset, size)),
            final(self)@ == old(self)@.noted(
                binding_error(reg, buffer, USAGE_VERTEX, offset, size),
                Command::SetVertexBuffer { slot, buffer, offset, size },
            ),
    {
        let check = check_binding(reg, buffer, USAGE_VERTEX, offset, size);
        self.note(check, Command::SetVertexBuffer { slot, buffer, offset, size })
    }

    pub fn draw(
        &mut self,
        vertex_count: u32,
        instance_count: u32,
        first_vertex: u32,
        first_instance: u32,
    ) -> (r: Result<(), CommandError>)
        ensures
            r == result_of(old(self)@.draw_error()),
            final(self)@ == old(self)@.noted(
                old(self)@.draw_error(),
                Command::Draw { vertex_count, instance_count, first_vertex, first_instance },
            ),
    {
        let check = if self.pipeline.is_none() {
            Some(CommandError::NoPipelineBound)
        } else {
            None
        };
        self.note(
            check,
            Command::Draw { vertex_count, instance_count, first_vertex, first_instance },
        )
    }

    pub fn draw_indexed(
        &mut self,
        index_count: u32,
        instance_count: u32,
        first_index: u32,
        base_vertex: i32,
        first_instance: u32,
    ) -> (r: Result<(), CommandError>)
        ensures
            r == result_of(old(self)@.draw_indexed_error()),
            final(self)@ == old(self)@.noted(
                old(self)@.draw_indexed_error(),
                Command::DrawIndexed {
                    index_count,
                    instance_count,
                    first_index,
                    base_vertex,
                    first_instance,
                },
            ),
    {
        let check = if !self.index_buffer_set {
            Some(CommandError::NoIndexBuffer)
        } else if self.pipeline.is_none() {
            Some(CommandError::NoPipelineBound)
        } else {
            None
        };
        self.note(
            check,
            Command::DrawIndexed {
                index_count,
                instance_count,
                first_index,
                base_vertex,
                first_instance,
            },
        )
    }

    /// Records a viewport. Each argument is the bit pattern of an IEEE 754
    /// single, which is stored as it comes.
    pub fn set_viewport(&mut self, x: u32, y: u32, w: u32, h: u32, depth_min: u32, depth_max: u32)
        -> (r: Result<(), CommandError>)
        ensures
            r is Ok,
            final(self)@ == old(self)@.noted(
                None,
                Command::SetViewport { x, y, w, h, depth_min, depth_max },
            ),
    {
        self.note(None, Command::SetViewport { x, y, w, h, depth_min, depth_max })
    }

    /// Records a scissor rectangle, which must lie within the attachments.
    pub fn set_scissor_rect(&mut self, x: u32, y: u32, w: u32, h: u32) -> (r: Result<
        (),
        CommandError,
    >)
        ensures
            r == result_of(old(self)@.scissor_error(x, y, w, h)),
            final(self)@ == old(self)@.noted(
                old(self)@.scissor_error(x, y, w, h),
                Command::SetScissorRect { x, y, w, h },
            ),
    {
        let check = if w > self.width || x > self.width - w || h > self.height || y > self.height
            - h {
            Some(CommandError::OutOfBounds)
        } else {
            None
        };
        self.note(check, Command::SetScissorRect { x, y, w, h })
    }

    pub fn set_blend_color(&mut self, color: &Color) -> (r: Result<(), CommandError>)
        ensures
            r is Ok,
            final(self)@ == old(self)@.noted(None, Command::SetBlendColor(*color)),
    {
        self.note(None, Command::SetBlendColor(*color))
    }

    pub fn set_stencil_reference(&mut self, reference: u32) -> (r: Result<(), CommandError>)
        ensures
            r is Ok,
            final(self)@ == old(self)@.noted(None, Command::SetStencilReference(reference)),
    {
        self.note(None, Command::SetStencilReference(reference))
    }

    /// Records bytes pushed at `offset` for the stages of `stages`. Some
    /// push-constant range of the bound pipeline must cover them for all of
    /// these stages.
    pub fn set_push_constants(&mut self, reg: &Registry, stages: u32, offset: u32, data: Vec<u8>)
        -> (r: Result<(), CommandError>)
        requires
            reg.wf(),
        ensures
            r == result_of(
                push_constant_error(reg, old(self)@.pipeline, stages, offset, data@.len()),
            ),
            final(self)@ == old(self)@.noted(
                push_constant_error(reg, old(self)@.pipeline, stages, offset, data@.len()),
                Command::SetPushConstants { stages, offset, data },
            ),
    {
        let check = check_push_constants(reg, self.pipeline, stages, offset, data.len());
        self.note(check, Command::SetPushConstants { stages, offset, data })
    }

    fn end_check(&self) -> (r: Option<CommandError>)
        ensures
            r == self@.end_error(),
    {
        if self.error.is_some() {
            return self.error;
        }
        let read_only = match &self.descriptor.depth_stencil_attachment {
            Some(d) => d.depth.read_only,
            None => false,
        };
        if read_only && self.depth_write_bound {
            Some(CommandError::ReadOnlyAttachmentViolation)
        } else {
            None
        }
    }

    /// Ends the pass and hands its commands to `encoder`, which must be the
    /// encoder that the pass locks. What [`RenderPassView::end_error`]
    /// reports poisons the encoder.
    pub fn end(self, encoder: &mut CommandEncoder) -> (r: Result<u32, CommandError>)
        requires
            old(encoder).wf(),
        ensures
            final(encoder).wf(),
            r == old(encoder)@.end_result(self@.parent, self@.end_error()),
            final(encoder)@ == old(encoder)@.after_end(
                self@.parent,
                Command::BeginRenderPass(self@.descriptor),
                self@.commands,
                self@.end_error(),
            ),
    {
        let check = self.end_check();
        encoder.end(self.parent, Command::BeginRenderPass(self.descriptor), self.commands, check)
    }
}

} // verus!

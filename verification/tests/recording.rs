use gpu_commands::buffer::CommandBuffer;
use gpu_commands::command::{
    map_index_format, map_load_op, map_store_op, ChannelKind, ClearValue, ColorAttachment, Command,
    DepthStencilAttachment, IndexFormat, LoadOp, PassChannel, RenderPassDescriptor, StoreOp,
    DEPTH_ONE_BITS,
};
use gpu_commands::encoder::{CommandEncoder, EncoderState};
use gpu_commands::error::CommandError;
use gpu_commands::geometry::{
    mip_extent, Color, Extent3d, ImageCopyBuffer, ImageCopyTexture, ImageDataLayout, Origin3d,
};
use gpu_commands::native::{
    map_extent3d, map_image_copy_buffer, map_image_copy_texture, map_origin3d,
    map_texture_data_layout, WGPUExtent3D, WGPUImageCopyBuffer, WGPUImageCopyTexture,
    WGPUOrigin3D, WGPUTextureDataLayout,
};
use gpu_commands::pass::{stage_mask, ALL_STAGES};
use gpu_commands::registry::{
    BindGroupInfo, BufferInfo, PipelineInfo, PushConstantRange, Registry, ResourceId,
    ResourceMetadata, TextureFormat, TextureInfo, USAGE_COPY_DST, USAGE_COPY_SRC, USAGE_INDEX,
    USAGE_RENDER_ATTACHMENT, USAGE_VERTEX,
};

fn buffer(reg: &mut Registry, size: u64, usage: u32) -> ResourceId {
    reg.create(ResourceMetadata::Buffer(BufferInfo { size, usage })).unwrap()
}

fn rgba8() -> TextureFormat {
    TextureFormat { code: 1, block_width: 1, block_height: 1, block_bytes: 4 }
}

fn bc1() -> TextureFormat {
    TextureFormat { code: 2, block_width: 4, block_height: 4, block_bytes: 8 }
}

fn texture(reg: &mut Registry, w: u32, h: u32, mips: u32, format: TextureFormat) -> ResourceId {
    reg.create(ResourceMetadata::Texture(TextureInfo {
        size: Extent3d { width: w, height: h, depth_or_array_layers: 1 },
        mip_level_count: mips,
        sample_count: 1,
        format,
        usage: USAGE_COPY_SRC | USAGE_COPY_DST | USAGE_RENDER_ATTACHMENT,
    }))
    .unwrap()
}

fn pipeline(reg: &mut Registry, render: bool, depth_write: bool) -> ResourceId {
    reg.create(ResourceMetadata::Pipeline(PipelineInfo {
        is_render: render,
        bind_group_layouts: vec![10, 11],
        push_constant_ranges: vec![PushConstantRange { stages: 3, start: 0, end: 64 }],
        depth_write,
    }))
    .unwrap()
}

fn bind_group(reg: &mut Registry, layout: u32, dynamic: u32) -> ResourceId {
    reg.create(ResourceMetadata::BindGroup(BindGroupInfo { layout, dynamic_binding_count: dynamic }))
        .unwrap()
}

fn channel(load_op: LoadOp, clear_value: ClearValue, read_only: bool) -> PassChannel {
    PassChannel {
        load_op,
        store_op: if read_only { StoreOp::Clear } else { StoreOp::Store },
        clear_value,
        read_only,
    }
}

fn black() -> ClearValue {
    ClearValue::Color(Color { r_bits: 0, g_bits: 0, b_bits: 0, a_bits: 0x3FF0_0000_0000_0000 })
}

fn color_attachment(view: ResourceId) -> ColorAttachment {
    ColorAttachment { view, resolve_target: None, channel: channel(LoadOp::Clear, black(), false) }
}

fn depth_attachment(view: ResourceId, read_only: bool) -> DepthStencilAttachment {
    DepthStencilAttachment {
        view,
        depth: channel(LoadOp::Load, ClearValue::Depth(0), read_only),
        stencil: channel(LoadOp::Load, ClearValue::Stencil(0), false),
    }
}

fn at(texture: ResourceId, mip_level: u32, x: u32, y: u32) -> ImageCopyTexture {
    ImageCopyTexture { texture, mip_level, origin: Origin3d { x, y, z: 0 } }
}

fn extent(w: u32, h: u32) -> Extent3d {
    Extent3d { width: w, height: h, depth_or_array_layers: 1 }
}

fn expect_buffer(r: Result<CommandBuffer, CommandError>) -> CommandBuffer {
    match r {
        Ok(b) => b,
        Err(e) => panic!("finish failed: {:?}", e),
    }
}

fn expect_error(r: Result<CommandBuffer, CommandError>) -> CommandError {
    match r {
        Ok(_) => panic!("finish handed out a buffer"),
        Err(e) => e,
    }
}

#[test]
fn registry_resolves_what_was_created() {
    let mut reg = Registry::new();
    let a = buffer(&mut reg, 8, USAGE_COPY_SRC);
    let b = buffer(&mut reg, 16, USAGE_COPY_DST);
    assert_ne!(a, b);
    assert_eq!(
        reg.resolve(a),
        Ok(&ResourceMetadata::Buffer(BufferInfo { size: 8, usage: USAGE_COPY_SRC }))
    );
    assert_eq!(reg.resolve_buffer(b), Ok(BufferInfo { size: 16, usage: USAGE_COPY_DST }));
    assert_eq!(reg.resolve_texture(a), Err(CommandError::InvalidHandle));
}

#[test]
fn registry_rejects_unknown_handle() {
    let reg = Registry::new();
    assert_eq!(
        reg.resolve(ResourceId { index: 0, generation: 0 }),
        Err(CommandError::InvalidHandle)
    );
}

#[test]
fn registry_destroyed_handle_stays_dead_when_slot_is_reused() {
    let mut reg = Registry::new();
    let a = buffer(&mut reg, 8, USAGE_COPY_SRC);
    assert_eq!(reg.destroy(a), Ok(()));
    assert_eq!(reg.resolve(a), Err(CommandError::InvalidHandle));
    assert_eq!(reg.destroy(a), Err(CommandError::InvalidHandle));
    let b = buffer(&mut reg, 32, USAGE_COPY_DST);
    assert_eq!(b.index, a.index);
    assert_eq!(b.generation, a.generation + 1);
    assert_eq!(reg.resolve(a), Err(CommandError::InvalidHandle));
    assert_eq!(reg.resolve_buffer(b), Ok(BufferInfo { size: 32, usage: USAGE_COPY_DST }));
}

#[test]
fn error_codes_are_distinct_and_nonzero() {
    let all = [
        CommandError::InvalidHandle,
        CommandError::OutOfBounds,
        CommandError::Overlap,
        CommandError::UsageViolation,
        CommandError::InvalidEncoderState,
        CommandError::EncoderPoisoned,
        CommandError::NoPipelineBound,
        CommandError::LayoutMismatch,
        CommandError::DynamicOffsetCountMismatch,
        CommandError::NoIndexBuffer,
        CommandError::RangeNotInPipelineLayout,
        CommandError::ReadOnlyAttachmentViolation,
        CommandError::FormatMismatch,
    ];
    for (i, e) in all.iter().enumerate() {
        assert_eq!(e.code(), i as u32 + 1);
    }
}

#[test]
fn copy_of_zero_bytes_is_a_no_op() {
    let mut reg = Registry::new();
    let a = buffer(&mut reg, 8, USAGE_COPY_SRC);
    let b = buffer(&mut reg, 8, USAGE_COPY_DST);
    let mut e = CommandEncoder::new(1);
    assert_eq!(e.copy_buffer_to_buffer(&reg, a, 8, b, 8, 0), Ok(()));
    assert_eq!(e.copy_buffer_to_buffer(&reg, a, 8, b, 8, 0), Ok(()));
    assert_eq!(e.len(), 0);
    assert_eq!(e.state(), EncoderState::Recording);
    assert_eq!(expect_buffer(e.finish()).len(), 0);
}

#[test]
fn copy_within_one_buffer_of_zero_bytes_does_not_overlap() {
    let mut reg = Registry::new();
    let a = buffer(&mut reg, 8, USAGE_COPY_SRC | USAGE_COPY_DST);
    let mut e = CommandEncoder::new(1);
    assert_eq!(e.copy_buffer_to_buffer(&reg, a, 4, a, 4, 0), Ok(()));
    assert_eq!(e.len(), 0);
}

#[test]
fn copy_past_source_end_poisons_and_finish_reports_it() {
    let mut reg = Registry::new();
    let a = buffer(&mut reg, 8, USAGE_COPY_SRC);
    let b = buffer(&mut reg, 64, USAGE_COPY_DST);
    let mut e = CommandEncoder::new(1);
    assert_eq!(e.copy_buffer_to_buffer(&reg, a, 0, b, 0, 16), Err(CommandError::OutOfBounds));
    assert_eq!(e.state(), EncoderState::Invalid);
    assert_eq!(e.error(), Some(CommandError::OutOfBounds));
    assert_eq!(expect_error(e.finish()), CommandError::OutOfBounds);
}

#[test]
fn copy_with_offsets_that_overflow_is_out_of_bounds() {
    let mut reg = Registry::new();
    let a = buffer(&mut reg, 8, USAGE_COPY_SRC);
    let b = buffer(&mut reg, 8, USAGE_COPY_DST);
    let mut e = CommandEncoder::new(1);
    assert_eq!(
        e.copy_buffer_to_buffer(&reg, a, u64::MAX, b, 0, 2),
        Err(CommandError::OutOfBounds)
    );
}

#[test]
fn copy_past_destination_end_is_out_of_bounds() {
    let mut reg = Registry::new();
    let a = buffer(&mut reg, 64, USAGE_COPY_SRC);
    let b = buffer(&mut reg, 8, USAGE_COPY_DST);
    let mut e = CommandEncoder::new(1);
    assert_eq!(e.copy_buffer_to_buffer(&reg, a, 0, b, 4, 8), Err(CommandError::OutOfBounds));
}

#[test]
fn copy_that_overlaps_itself_is_refused() {
    let mut reg = Registry::new();
    let a = buffer(&mut reg, 64, USAGE_COPY_SRC | USAGE_COPY_DST);
    let mut e = CommandEncoder::new(1);
    assert_eq!(e.copy_buffer_to_buffer(&reg, a, 0, a, 8, 8), Ok(()));
    assert_eq!(e.copy_buffer_to_buffer(&reg, a, 0, a, 7, 8), Err(CommandError::Overlap));
    assert_eq!(expect_error(e.finish()), CommandError::Overlap);
}

#[test]
fn copy_without_usage_flag_is_refused() {
    let mut reg = Registry::new();
    let a = buffer(&mut reg, 64, USAGE_COPY_DST);
    let b = buffer(&mut reg, 64, USAGE_COPY_DST);
    let mut e = CommandEncoder::new(1);
    assert_eq!(e.copy_buffer_to_buffer(&reg, a, 0, b, 0, 8), Err(CommandError::UsageViolation));
}

#[test]
fn copy_from_destroyed_buffer_is_refused() {
    let mut reg = Registry::new();
    let a = buffer(&mut reg, 64, USAGE_COPY_SRC);
    let b = buffer(&mut reg, 64, USAGE_COPY_DST);
    assert_eq!(reg.destroy(a), Ok(()));
    let mut e = CommandEncoder::new(1);
    assert_eq!(e.copy_buffer_to_buffer(&reg, a, 0, b, 0, 8), Err(CommandError::InvalidHandle));
}

#[test]
fn poisoned_encoder_fails_fast_and_keeps_first_error() {
    let mut reg = Registry::new();
    let a = buffer(&mut reg, 8, USAGE_COPY_SRC);
    let b = buffer(&mut reg, 8, 0);
    let mut e = CommandEncoder::new(1);
    assert_eq!(e.copy_buffer_to_buffer(&reg, a, 0, b, 0, 9), Err(CommandError::OutOfBounds));
    assert_eq!(e.copy_buffer_to_buffer(&reg, a, 0, b, 0, 4), Err(CommandError::EncoderPoisoned));
    assert!(matches!(e.begin_compute_pass(), Err(CommandError::EncoderPoisoned)));
    assert_eq!(expect_error(e.finish()), CommandError::OutOfBounds);
    assert_eq!(expect_error(e.finish()), CommandError::OutOfBounds);
}

#[test]
fn finish_twice_is_refused() {
    let mut e = CommandEncoder::new(1);
    assert_eq!(expect_buffer(e.finish()).len(), 0);
    assert_eq!(e.state(), EncoderState::Finished);
    assert_eq!(expect_error(e.finish()), CommandError::InvalidEncoderState);
}

#[test]
fn open_pass_locks_the_encoder_until_it_ends() {
    let mut reg = Registry::new();
    let a = buffer(&mut reg, 8, USAGE_COPY_SRC);
    let b = buffer(&mut reg, 8, USAGE_COPY_DST);
    let mut e = CommandEncoder::new(7);
    let pass = e.begin_compute_pass().unwrap();
    assert_eq!(e.state(), EncoderState::Locked);
    assert_eq!(
        e.copy_buffer_to_buffer(&reg, a, 0, b, 0, 8),
        Err(CommandError::InvalidEncoderState)
    );
    assert!(matches!(e.begin_compute_pass(), Err(CommandError::InvalidEncoderState)));
    assert_eq!(expect_error(e.finish()), CommandError::InvalidEncoderState);
    assert_eq!(e.state(), EncoderState::Locked);
    assert_eq!(pass.end(&mut e), Ok(7));
    assert_eq!(e.state(), EncoderState::Recording);
    assert_eq!(e.copy_buffer_to_buffer(&reg, a, 0, b, 0, 8), Ok(()));
}

#[test]
fn pass_cannot_end_on_another_encoder() {
    let mut e = CommandEncoder::new(1);
    let mut other = CommandEncoder::new(2);
    let pass = e.begin_compute_pass().unwrap();
    assert_eq!(pass.parent_id(), 1);
    assert_eq!(pass.end(&mut other), Err(CommandError::InvalidEncoderState));
    assert_eq!(other.state(), EncoderState::Recording);
}

#[test]
fn n_copies_give_n_commands() {
    let mut reg = Registry::new();
    let a = buffer(&mut reg, 1024, USAGE_COPY_SRC);
    let b = buffer(&mut reg, 1024, USAGE_COPY_DST);
    for n in [0u64, 1, 5, 40] {
        let mut e = CommandEncoder::new(1);
        for i in 0..n {
            assert_eq!(e.copy_buffer_to_buffer(&reg, a, i, b, 2 * i, 4), Ok(()));
        }
        let cb = expect_buffer(e.finish());
        assert_eq!(cb.len() as u64, n);
        for i in 0..n {
            assert_eq!(
                cb.get(i as usize),
                Some(&Command::CopyBufferToBuffer {
                    src: a,
                    src_offset: i,
                    dst: b,
                    dst_offset: 2 * i,
                    size: 4
                })
            );
        }
        assert_eq!(cb.get(n as usize), None);
    }
}

#[test]
fn short_source_buffer_poisons_the_encoder() {
    let mut reg = Registry::new();
    let a = buffer(&mut reg, 8, USAGE_COPY_SRC);
    let b = buffer(&mut reg, 16, USAGE_COPY_DST);
    let mut e = CommandEncoder::new(1);
    assert_eq!(e.copy_buffer_to_buffer(&reg, a, 0, b, 0, 16), Err(CommandError::OutOfBounds));
    assert_eq!(e.state(), EncoderState::Invalid);
    assert!(matches!(e.finish(), Err(CommandError::OutOfBounds)));
}

#[test]
fn compute_pass_round_trip() {
    let mut reg = Registry::new();
    let p = pipeline(&mut reg, false, false);
    let mut e = CommandEncoder::new(3);
    let mut pass = e.begin_compute_pass().unwrap();
    assert_eq!(pass.set_pipeline(&reg, p), Ok(()));
    assert_eq!(pass.dispatch(1, 1, 1), Ok(()));
    assert_eq!(pass.end(&mut e), Ok(3));
    assert_eq!(e.state(), EncoderState::Recording);
    let mut cb = expect_buffer(e.finish());
    assert_eq!(cb.len(), 4);
    assert!(!cb.is_consumed());
    assert_eq!(
        cb.submit(),
        Ok(vec![
            Command::BeginComputePass,
            Command::SetPipeline(p),
            Command::Dispatch { x: 1, y: 1, z: 1 },
            Command::EndPass,
        ])
    );
    assert!(cb.is_consumed());
    assert_eq!(cb.submit(), Err(CommandError::InvalidHandle));
}

#[test]
fn dispatch_without_pipeline_poisons_at_pass_end() {
    let mut e = CommandEncoder::new(1);
    let mut pass = e.begin_compute_pass().unwrap();
    assert_eq!(pass.dispatch(1, 2, 3), Err(CommandError::NoPipelineBound));
    assert_eq!(e.state(), EncoderState::Locked);
    assert_eq!(pass.end(&mut e), Err(CommandError::NoPipelineBound));
    assert_eq!(e.state(), EncoderState::Invalid);
    assert_eq!(expect_error(e.finish()), CommandError::NoPipelineBound);
}

#[test]
fn compute_pass_refuses_render_pipeline() {
    let mut reg = Registry::new();
    let p = pipeline(&mut reg, true, false);
    let mut e = CommandEncoder::new(1);
    let mut pass = e.begin_compute_pass().unwrap();
    assert_eq!(pass.set_pipeline(&reg, p), Err(CommandError::InvalidHandle));
    assert_eq!(pass.dispatch(1, 1, 1), Err(CommandError::NoPipelineBound));
    assert_eq!(pass.end(&mut e), Err(CommandError::InvalidHandle));
}

#[test]
fn bind_group_layout_must_match_and_mismatch_unbinds_pipeline() {
    let mut reg = Registry::new();
    let p = pipeline(&mut reg, false, false);
    let good = bind_group(&mut reg, 11, 0);
    let bad = bind_group(&mut reg, 99, 0);
    let mut e = CommandEncoder::new(1);
    let mut pass = e.begin_compute_pass().unwrap();
    assert_eq!(pass.set_pipeline(&reg, p), Ok(()));
    assert_eq!(pass.set_bind_group(&reg, 1, good, vec![]), Ok(()));
    assert_eq!(pass.set_bind_group(&reg, 0, good, vec![]), Err(CommandError::LayoutMismatch));
    assert_eq!(pass.dispatch(1, 1, 1), Err(CommandError::NoPipelineBound));
    assert_eq!(pass.set_bind_group(&reg, 2, bad, vec![]), Ok(()));
    assert_eq!(pass.set_pipeline(&reg, p), Ok(()));
    assert_eq!(pass.set_bind_group(&reg, 2, good, vec![]), Err(CommandError::LayoutMismatch));
    assert_eq!(pass.end(&mut e), Err(CommandError::LayoutMismatch));
}

#[test]
fn dynamic_offset_count_must_match() {
    let mut reg = Registry::new();
    let g = bind_group(&mut reg, 10, 2);
    let mut e = CommandEncoder::new(1);
    let mut pass = e.begin_compute_pass().unwrap();
    assert_eq!(
        pass.set_bind_group(&reg, 0, g, vec![0]),
        Err(CommandError::DynamicOffsetCountMismatch)
    );
    assert_eq!(pass.set_bind_group(&reg, 0, g, vec![0, 256]), Ok(()));
    assert_eq!(pass.set_bind_group(&reg, 0, ResourceId { index: 77, generation: 0 }, vec![]),
        Err(CommandError::InvalidHandle));
}

fn simple_render_pass(
    reg: &mut Registry,
    e: &mut CommandEncoder,
    depth_read_only: Option<bool>,
) -> gpu_commands::render::RenderPass {
    let color = texture(reg, 64, 32, 1, rgba8());
    let depth = texture(reg, 64, 32, 1, rgba8());
    let desc = RenderPassDescriptor {
        color_attachments: vec![color_attachment(color)],
        depth_stencil_attachment: depth_read_only.map(|ro| depth_attachment(depth, ro)),
    };
    match e.begin_render_pass(reg, desc) {
        Ok(p) => p,
        Err(err) => panic!("render pass refused: {:?}", err),
    }
}

#[test]
fn read_only_depth_with_depth_writing_pipeline_fails_at_end_without_draw() {
    let mut reg = Registry::new();
    let p = pipeline(&mut reg, true, true);
    let mut e = CommandEncoder::new(1);
    let mut pass = simple_render_pass(&mut reg, &mut e, Some(true));
    assert_eq!(pass.set_pipeline(&reg, p), Ok(()));
    assert_eq!(pass.end(&mut e), Err(CommandError::ReadOnlyAttachmentViolation));
    assert_eq!(expect_error(e.finish()), CommandError::ReadOnlyAttachmentViolation);
}

#[test]
fn read_only_depth_violation_survives_rebinding() {
    let mut reg = Registry::new();
    let writer = pipeline(&mut reg, true, true);
    let reader = pipeline(&mut reg, true, false);
    let mut e = CommandEncoder::new(1);
    let mut pass = simple_render_pass(&mut reg, &mut e, Some(true));
    assert_eq!(pass.set_pipeline(&reg, writer), Ok(()));
    assert_eq!(pass.set_pipeline(&reg, reader), Ok(()));
    assert_eq!(pass.draw(3, 1, 0, 0), Ok(()));
    assert_eq!(pass.end(&mut e), Err(CommandError::ReadOnlyAttachmentViolation));
}

#[test]
fn writable_depth_with_depth_writing_pipeline_is_fine() {
    let mut reg = Registry::new();
    let p = pipeline(&mut reg, true, true);
    let mut e = CommandEncoder::new(5);
    let mut pass = simple_render_pass(&mut reg, &mut e, Some(false));
    assert_eq!(pass.set_pipeline(&reg, p), Ok(()));
    assert_eq!(pass.draw(3, 1, 0, 0), Ok(()));
    assert_eq!(pass.end(&mut e), Ok(5));
    let cb = expect_buffer(e.finish());
    assert_eq!(cb.len(), 4);
    assert!(matches!(cb.get(0), Some(Command::BeginRenderPass(_))));
    assert_eq!(
        cb.get(2),
        Some(&Command::Draw { vertex_count: 3, instance_count: 1, first_vertex: 0, first_instance: 0 })
    );
    assert_eq!(cb.get(3), Some(&Command::EndPass));
}

#[test]
fn draw_indexed_needs_index_buffer() {
    let mut reg = Registry::new();
    let p = pipeline(&mut reg, true, false);
    let ib = buffer(&mut reg, 64, USAGE_INDEX);
    let mut e = CommandEncoder::new(1);
    let mut pass = simple_render_pass(&mut reg, &mut e, None);
    assert_eq!(pass.set_pipeline(&reg, p), Ok(()));
    assert_eq!(pass.draw_indexed(6, 1, 0, -2, 0), Err(CommandError::NoIndexBuffer));
    assert_eq!(pass.set_index_buffer(&reg, ib, IndexFormat::Uint16, 0, 12), Ok(()));
    assert_eq!(pass.draw_indexed(6, 1, 0, -2, 0), Ok(()));
    assert_eq!(pass.end(&mut e), Err(CommandError::NoIndexBuffer));
}

#[test]
fn draw_indexed_after_set_index_buffer_succeeds() {
    let mut reg = Registry::new();
    let p = pipeline(&mut reg, true, false);
    let ib = buffer(&mut reg, 64, USAGE_INDEX);
    let mut e = CommandEncoder::new(1);
    let mut pass = simple_render_pass(&mut reg, &mut e, None);
    assert_eq!(pass.set_pipeline(&reg, p), Ok(()));
    assert_eq!(pass.set_index_buffer(&reg, ib, IndexFormat::Uint32, 8, 0), Ok(()));
    assert_eq!(pass.draw_indexed(6, 1, 0, 0, 0), Ok(()));
    assert_eq!(pass.end(&mut e), Ok(1));
    let cb = expect_buffer(e.finish());
    assert_eq!(
        cb.get(2),
        Some(&Command::SetIndexBuffer { buffer: ib, format: IndexFormat::Uint32, offset: 8, size: 0 })
    );
    assert_eq!(
        cb.get(3),
        Some(&Command::DrawIndexed {
            index_count: 6,
            instance_count: 1,
            first_index: 0,
            base_vertex: 0,
            first_instance: 0
        })
    );
}

#[test]
fn draw_without_pipeline_is_refused() {
    let mut reg = Registry::new();
    let mut e = CommandEncoder::new(1);
    let mut pass = simple_render_pass(&mut reg, &mut e, None);
    assert_eq!(pass.draw(3, 1, 0, 0), Err(CommandError::NoPipelineBound));
}

#[test]
fn vertex_and_index_buffers_are_validated() {
    let mut reg = Registry::new();
    let vb = buffer(&mut reg, 64, USAGE_VERTEX);
    let mut e = CommandEncoder::new(1);
    let mut pass = simple_render_pass(&mut reg, &mut e, None);
    assert_eq!(pass.set_vertex_buffer(&reg, 0, vb, 0, 64), Ok(()));
    assert_eq!(pass.set_vertex_buffer(&reg, 0, vb, 1, 64), Err(CommandError::OutOfBounds));
    assert_eq!(
        pass.set_index_buffer(&reg, vb, IndexFormat::Uint16, 0, 4),
        Err(CommandError::UsageViolation)
    );
    assert_eq!(pass.draw_indexed(1, 1, 0, 0, 0), Err(CommandError::NoIndexBuffer));
}

#[test]
fn scissor_must_lie_in_attachment() {
    let mut reg = Registry::new();
    let mut e = CommandEncoder::new(1);
    let mut pass = simple_render_pass(&mut reg, &mut e, None);
    assert_eq!(pass.set_scissor_rect(0, 0, 64, 32), Ok(()));
    assert_eq!(pass.set_scissor_rect(1, 0, 64, 32), Err(CommandError::OutOfBounds));
    assert_eq!(pass.set_scissor_rect(u32::MAX, 0, 2, 1), Err(CommandError::OutOfBounds));
}

#[test]
fn fixed_function_state_is_recorded() {
    let mut reg = Registry::new();
    let mut e = CommandEncoder::new(1);
    let mut pass = simple_render_pass(&mut reg, &mut e, None);
    let c = Color { r_bits: 1, g_bits: 2, b_bits: 3, a_bits: 4 };
    assert_eq!(pass.set_blend_color(&c), Ok(()));
    assert_eq!(pass.set_stencil_reference(9), Ok(()));
    assert_eq!(
        pass.set_viewport(0, 0, 64f32.to_bits(), 32f32.to_bits(), 0, 1f32.to_bits()),
        Ok(())
    );
    assert_eq!(pass.end(&mut e), Ok(1));
    let cb = expect_buffer(e.finish());
    assert_eq!(cb.len(), 5);
    assert_eq!(cb.get(1), Some(&Command::SetBlendColor(c)));
    assert_eq!(cb.get(2), Some(&Command::SetStencilReference(9)));
    assert_eq!(
        cb.get(3),
        Some(&Command::SetViewport {
            x: 0,
            y: 0,
            w: 0x4280_0000,
            h: 0x4200_0000,
            depth_min: 0,
            depth_max: DEPTH_ONE_BITS
        })
    );
}

#[test]
fn push_constants_need_a_covering_range() {
    let mut reg = Registry::new();
    let p = pipeline(&mut reg, true, false);
    let mut e = CommandEncoder::new(1);
    let mut pass = simple_render_pass(&mut reg, &mut e, None);
    assert_eq!(
        pass.set_push_constants(&reg, 1, 0, vec![0; 4]),
        Err(CommandError::NoPipelineBound)
    );
    assert_eq!(pass.set_pipeline(&reg, p), Ok(()));
    assert_eq!(pass.set_push_constants(&reg, 1, 0, vec![0; 64]), Ok(()));
    assert_eq!(pass.set_push_constants(&reg, 3, 60, vec![0; 4]), Ok(()));
    assert_eq!(
        pass.set_push_constants(&reg, 3, 61, vec![0; 4]),
        Err(CommandError::RangeNotInPipelineLayout)
    );
    assert_eq!(
        pass.set_push_constants(&reg, 4, 0, vec![0; 4]),
        Err(CommandError::RangeNotInPipelineLayout)
    );
}

#[test]
fn push_constants_refuse_unknown_stage_bits() {
    let mut reg = Registry::new();
    let p = reg
        .create(ResourceMetadata::Pipeline(PipelineInfo {
            is_render: true,
            bind_group_layouts: vec![],
            push_constant_ranges: vec![PushConstantRange { stages: u32::MAX, start: 0, end: 16 }],
            depth_write: false,
        }))
        .unwrap();
    let mut e = CommandEncoder::new(1);
    let mut pass = simple_render_pass(&mut reg, &mut e, None);
    assert_eq!(pass.set_pipeline(&reg, p), Ok(()));
    assert_eq!(pass.set_push_constants(&reg, 2, 0, vec![1, 2, 3, 4]), Ok(()));
    assert_eq!(
        pass.set_push_constants(&reg, 0x200, 0, vec![1, 2, 3, 4]),
        Err(CommandError::RangeNotInPipelineLayout)
    );
}

#[test]
fn stage_mask_knows_the_named_stages_only() {
    assert_eq!(ALL_STAGES, 0x1FF);
    assert_eq!(stage_mask(0), Some(0));
    assert_eq!(stage_mask(7), Some(7));
    assert_eq!(stage_mask(0x1FF), Some(0x1FF));
    assert_eq!(stage_mask(0x200), None);
    assert_eq!(stage_mask(0x8000_0001), None);
}

#[test]
fn render_pass_attachments_are_validated() {
    let mut reg = Registry::new();
    let small = texture(&mut reg, 16, 16, 1, rgba8());
    let large = texture(&mut reg, 32, 16, 1, rgba8());

    let mut e = CommandEncoder::new(1);
    let desc = RenderPassDescriptor {
        color_attachments: vec![color_attachment(small), color_attachment(large)],
        depth_stencil_attachment: None,
    };
    assert!(matches!(e.begin_render_pass(&reg, desc), Err(CommandError::FormatMismatch)));
    assert_eq!(e.state(), EncoderState::Invalid);

    let mut e = CommandEncoder::new(1);
    let desc = RenderPassDescriptor {
        color_attachments: vec![color_attachment(small)],
        depth_stencil_attachment: Some(depth_attachment(large, false)),
    };
    assert!(matches!(e.begin_render_pass(&reg, desc), Err(CommandError::FormatMismatch)));

    let mut e = CommandEncoder::new(1);
    let desc = RenderPassDescriptor {
        color_attachments: vec![color_attachment(small); 9],
        depth_stencil_attachment: None,
    };
    assert!(matches!(e.begin_render_pass(&reg, desc), Err(CommandError::OutOfBounds)));

    let mut e = CommandEncoder::new(1);
    let desc = RenderPassDescriptor {
        color_attachments: vec![color_attachment(small); 8],
        depth_stencil_attachment: None,
    };
    assert!(e.begin_render_pass(&reg, desc).is_ok());
    assert_eq!(e.state(), EncoderState::Locked);

    let mut e = CommandEncoder::new(1);
    let desc = RenderPassDescriptor {
        color_attachments: vec![color_attachment(ResourceId { index: 500, generation: 0 })],
        depth_stencil_attachment: None,
    };
    assert!(matches!(e.begin_render_pass(&reg, desc), Err(CommandError::InvalidHandle)));
}

#[test]
fn channel_clear_values_are_validated() {
    let depth_ok = channel(LoadOp::Clear, ClearValue::Depth(DEPTH_ONE_BITS), false);
    assert_eq!(depth_ok.check(ChannelKind::Depth), None);
    let depth_high = channel(LoadOp::Clear, ClearValue::Depth(DEPTH_ONE_BITS + 1), false);
    assert_eq!(depth_high.check(ChannelKind::Depth), Some(CommandError::FormatMismatch));
    let wrong_kind = channel(LoadOp::Clear, ClearValue::Stencil(0), false);
    assert_eq!(wrong_kind.check(ChannelKind::Color), Some(CommandError::FormatMismatch));
    let loaded = channel(LoadOp::Load, ClearValue::Stencil(0), false);
    assert_eq!(loaded.check(ChannelKind::Color), None);
    let writes = PassChannel {
        load_op: LoadOp::Load,
        store_op: StoreOp::Store,
        clear_value: ClearValue::Depth(0),
        read_only: true,
    };
    assert_eq!(writes.check(ChannelKind::Depth), Some(CommandError::ReadOnlyAttachmentViolation));

    let mut reg = Registry::new();
    let t = texture(&mut reg, 16, 16, 1, rgba8());
    let mut e = CommandEncoder::new(1);
    let desc = RenderPassDescriptor {
        color_attachments: vec![ColorAttachment {
            view: t,
            resolve_target: None,
            channel: wrong_kind,
        }],
        depth_stencil_attachment: None,
    };
    assert!(matches!(e.begin_render_pass(&reg, desc), Err(CommandError::FormatMismatch)));
}

#[test]
fn read_only_channel_that_stores_is_refused_at_begin() {
    let mut reg = Registry::new();
    let color = texture(&mut reg, 16, 16, 1, rgba8());
    let depth = texture(&mut reg, 16, 16, 1, rgba8());
    let mut attachment = depth_attachment(depth, true);
    attachment.depth.store_op = StoreOp::Store;
    let mut e = CommandEncoder::new(1);
    let desc = RenderPassDescriptor {
        color_attachments: vec![color_attachment(color)],
        depth_stencil_attachment: Some(attachment),
    };
    assert!(matches!(
        e.begin_render_pass(&reg, desc),
        Err(CommandError::ReadOnlyAttachmentViolation)
    ));
    assert_eq!(expect_error(e.finish()), CommandError::ReadOnlyAttachmentViolation);
}

#[test]
fn texture_copy_is_validated() {
    let mut reg = Registry::new();
    let a = texture(&mut reg, 64, 64, 3, rgba8());
    let b = texture(&mut reg, 64, 64, 3, rgba8());
    let c = texture(&mut reg, 64, 64, 1, bc1());

    let mut e = CommandEncoder::new(1);
    assert_eq!(e.copy_texture_to_texture(&reg, &at(a, 0, 0, 0), &at(b, 0, 32, 32), &extent(32, 32)), Ok(()));
    assert_eq!(e.copy_texture_to_texture(&reg, &at(a, 2, 0, 0), &at(b, 2, 0, 0), &extent(16, 16)), Ok(()));
    assert_eq!(e.len(), 2);
    assert_eq!(
        e.copy_texture_to_texture(&reg, &at(a, 2, 0, 0), &at(b, 2, 0, 0), &extent(17, 16)),
        Err(CommandError::OutOfBounds)
    );

    let mut e = CommandEncoder::new(1);
    assert_eq!(
        e.copy_texture_to_texture(&reg, &at(a, 3, 0, 0), &at(b, 0, 0, 0), &extent(1, 1)),
        Err(CommandError::OutOfBounds)
    );

    let mut e = CommandEncoder::new(1);
    assert_eq!(
        e.copy_texture_to_texture(&reg, &at(a, 0, 0, 0), &at(c, 0, 0, 0), &extent(4, 4)),
        Err(CommandError::FormatMismatch)
    );

    let mut e = CommandEncoder::new(1);
    assert_eq!(
        e.copy_texture_to_texture(&reg, &at(c, 0, 0, 0), &at(c, 0, 4, 4), &extent(6, 4)),
        Err(CommandError::FormatMismatch)
    );
}

#[test]
fn copy_of_empty_region_is_a_no_op() {
    let mut reg = Registry::new();
    let a = texture(&mut reg, 64, 64, 1, rgba8());
    let b = texture(&mut reg, 64, 64, 1, rgba8());
    let buf = buffer(&mut reg, 1024, USAGE_COPY_SRC | USAGE_COPY_DST);
    let side = ImageCopyBuffer {
        buffer: buf,
        layout: ImageDataLayout { offset: 0, bytes_per_row: None, rows_per_image: None },
    };
    let mut e = CommandEncoder::new(1);
    assert_eq!(e.copy_texture_to_texture(&reg, &at(a, 0, 64, 0), &at(b, 0, 0, 0), &extent(0, 8)), Ok(()));
    assert_eq!(e.copy_texture_to_buffer(&reg, &at(a, 0, 0, 0), &side, &extent(8, 0)), Ok(()));
    assert_eq!(
        e.copy_buffer_to_texture(
            &reg,
            &side,
            &at(a, 0, 0, 0),
            &Extent3d { width: 8, height: 8, depth_or_array_layers: 0 }
        ),
        Ok(())
    );
    assert_eq!(e.len(), 0);
    assert_eq!(e.state(), EncoderState::Recording);
    assert_eq!(
        e.copy_texture_to_texture(&reg, &at(a, 0, 65, 0), &at(b, 0, 0, 0), &extent(0, 8)),
        Err(CommandError::OutOfBounds)
    );
}

#[test]
fn buffer_texture_copy_is_validated() {
    let mut reg = Registry::new();
    let t = texture(&mut reg, 64, 64, 1, rgba8());
    let buf = buffer(&mut reg, 1 << 20, USAGE_COPY_SRC | USAGE_COPY_DST);
    let src_only = buffer(&mut reg, 1 << 20, USAGE_COPY_SRC);
    let layout = |offset, bytes_per_row| ImageDataLayout { offset, bytes_per_row, rows_per_image: None };

    let mut e = CommandEncoder::new(1);
    let good = ImageCopyBuffer { buffer: buf, layout: layout(8, Some(256)) };
    assert_eq!(e.copy_buffer_to_texture(&reg, &good, &at(t, 0, 0, 0), &extent(64, 64)), Ok(()));
    assert_eq!(e.copy_texture_to_buffer(&reg, &at(t, 0, 0, 0), &good, &extent(64, 64)), Ok(()));
    let cb = expect_buffer(e.finish());
    assert_eq!(
        cb.get(0),
        Some(&Command::CopyBufferToTexture { src: good, dst: at(t, 0, 0, 0), size: extent(64, 64) })
    );
    assert_eq!(
        cb.get(1),
        Some(&Command::CopyTextureToBuffer { src: at(t, 0, 0, 0), dst: good, size: extent(64, 64) })
    );

    let mut e = CommandEncoder::new(1);
    let odd_offset = ImageCopyBuffer { buffer: buf, layout: layout(2, None) };
    assert_eq!(
        e.copy_buffer_to_texture(&reg, &odd_offset, &at(t, 0, 0, 0), &extent(1, 1)),
        Err(CommandError::FormatMismatch)
    );

    let mut e = CommandEncoder::new(1);
    let odd_stride = ImageCopyBuffer { buffer: buf, layout: layout(0, Some(255)) };
    assert_eq!(
        e.copy_texture_to_buffer(&reg, &at(t, 0, 0, 0), &odd_stride, &extent(1, 1)),
        Err(CommandError::FormatMismatch)
    );

    let mut e = CommandEncoder::new(1);
    let read_only = ImageCopyBuffer { buffer: src_only, layout: layout(0, None) };
    assert_eq!(
        e.copy_texture_to_buffer(&reg, &at(t, 0, 0, 0), &read_only, &extent(1, 1)),
        Err(CommandError::UsageViolation)
    );

    let mut e = CommandEncoder::new(1);
    assert_eq!(
        e.copy_buffer_to_texture(&reg, &good, &at(buf, 0, 0, 0), &extent(1, 1)),
        Err(CommandError::InvalidHandle)
    );
}

#[test]
fn mip_extent_halves_and_stops_at_one() {
    assert_eq!(mip_extent(64, 0), 64);
    assert_eq!(mip_extent(64, 2), 16);
    assert_eq!(mip_extent(5, 1), 2);
    assert_eq!(mip_extent(64, 7), 1);
    assert_eq!(mip_extent(64, 40), 1);
    assert_eq!(mip_extent(0, 0), 1);
}

#[test]
fn native_records_are_mapped() {
    let e = map_extent3d(&WGPUExtent3D { width: 1, height: 2, depth: 3 });
    assert_eq!(e, Extent3d { width: 1, height: 2, depth_or_array_layers: 3 });
    let o = map_origin3d(&WGPUOrigin3D { x: 4, y: 5, z: 6 });
    assert_eq!(o, Origin3d { x: 4, y: 5, z: 6 });
    let id = ResourceId { index: 3, generation: 1 };
    let t = map_image_copy_texture(&WGPUImageCopyTexture {
        texture: id,
        mipLevel: 2,
        origin: WGPUOrigin3D { x: 4, y: 5, z: 6 },
    });
    assert_eq!(t, ImageCopyTexture { texture: id, mip_level: 2, origin: o });
    let l = map_texture_data_layout(&WGPUTextureDataLayout { offset: 16, bytesPerRow: 0, rowsPerImage: 8 });
    assert_eq!(l, ImageDataLayout { offset: 16, bytes_per_row: None, rows_per_image: Some(8) });
    let b = map_image_copy_buffer(&WGPUImageCopyBuffer {
        buffer: id,
        layout: WGPUTextureDataLayout { offset: 0, bytesPerRow: 256, rowsPerImage: 0 },
    });
    assert_eq!(
        b,
        ImageCopyBuffer {
            buffer: id,
            layout: ImageDataLayout { offset: 0, bytes_per_row: Some(256), rows_per_image: None }
        }
    );
}

#[test]
fn load_and_store_ops_are_mapped() {
    assert_eq!(map_load_op(0), Some(LoadOp::Clear));
    assert_eq!(map_load_op(1), Some(LoadOp::Load));
    assert_eq!(map_load_op(2), None);
    assert_eq!(map_store_op(0), Some(StoreOp::Store));
    assert_eq!(map_store_op(1), Some(StoreOp::Clear));
    assert_eq!(map_store_op(7), None);
    assert_eq!(map_index_format(0), None);
    assert_eq!(map_index_format(1), Some(IndexFormat::Uint16));
    assert_eq!(map_index_format(2), Some(IndexFormat::Uint32));
    assert_eq!(map_index_format(3), None);
}

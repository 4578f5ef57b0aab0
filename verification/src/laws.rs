//! What holds of the recording protocol as a whole, stated over the views
//! in which the contracts of the recording functions speak.
use vstd::prelude::*;
use crate::command::{Command, IndexFormat};
use crate::encoder::{region_command, BufferCopy, EncoderState, EncoderView};
use crate::geometry::Extent3d;
use crate::error::CommandError;
use crate::pass::binding_error;
use crate::registry::{Registry, ResourceId, USAGE_INDEX};
use crate::compute::ComputePassView;
use crate::pass::pipeline_error;
use crate::render::RenderPassView;

verus! {

/// A copy of no bytes that passes validation succeeds and leaves the encoder
/// as it was, so that repeating it changes nothing either.
pub proof fn law_empty_copy_changes_nothing(v: EncoderView, reg: &Registry, copy: BufferCopy)
    requires
        v.state == EncoderState::Recording,
        copy.size == 0,
        copy.error(reg) is None,
    ensures
        v.copy_result(reg, copy) is Ok,
        v.after_copy(reg, copy) == v,
        v.after_copy(reg, copy).after_copy(reg, copy) == v,
{
}

/// A copy of an empty region that passes validation succeeds and leaves the
/// encoder as it was, whichever command the copy would have recorded.
pub proof fn law_empty_region_changes_nothing(v: EncoderView, size: Extent3d, cmd: Command)
    requires
        v.state == EncoderState::Recording,
        size.empty(),
    ensures
        v.op_result(None) is Ok,
        v.after_op(None, region_command(size, cmd)) == v,
{
}

/// A copy that reads past the end of its source poisons a recording encoder,
/// and finishing it then fails with `OutOfBounds`.
pub proof fn law_source_overrun_poisons(v: EncoderView, reg: &Registry, copy: BufferCopy)
    requires
        v.state == EncoderState::Recording,
        reg.buffer(copy.src) matches Some(b) && copy.src_offset + copy.size > b.size,
    ensures
        v.copy_result(reg, copy) == Err::<(), CommandError>(CommandError::OutOfBounds),
        v.after_copy(reg, copy).state == EncoderState::Invalid,
        v.after_copy(reg, copy).finish_result() == Err::<Seq<Command>, CommandError>(
            CommandError::OutOfBounds,
        ),
{
}

/// While a pass is open, every operation on the encoder is refused with
/// `InvalidEncoderState` and changes nothing; once the pass has ended without
/// error, operations that validate succeed again.
pub proof fn law_pass_locks_encoder(
    v: EncoderView,
    check: Option<CommandError>,
    cmd: Option<Command>,
    begin: Command,
    body: Seq<Command>,
)
    requires
        v.state == EncoderState::Recording,
    ensures
        ({
            let locked = v.after_begin(None);
            let resumed = locked.after_end(v.id, begin, body, None);
            &&& locked.state == EncoderState::Locked
            &&& locked.op_result(check) == Err::<(), CommandError>(
                CommandError::InvalidEncoderState,
            )
            &&& locked.after_op(check, cmd) == locked
            &&& locked.after_begin(check) == locked
            &&& locked.finish_result() == Err::<Seq<Command>, CommandError>(
                CommandError::InvalidEncoderState,
            )
            &&& locked.after_finish() == locked
            &&& locked.end_result(v.id, None) == Ok::<u32, CommandError>(v.id)
            &&& resumed.state == EncoderState::Recording
            &&& resumed.op_result(None) is Ok
            &&& resumed.finish_result() is Ok
        }),
{
}

/// A poisoned encoder refuses every operation with `EncoderPoisoned`, stays
/// as it is, and reports on finishing the error that poisoned it.
pub proof fn law_poison_is_final(
    v: EncoderView,
    e: CommandError,
    check: Option<CommandError>,
    cmd: Option<Command>,
)
    requires
        v.state == EncoderState::Invalid,
        v.error == Some(e),
    ensures
        v.op_result(check) == Err::<(), CommandError>(CommandError::EncoderPoisoned),
        v.after_op(check, cmd) == v,
        v.after_begin(check) == v,
        v.finish_result() == Err::<Seq<Command>, CommandError>(e),
        v.after_finish() == v,
{
}

/// Binding a pipeline that writes depth in a pass whose depth is read-only
/// makes the end of the pass fail, whether or not anything is drawn: no
/// operation of a pass takes the mark back. Unless the pass met another
/// error first, the end reports `ReadOnlyAttachmentViolation`, which poisons
/// the encoder.
pub proof fn law_read_only_depth_is_kept(
    p: RenderPassView,
    reg: &Registry,
    id: ResourceId,
    encoder: EncoderView,
)
    requires
        p.depth_read_only(),
        reg.pipeline(id) matches Some(info) && info.is_render && info.depth_write,
        encoder.state == EncoderState::Locked,
        encoder.id == p.parent,
    ensures
        ({
            let bound = p.after_set_pipeline(reg, id);
            &&& bound.depth_write_bound
            &&& bound.end_error() is Some
            &&& p.error is None ==> bound.end_error() == Some(
                CommandError::ReadOnlyAttachmentViolation,
            )
            &&& encoder.end_result(bound.parent, bound.end_error()) is Err
            &&& encoder.after_end(
                bound.parent,
                Command::BeginRenderPass(bound.descriptor),
                bound.commands,
                bound.end_error(),
            ).state == EncoderState::Invalid
        }),
{
}

/// The mark that a depth-writing pipeline leaves survives every later
/// operation of the pass.
pub proof fn law_depth_write_mark_stays(
    p: RenderPassView,
    reg: &Registry,
    check: Option<CommandError>,
    cmd: Command,
    id: ResourceId,
    index: u32,
    offsets: Vec<u32>,
    format: IndexFormat,
    offset: u64,
    size: u64,
)
    requires
        p.depth_write_bound,
    ensures
        p.noted(check, cmd).depth_write_bound,
        p.after_set_pipeline(reg, id).depth_write_bound,
        p.after_set_bind_group(reg, index, id, offsets).depth_write_bound,
        p.after_set_index_buffer(reg, id, format, offset, size).depth_write_bound,
        p.noted(check, cmd).depth_read_only() == p.depth_read_only(),
        p.after_set_pipeline(reg, id).depth_read_only() == p.depth_read_only(),
        p.after_set_bind_group(reg, index, id, offsets).depth_read_only() == p.depth_read_only(),
        p.after_set_index_buffer(reg, id, format, offset, size).depth_read_only()
            == p.depth_read_only(),
{
}

/// The attachments of a render pass are those it began with, whatever is
/// recorded in it.
pub proof fn law_attachments_are_fixed(
    p: RenderPassView,
    reg: &Registry,
    check: Option<CommandError>,
    cmd: Command,
    id: ResourceId,
    index: u32,
    offsets: Vec<u32>,
    format: IndexFormat,
    offset: u64,
    size: u64,
)
    ensures
        p.noted(check, cmd).descriptor == p.descriptor,
        p.after_set_pipeline(reg, id).descriptor == p.descriptor,
        p.after_set_bind_group(reg, index, id, offsets).descriptor == p.descriptor,
        p.after_set_index_buffer(reg, id, format, offset, size).descriptor == p.descriptor,
        p.noted(check, cmd).parent == p.parent,
        p.after_set_pipeline(reg, id).parent == p.parent,
        p.after_set_bind_group(reg, index, id, offsets).parent == p.parent,
        p.after_set_index_buffer(reg, id, format, offset, size).parent == p.parent,
{
}

/// An indexed draw in a pass that has set no index buffer fails with
/// `NoIndexBuffer`. Once an index buffer was set, the same draw succeeds in
/// a pass that has a pipeline bound.
pub proof fn law_indexed_draw_needs_index_buffer(
    p: RenderPassView,
    reg: &Registry,
    buffer: ResourceId,
    format: IndexFormat,
    offset: u64,
    size: u64,
    draw: Command,
)
    requires
        !p.index_buffer_set,
    ensures
        p.draw_indexed_error() == Some(CommandError::NoIndexBuffer),
        binding_error(reg, buffer, USAGE_INDEX, offset, size) is None && p.pipeline is Some
            ==> p.after_set_index_buffer(reg, buffer, format, offset, size).draw_indexed_error()
            is None,
        binding_error(reg, buffer, USAGE_INDEX, offset, size) is None && p.pipeline is Some
            ==> p.noted(p.draw_indexed_error(), draw).after_set_index_buffer(
            reg,
            buffer,
            format,
            offset,
            size,
        ).draw_indexed_error() is None,
{
}

/// A compute pass that binds a compute pipeline and dispatches once adds
/// four commands to its encoder when it ends, and leaves it recording.
pub proof fn law_compute_pass_round_trip(
    v: EncoderView,
    reg: &Registry,
    id: ResourceId,
    x: u32,
    y: u32,
    z: u32,
)
    requires
        v.state == EncoderState::Recording,
        pipeline_error(reg, id, false) is None,
    ensures
        ({
            let locked = v.after_begin(None);
            let pass = ComputePassView::fresh(v.id).after_set_pipeline(reg, id);
            let done = pass.noted(pass.dispatch_error(), Command::Dispatch { x, y, z });
            let resumed = locked.after_end(
                done.parent,
                Command::BeginComputePass,
                done.commands,
                done.error,
            );
            &&& locked.end_result(done.parent, done.error) == Ok::<u32, CommandError>(v.id)
            &&& resumed.state == EncoderState::Recording
            &&& resumed.commands == v.commands + seq![
                Command::BeginComputePass,
                Command::SetPipeline(id),
                Command::Dispatch { x, y, z },
                Command::EndPass,
            ]
            &&& resumed.finish_result() == Ok::<Seq<Command>, CommandError>(resumed.commands)
        }),
{
    let locked = v.after_begin(None);
    let pass = ComputePassView::fresh(v.id).after_set_pipeline(reg, id);
    let done = pass.noted(pass.dispatch_error(), Command::Dispatch { x, y, z });
    let resumed = locked.after_end(done.parent, Command::BeginComputePass, done.commands, done.error);
    assert(resumed.commands =~= v.commands + seq![
        Command::BeginComputePass,
        Command::SetPipeline(id),
        Command::Dispatch { x, y, z },
        Command::EndPass,
    ]);
}

/// The commands that `copies` record, in their order.
pub open spec fn copy_commands(copies: Seq<BufferCopy>) -> Seq<Command>
    decreases copies.len(),
{
    if copies.len() == 0 {
        Seq::empty()
    } else {
        copy_commands(copies.drop_last()).push(copies.last().command().unwrap())
    }
}

/// Recording copies that validate, each of at least one byte, and then
/// finishing yields a command buffer that holds what was recorded before,
/// followed by one command for each copy, in order.
pub proof fn law_copies_are_all_recorded(v: EncoderView, reg: &Registry, copies: Seq<BufferCopy>)
    requires
        v.state == EncoderState::Recording,
        forall|i: int|
            0 <= i < copies.len() ==> (#[trigger] copies[i]).error(reg) is None && copies[i].size
                > 0,
    ensures
        v.after_copies(reg, copies).state == EncoderState::Recording,
        v.after_copies(reg, copies).commands == v.commands + copy_commands(copies),
        copy_commands(copies).len() == copies.len(),
        v.after_copies(reg, copies).finish_result() matches Ok(stream) && stream.len()
            == v.commands.len() + copies.len(),
    decreases copies.len(),
{
    if copies.len() == 0 {
        assert(v.commands + copy_commands(copies) =~= v.commands);
    } else {
        let front = copies.drop_last();
        let last = copies.last();
        assert forall|i: int| 0 <= i < front.len() implies (#[trigger] front[i]).error(reg) is None
            && front[i].size > 0 by {
            assert(front[i] == copies[i]);
        }
        law_copies_are_all_recorded(v, reg, front);
        assert(last == copies[copies.len() - 1]);
        assert((v.commands + copy_commands(front)).push(last.command().unwrap()) =~= v.commands
            + copy_commands(copies));
    }
}

} // verus!

use vstd::prelude::*;
use crate::buffer::CommandBuffer;
use crate::command::Command;
use crate::error::CommandError;
use crate::geometry::{Extent3d, ImageCopyBuffer, ImageCopyTexture};
use crate::registry::{Registry, ResourceId};
use crate::validate::{buffer_copy_error, buffer_texture_copy_error, check_buffer_copy, check_buffer_texture_copy, check_texture_copy, texture_copy_error};

verus! {

/// Where an encoder stands in its life.
#[derive(Clone, Copy, Debug, PartialEq, Eq, Structural)]
pub enum EncoderState {
    /// Commands and passes can be recorded.
    Recording,
    /// A pass is open; only ending it is accepted.
    Locked,
    /// The command buffer was handed out.
    Finished,
    /// A validation failed; nothing more is accepted.
    Invalid,
}

/// The arguments of a copy between two buffers.
pub struct BufferCopy {
    pub src: ResourceId,
    pub src_offset: u64,
    pub dst: ResourceId,
    pub dst_offset: u64,
    pub size: u64,
}

impl BufferCopy {
    /// Why the copy is refused, if it is.
    pub open spec fn error(self, reg: &Registry) -> Option<CommandError> {
        buffer_copy_error(reg, self.src, self.src_offset, self.dst, self.dst_offset, self.size)
    }

    /// What the copy records: nothing, where it moves no bytes.
    pub open spec fn command(self) -> Option<Command> {
        if self.size == 0 {
            None
        } else {
            Some(
                Command::CopyBufferToBuffer {
                    src: self.src,
                    src_offset: self.src_offset,
                    dst: self.dst,
                    dst_offset: self.dst_offset,
                    size: self.size,
                },
            )
        }
    }
}

/// What a copy of the region `size` records: `cmd`, or nothing where the
/// region is empty.
pub open spec fn region_command(size: Extent3d, cmd: Command) -> Option<Command> {
    if size.empty() {
        None
    } else {
        Some(cmd)
    }
}

/// An encoder as contracts see it.
pub struct EncoderView {
    pub id: u32,
    pub state: EncoderState,
    pub commands: Seq<Command>,
    pub error: Option<CommandError>,
}

impl EncoderView {
    /// Why the encoder takes no operation now, if it takes none.
    pub open spec fn refusal(self) -> Option<CommandError> {
        match self.state {
            EncoderState::Recording => None,
            EncoderState::Invalid => Some(CommandError::EncoderPoisoned),
            _ => Some(CommandError::InvalidEncoderState),
        }
    }

    /// What an operation returns whose validation came to `check`.
    pub open spec fn op_result(self, check: Option<CommandError>) -> Result<(), CommandError> {
        match (self.refusal(), check) {
            (Some(e), _) => Err(e),
            (None, Some(e)) => Err(e),
            (None, None) => Ok(()),
        }
    }

    /// The encoder after an operation whose validation came to `check` and
    /// which records `cmd`, or nothing. A refused operation changes nothing;
    /// a failed validation poisons the encoder.
    pub open spec fn after_op(self, check: Option<CommandError>, cmd: Option<Command>)
        -> EncoderView {
        match (self.refusal(), check, cmd) {
            (Some(_), _, _) => self,
            (None, Some(e), _) => EncoderView {
                state: EncoderState::Invalid,
                error: Some(e),
                ..self
            },
            (None, None, Some(c)) => EncoderView { commands: self.commands.push(c), ..self },
            (None, None, None) => self,
        }
    }

    /// What recording `copy` returns.
    pub open spec fn copy_result(self, reg: &Registry, copy: BufferCopy) -> Result<
        (),
        CommandError,
    > {
        self.op_result(copy.error(reg))
    }

    /// The encoder after recording `copy`.
    pub open spec fn after_copy(self, reg: &Registry, copy: BufferCopy) -> EncoderView {
        self.after_op(copy.error(reg), copy.command())
    }

    /// The encoder after recording `copies` in turn.
    pub open spec fn after_copies(self, reg: &Registry, copies: Seq<BufferCopy>) -> EncoderView
        decreases copies.len(),
    {
        if copies.len() == 0 {
            self
        } else {
            self.after_copies(reg, copies.drop_last()).after_copy(reg, copies.last())
        }
    }

    /// The encoder after the attempt to begin a pass whose attachments
    /// validated to `check`.
    pub open spec fn after_begin(self, check: Option<CommandError>) -> EncoderView {
        match (self.refusal(), check) {
            (Some(_), _) => self,
            (None, Some(e)) => EncoderView { state: EncoderState::Invalid, error: Some(e), ..self },
            (None, None) => EncoderView { state: EncoderState::Locked, ..self },
        }
    }

    /// What ending a pass of encoder `parent` returns: the pass must be this
    /// encoder's open pass, and must have recorded no error.
    pub open spec fn end_result(self, parent: u32, error: Option<CommandError>) -> Result<
        u32,
        CommandError,
    > {
        if self.state != EncoderState::Locked || self.id != parent {
            Err(CommandError::InvalidEncoderState)
        } else {
            match error {
                Some(e) => Err(e),
                None => Ok(parent),
            }
        }
    }

    /// The encoder after the end of a pass that recorded `body` between
    /// `begin` and the end marker, or met `error` first.
    pub open spec fn after_end(
        self,
        parent: u32,
        begin: Command,
        body: Seq<Command>,
        error: Option<CommandError>,
    ) -> EncoderView {
        if self.state != EncoderState::Locked || self.id != parent {
            self
        } else {
            match error {
                Some(e) => EncoderView { state: EncoderState::Invalid, error: Some(e), ..self },
                None => EncoderView {
                    state: EncoderState::Recording,
                    commands: self.commands.push(begin) + body + seq![Command::EndPass],
                    ..self
                },
            }
        }
    }

    /// What finishing returns: the commands of a recording encoder, the
    /// first error of a poisoned one, and else a refusal.
    pub open spec fn finish_result(self) -> Result<Seq<Command>, CommandError> {
        match self.state {
            EncoderState::Recording => Ok(self.commands),
            EncoderState::Invalid => match self.error {
                Some(e) => Err(e),
                None => Err(CommandError::EncoderPoisoned),
            },
            _ => Err(CommandError::InvalidEncoderState),
        }
    }

    pub open spec fn after_finish(self) -> EncoderView {
        match self.state {
            EncoderState::Recording => EncoderView {
                state: EncoderState::Finished,
                commands: Seq::empty(),
                ..self
            },
            _ => self,
        }
    }
}

/// Records the commands of one session. Every entry point first looks at the
/// state: a locked or finished encoder refuses, a poisoned one fails at once.
pub struct CommandEncoder {
    id: u32,
    state: EncoderState,
    commands: Vec<Command>,
    error: Option<CommandError>,
}

impl View for CommandEncoder {
    type V = EncoderView;

    closed spec fn view(&self) -> EncoderView {
        EncoderView {
            id: self.id,
            state: self.state,
            commands: self.commands@,
            error: self.error,
        }
    }
}

impl CommandEncoder {
    /// An encoder is poisoned exactly when it holds the error that poisoned it.
    pub open spec fn wf(&self) -> bool {
        self@.state == EncoderState::Invalid <==> self@.error is Some
    }

    pub fn new(id: u32) -> (r: CommandEncoder)
        ensures
            r.wf(),
            r@ == (EncoderView {
                id,
                state: EncoderState::Recording,
                commands: Seq::empty(),
                error: None,
            }),
    {
        CommandEncoder { id, state: EncoderState::Recording, commands: Vec::new(), error: None }
    }

    pub fn id(&self) -> (r: u32)
        ensures
            r == self@.id,
    {
        self.id
    }

    pub fn state(&self) -> (r: EncoderState)
        ensures
            r == self@.state,
    {
        self.state
    }

    /// The error that poisoned the encoder, if one did.
    pub fn error(&self) -> (r: Option<CommandError>)
        ensures
            r == self@.error,
    {
        self.error
    }

    /// The number of commands recorded so far.
    pub fn len(&self) -> (r: usize)
        ensures
            r == self@.commands.len(),
    {
        self.commands.len()
    }

    /// Why the encoder takes no operation now, if it takes none.
    pub fn refusal(&self) -> (r: Option<CommandError>)
        ensures
            r == self@.refusal(),
    {
        match self.state {
            EncoderState::Recording => None,
            EncoderState::Invalid => Some(CommandError::EncoderPoisoned),
            _ => Some(CommandError::InvalidEncoderState),
        }
    }

    fn poison(&mut self, e: CommandError)
        requires
            old(self)@.state == EncoderState::Recording || old(self)@.state
                == EncoderState::Locked,
        ensures
            final(self)@ == (EncoderView {
                state: EncoderState::Invalid,
                error: Some(e),
                ..old(self)@
            }),
            final(self).wf(),
    {
        self.state = EncoderState::Invalid;
        self.error = Some(e);
    }

    /// Records a copy of `size` bytes between two buffers. A copy of no bytes
    /// that passes validation records nothing.
    pub fn copy_buffer_to_buffer(
        &mut self,
        reg: &Registry,
        src: ResourceId,
        src_offset: u64,
        dst: ResourceId,
        dst_offset: u64,
        size: u64,
    ) -> (r: Result<(), CommandError>)
        requires
            old(self).wf(),
            reg.wf(),
        ensures
            final(self).wf(),
            r == old(self)@.copy_result(
                reg,
                (BufferCopy { src, src_offset, dst, dst_offset, size }),
            ),
            final(self)@ == old(self)@.after_copy(
                reg,
                (BufferCopy { src, src_offset, dst, dst_offset, size }),
            ),
    {
        if let Some(e) = self.refusal() {
            return Err(e);
        }
        if let Some(e) = check_buffer_copy(reg, src, src_offset, dst, dst_offset, size) {
            self.poison(e);
            return Err(e);
        }
        if size != 0 {
            self.commands.push(Command::CopyBufferToBuffer { src, src_offset, dst, dst_offset, size });
        }
        Ok(())
    }

    /// Records a copy of a region between two textures. A copy of an empty
    /// region that passes validation records nothing.
    pub fn copy_texture_to_texture(
        &mut self,
        reg: &Registry,
        src: &ImageCopyTexture,
        dst: &ImageCopyTexture,
        size: &Extent3d,
    ) -> (r: Result<(), CommandError>)
        requires
            old(self).wf(),
            reg.wf(),
        ensures
            final(self).wf(),
            r == old(self)@.op_result(texture_copy_error(reg, *src, *dst, *size)),
            final(self)@ == old(self)@.after_op(
                texture_copy_error(reg, *src, *dst, *size),
                region_command(
                    *size,
                    Command::CopyTextureToTexture { src: *src, dst: *dst, size: *size },
                ),
            ),
    {
        if let Some(e) = self.refusal() {
            return Err(e);
        }
        if let Some(e) = check_texture_copy(reg, src, dst, size) {
            self.poison(e);
            return Err(e);
        }
        if !size.is_empty() {
            self.commands.push(Command::CopyTextureToTexture { src: *src, dst: *dst, size: *size });
        }
        Ok(())
    }

    /// Records a copy of a texture region into a buffer. A copy of an empty
    /// region that passes validation records nothing.
    pub fn copy_texture_to_buffer(
        &mut self,
        reg: &Registry,
        src: &ImageCopyTexture,
        dst: &ImageCopyBuffer,
        size: &Extent3d,
    ) -> (r: Result<(), CommandError>)
        requires
            old(self).wf(),
            reg.wf(),
        ensures
            final(self).wf(),
            r == old(self)@.op_result(buffer_texture_copy_error(reg, *dst, *src, *size, false)),
            final(self)@ == old(self)@.after_op(
                buffer_texture_copy_error(reg, *dst, *src, *size, false),
                region_command(
                    *size,
                    Command::CopyTextureToBuffer { src: *src, dst: *dst, size: *size },
                ),
            ),
    {
        if let Some(e) = self.refusal() {
            return Err(e);
        }
        if let Some(e) = check_buffer_texture_copy(reg, dst, src, size, false) {
            self.poison(e);
            return Err(e);
        }
        if !size.is_empty() {
            self.commands.push(Command::CopyTextureToBuffer { src: *src, dst: *dst, size: *size });
        }
        Ok(())
    }

    /// Records a copy of buffer content into a texture region. A copy of an
    /// empty region that passes validation records nothing.
    pub fn copy_buffer_to_texture(
        &mut self,
        reg: &Registry,
        src: &ImageCopyBuffer,
        dst: &ImageCopyTexture,
        size: &Extent3d,
    ) -> (r: Result<(), CommandError>)
        requires
            old(self).wf(),
            reg.wf(),
        ensures
            final(self).wf(),
            r == old(self)@.op_result(buffer_texture_copy_error(reg, *src, *dst, *size, true)),
            final(self)@ == old(self)@.after_op(
                buffer_texture_copy_error(reg, *src, *dst, *size, true),
                region_command(
                    *size,
                    Command::CopyBufferToTexture { src: *src, dst: *dst, size: *size },
                ),
            ),
    {
        if let Some(e) = self.refusal() {
            return Err(e);
        }
        if let Some(e) = check_buffer_texture_copy(reg, src, dst, size, true) {
            self.poison(e);
            return Err(e);
        }
        if !size.is_empty() {
            self.commands.push(Command::CopyBufferToTexture { src: *src, dst: *dst, size: *size });
        }
        Ok(())
    }

    /// Locks the encoder for a pass whose descriptor validated to `check`.
    pub(crate) fn begin(&mut self, check: Option<CommandError>) -> (r: Result<(), CommandError>)
        requires
            old(self).wf(),
        ensures
            final(self).wf(),
            r == old(self)@.op_result(check),
            final(self)@ == old(self)@.after_begin(check),
    {
        if let Some(e) = self.refusal() {
            return Err(e);
        }
        if let Some(e) = check {
            self.poison(e);
            return Err(e);
        }
        self.state = EncoderState::Locked;
        Ok(())
    }

    /// Takes back control from a pass of encoder `parent`.
    pub(crate) fn end(
        &mut self,
        parent: u32,
        begin: Command,
        body: Vec<Command>,
        error: Option<CommandError>,
    ) -> (r: Result<u32, CommandError>)
        requires
            old(self).wf(),
        ensures
            final(self).wf(),
            r == old(self)@.end_result(parent, error),
            final(self)@ == old(self)@.after_end(parent, begin, body@, error),
    {
        if self.state != EncoderState::Locked || self.id != parent {
            return Err(CommandError::InvalidEncoderState);
        }
        if let Some(e) = error {
            self.poison(e);
            return Err(e);
        }
        let mut rest = body;
        self.commands.push(begin);
        self.commands.append(&mut rest);
        self.commands.push(Command::EndPass);
        self.state = EncoderState::Recording;
        assert(self.commands@ =~= old(self).commands@.push(begin) + body@ + seq![Command::EndPass]);
        Ok(parent)
    }

    /// Ends recording. A recording encoder hands out its commands as a
    /// command buffer; a poisoned one reports the error that poisoned it.
    pub fn finish(&mut self) -> (r: Result<CommandBuffer, CommandError>)
        requires
            old(self).wf(),
        ensures
            final(self).wf(),
            final(self)@ == old(self)@.after_finish(),
            match (r, old(self)@.finish_result()) {
                (Ok(buffer), Ok(commands)) => buffer@ == commands && !buffer.consumed(),
                (Err(e), Err(expected)) => e == expected,
                _ => false,
            },
    {
        match self.state {
            EncoderState::Recording => {
                let mut commands: Vec<Command> = Vec::new();
                core::mem::swap(&mut commands, &mut self.commands);
                self.state = EncoderState::Finished;
                Ok(CommandBuffer::from_commands(commands))
            },
            EncoderState::Invalid => match self.error {
                Some(e) => Err(e),
                None => Err(CommandError::EncoderPoisoned),
            },
            _ => Err(CommandError::InvalidEncoderState),
        }
    }
}

} // verus!

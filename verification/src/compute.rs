use vstd::prelude::*;
use crate::command::Command;
use crate::encoder::CommandEncoder;
use crate::error::CommandError;
use crate::pass::{bind_group_error, check_bind_group, check_pipeline, first_error, pipeline_after_bind, pipeline_error, result_of};
use crate::registry::{Registry, ResourceId};

verus! {

/// A compute pass as contracts see it.
pub struct ComputePassView {
    /// The encoder that the pass locks.
    pub parent: u32,
    pub commands: Seq<Command>,
    pub pipeline: Option<ResourceId>,
    /// The first error the pass met.
    pub error: Option<CommandError>,
}

impl ComputePassView {
    pub open spec fn fresh(parent: u32) -> ComputePassView {
        ComputePassView { parent, commands: Seq::empty(), pipeline: None, error: None }
    }

    /// The pass after an operation: a command more, or an error noted.
    pub open spec fn noted(self, check: Option<CommandError>, cmd: Command) -> ComputePassView {
        match check {
            Some(_) => ComputePassView { error: first_error(self.error, check), ..self },
            None => ComputePassView { commands: self.commands.push(cmd), ..self },
        }
    }

    pub open spec fn after_set_pipeline(self, reg: &Registry, id: ResourceId) -> ComputePassView {
        let check = pipeline_error(reg, id, false);
        let next = self.noted(check, Command::SetPipeline(id));
        if check is None {
            ComputePassView { pipeline: Some(id), ..next }
        } else {
            next
        }
    }

    pub open spec fn after_set_bind_group(
        self,
        reg: &Registry,
        index: u32,
        group: ResourceId,
        dynamic_offsets: Vec<u32>,
    ) -> ComputePassView {
        let check = bind_group_error(reg, self.pipeline, index, group, dynamic_offsets@.len());
        ComputePassView {
            pipeline: pipeline_after_bind(self.pipeline, check),
            ..self.noted(check, Command::SetBindGroup { index, group, dynamic_offsets })
        }
    }

    /// A dispatch needs a pipeline.
    pub open spec fn dispatch_error(self) -> Option<CommandError> {
        if self.pipeline is None {
            Some(CommandError::NoPipelineBound)
        } else {
            None
        }
    }
}

/// Records the commands of one compute pass.
pub struct ComputePass {
    parent: u32,
    commands: Vec<Command>,
    pipeline: Option<ResourceId>,
    error: Option<CommandError>,
}

impl View for ComputePass {
    type V = ComputePassView;

    closed spec fn view(&self) -> ComputePassView {
        ComputePassView {
            parent: self.parent,
            commands: self.commands@,
            pipeline: self.pipeline,
            error: self.error,
        }
    }
}

impl CommandEncoder {
    /// Opens a compute pass, which locks the encoder until the pass ends.
    pub fn begin_compute_pass(&mut self) -> (r: Result<ComputePass, CommandError>)
        requires
            old(self).wf(),
        ensures
            final(self).wf(),
            final(self)@ == old(self)@.after_begin(None),
            match r {
                Ok(pass) => old(self)@.refusal() is None && pass@ == ComputePassView::fresh(
                    old(self)@.id,
                ),
                Err(e) => old(self)@.refusal() == Some(e),
            },
    {
        match self.begin(None) {
            Ok(()) => Ok(
                ComputePass { parent: self.id(), commands: Vec::new(), pipeline: None, error: None },
            ),
            Err(e) => Err(e),
        }
    }
}

impl ComputePass {
    pub fn parent_id(&self) -> (r: u32)
        ensures
            r == self@.parent,
    {
        self.parent
    }

    fn note(&mut self, check: Option<CommandError>, cmd: Command) -> (r: Result<(), CommandError>)
        ensures
            r == result_of(check),
            final(self)@ == old(self)@.noted(check, cmd),
    {
        match check {
            Some(e) => {
                if self.error.is_none() {
                    self.error = Some(e);
                }
                Err(e)
            },
            None => {
                self.commands.push(cmd);
                Ok(())
            },
        }
    }

    /// Binds a compute pipeline.
    pub fn set_pipeline(&mut self, reg: &Registry, id: ResourceId) -> (r: Result<(), CommandError>)
        requires
            reg.wf(),
        ensures
            r == result_of(pipeline_error(reg, id, false)),
            final(self)@ == old(self)@.after_set_pipeline(reg, id),
    {
        match check_pipeline(reg, id, false) {
            Ok(_) => {
                self.pipeline = Some(id);
                self.note(None, Command::SetPipeline(id))
            },
            Err(e) => self.note(Some(e), Command::SetPipeline(id)),
        }
    }

    /// Sets a bind group. One whose layout the bound pipeline does not
    /// expect at `index` unbinds the pipeline.
    pub fn set_bind_group(
        &mut self,
        reg: &Registry,
        index: u32,
        group: ResourceId,
        dynamic_offsets: Vec<u32>,
    ) -> (r: Result<(), CommandError>)
        requires
            reg.wf(),
        ensures
            r == result_of(
                bind_group_error(reg, old(self)@.pipeline, index, group, dynamic_offsets@.len()),
            ),
            final(self)@ == old(self)@.after_set_bind_group(reg, index, group, dynamic_offsets),
    {
        let check = check_bind_group(reg, self.pipeline, index, group, dynamic_offsets.len());
        if let Some(CommandError::LayoutMismatch) = check {
            self.pipeline = None;
        }
        self.note(check, Command::SetBindGroup { index, group, dynamic_offsets })
    }

    /// Records a dispatch of `x` by `y` by `z` workgroups.
    pub fn dispatch(&mut self, x: u32, y: u32, z: u32) -> (r: Result<(), CommandError>)
        ensures
            r == result_of(old(self)@.dispatch_error()),
            final(self)@ == old(self)@.noted(
                old(self)@.dispatch_error(),
                Command::Dispatch { x, y, z },
            ),
    {
        let check = if self.pipeline.is_none() {
            Some(CommandError::NoPipelineBound)
        } else {
            None
        };
        self.note(check, Command::Dispatch { x, y, z })
    }

    /// Ends the pass and hands its commands to `encoder`, which must be the
    /// encoder that the pass locks. An error that the pass met poisons the
    /// encoder.
    pub fn end(self, encoder: &mut CommandEncoder) -> (r: Result<u32, CommandError>)
        requires
            old(encoder).wf(),
        ensures
            final(encoder).wf(),
            r == old(encoder)@.end_result(self@.parent, self@.error),
            final(encoder)@ == old(encoder)@.after_end(
                self@.parent,
                Command::BeginComputePass,
                self@.commands,
                self@.error,
            ),
    {
        encoder.end(self.parent, Command::BeginComputePass, self.commands, self.error)
    }
}

} // verus!

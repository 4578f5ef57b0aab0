use vstd::prelude::*;

verus! {

/// Every way in which recording can be refused.
#[derive(Clone, Copy, Debug, PartialEq, Eq, Structural)]
pub enum CommandError {
    /// The handle names no live resource of the kind that was asked for.
    InvalidHandle,
    /// A copy range or region leaves its resource.
    OutOfBounds,
    /// Source and destination ranges of a copy within one buffer intersect.
    Overlap,
    /// A resource lacks the usage flag that the operation needs.
    UsageViolation,
    /// The encoder is locked by an open pass, or already finished.
    InvalidEncoderState,
    /// The encoder was poisoned by an earlier validation failure.
    EncoderPoisoned,
    /// A draw or dispatch was recorded with no pipeline bound.
    NoPipelineBound,
    /// A bind group does not have the layout the pipeline expects at its index.
    LayoutMismatch,
    /// The number of dynamic offsets differs from the group's dynamic bindings.
    DynamicOffsetCountMismatch,
    /// An indexed draw was recorded with no index buffer set.
    NoIndexBuffer,
    /// Pushed bytes are not covered by a push-constant range of the pipeline.
    RangeNotInPipelineLayout,
    /// A pipeline that writes depth was bound in a pass whose depth is read-only.
    ReadOnlyAttachmentViolation,
    /// Formats, sample counts, sizes or alignments do not agree.
    FormatMismatch,
}

impl CommandError {
    /// The number under which the error crosses a C boundary. Zero is never
    /// used, so that it can stand for success.
    pub open spec fn code_of(self) -> u32 {
        match self {
            CommandError::InvalidHandle => 1,
            CommandError::OutOfBounds => 2,
            CommandError::Overlap => 3,
            CommandError::UsageViolation => 4,
            CommandError::InvalidEncoderState => 5,
            CommandError::EncoderPoisoned => 6,
            CommandError::NoPipelineBound => 7,
            CommandError::LayoutMismatch => 8,
            CommandError::DynamicOffsetCountMismatch => 9,
            CommandError::NoIndexBuffer => 10,
            CommandError::RangeNotInPipelineLayout => 11,
            CommandError::ReadOnlyAttachmentViolation => 12,
            CommandError::FormatMismatch => 13,
        }
    }

    pub fn code(&self) -> (r: u32)
        ensures
            r == self.code_of(),
            1 <= r <= 13,
    {
        match self {
            CommandError::InvalidHandle => 1,
            CommandError::OutOfBounds => 2,
            CommandError::Overlap => 3,
            CommandError::UsageViolation => 4,
            CommandError::InvalidEncoderState => 5,
            CommandError::EncoderPoisoned => 6,
            CommandError::NoPipelineBound => 7,
            CommandError::LayoutMismatch => 8,
            CommandError::DynamicOffsetCountMismatch => 9,
            CommandError::NoIndexBuffer => 10,
            CommandError::RangeNotInPipelineLayout => 11,
            CommandError::ReadOnlyAttachmentViolation => 12,
            CommandError::FormatMismatch => 13,
        }
    }
}

/// Distinct errors have distinct codes.
pub proof fn code_is_injective(a: CommandError, b: CommandError)
    requires
        a.code_of() == b.code_of(),
    ensures
        a == b,
{
}

} // verus!

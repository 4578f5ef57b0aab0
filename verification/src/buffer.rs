use vstd::prelude::*;
use crate::command::Command;
use crate::error::CommandError;

verus! {

/// The finished product of an encoder: a command stream that can no longer
/// change, and that is handed to submission once.
pub struct CommandBuffer {
    commands: Vec<Command>,
    consumed: bool,
}

impl View for CommandBuffer {
    type V = Seq<Command>;

    closed spec fn view(&self) -> Seq<Command> {
        self.commands@
    }
}

impl CommandBuffer {
    /// Whether the stream was already handed to submission.
    pub closed spec fn consumed(&self) -> bool {
        self.consumed
    }

    pub(crate) fn from_commands(commands: Vec<Command>) -> (r: CommandBuffer)
        ensures
            r@ == commands@,
            !r.consumed(),
    {
        CommandBuffer { commands, consumed: false }
    }

    /// The number of recorded commands.
    pub fn len(&self) -> (r: usize)
        ensures
            r == self@.len(),
    {
        self.commands.len()
    }

    pub fn is_consumed(&self) -> (r: bool)
        ensures
            r == self.consumed(),
    {
        self.consumed
    }

    pub fn get(&self, i: usize) -> (r: Option<&Command>)
        ensures
            i < self@.len() ==> r == Some(&self@[i as int]),
            i >= self@.len() ==> r is None,
    {
        if i < self.commands.len() {
            Some(&self.commands[i])
        } else {
            None
        }
    }

    /// Hands the stream to submission. The first call yields it; every later
    /// call fails with `InvalidHandle` and changes nothing.
    pub fn submit(&mut self) -> (r: Result<Vec<Command>, CommandError>)
        ensures
            final(self).consumed(),
            match r {
                Ok(stream) => !old(self).consumed() && stream@ == old(self)@ && final(self)@
                    == Seq::<Command>::empty(),
                Err(e) => old(self).consumed() && e == CommandError::InvalidHandle && final(self)@
                    == old(self)@,
            },
    {
        if self.consumed {
            return Err(CommandError::InvalidHandle);
        }
        let mut stream: Vec<Command> = Vec::new();
        core::mem::swap(&mut stream, &mut self.commands);
        self.consumed = true;
        Ok(stream)
    }
}

} // verus!

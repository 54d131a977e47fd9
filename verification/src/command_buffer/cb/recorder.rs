//! The end of a builder chain: the builder that records.
use crate::command_buffer::cb::AddCommand;
use crate::command_buffer::cb::CommandBufferBuild;
use crate::command_buffer::cb::CommandChain;
use crate::command_buffer::cb::CommandError;
use crate::command_buffer::commands_raw::Command;
use crate::device::DeviceId;
use crate::device::DeviceOwned;
use crate::error::OomError;
use vstd::prelude::*;

verus! {

/// Builder that records every command it is given, in order, without any
/// check of its own.
#[derive(Debug, PartialEq, Eq)]
pub struct CommandRecorder {
    device: DeviceId,
    commands: Vec<Command>,
}

/// A finished sequence of commands: nothing can be added to it any more.
#[derive(Debug, PartialEq, Eq)]
pub struct CommandBuffer {
    device: DeviceId,
    commands: Vec<Command>,
}

impl CommandRecorder {
    /// Starts an empty recording for a device.
    pub fn new(device: DeviceId) -> (recorder: CommandRecorder)
        ensures
            recorder.device_spec() == device,
            recorder.commands() == Seq::<Command>::empty(),
    {
        CommandRecorder { device, commands: Vec::new() }
    }
}

impl DeviceOwned for CommandRecorder {
    closed spec fn device_spec(&self) -> DeviceId {
        self.device
    }

    fn device(&self) -> (device: DeviceId) {
        self.device
    }
}

impl CommandChain for CommandRecorder {
    closed spec fn commands(&self) -> Seq<Command> {
        self.commands@
    }
}

impl AddCommand for CommandRecorder {
    type Out = CommandRecorder;

    open spec fn check_spec(&self, command: &Command) -> Result<(), CommandError> {
        Ok(())
    }

    open spec fn added(self, command: Command, out: CommandRecorder) -> bool {
        &&& out.device_spec() == self.device_spec()
        &&& out.commands() == self.commands().push(command)
    }

    fn check(&self, command: &Command) -> (verdict: Result<(), CommandError>) {
        Ok(())
    }

    fn add(self, command: Command) -> (out: CommandRecorder) {
        let mut commands = self.commands;
        commands.push(command);
        CommandRecorder { device: self.device, commands }
    }
}

impl CommandBufferBuild for CommandRecorder {
    type Out = CommandBuffer;

    type Err = OomError;

    open spec fn built(self, result: Result<CommandBuffer, OomError>) -> bool {
        &&& result matches Ok(buffer)
        &&& buffer.device_spec() == self.device_spec()
        &&& buffer.commands() == self.commands()
    }

    fn build(self) -> (result: Result<CommandBuffer, OomError>) {
        Ok(CommandBuffer { device: self.device, commands: self.commands })
    }
}

impl CommandBuffer {
    /// The commands of the sequence, oldest first.
    pub closed spec fn commands(&self) -> Seq<Command> {
        self.commands@
    }

    /// Returns the number of commands in the sequence.
    pub fn len(&self) -> (len: usize)
        ensures
            len == self.commands().len(),
    {
        self.commands.len()
    }

    /// Returns the command at a position of the sequence, or `None` past its
    /// end.
    pub fn get(&self, index: usize) -> (command: Option<Command>)
        ensures
            command == if index < self.commands().len() {
                Some(self.commands()[index as int])
            } else {
                None
            },
    {
        if index < self.commands.len() {
            Some(self.commands[index])
        } else {
            None
        }
    }
}

impl DeviceOwned for CommandBuffer {
    closed spec fn device_spec(&self) -> DeviceId {
        self.device
    }

    fn device(&self) -> (device: DeviceId) {
        self.device
    }
}

} // verus!

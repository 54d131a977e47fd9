//! Layer that keeps the resources of another device out of a command buffer.
use crate::command_buffer::cb::last_accepted;
use crate::command_buffer::cb::lemma_last_accepted_push;
use crate::command_buffer::cb::AddCommand;
use crate::command_buffer::cb::CommandBufferBuild;
use crate::command_buffer::cb::CommandChain;
use crate::command_buffer::cb::CommandError;
use crate::command_buffer::commands_raw::Command;
use crate::command_buffer::CommandBufferBuilder;
use crate::device::DeviceId;
use crate::device::DeviceOwned;
use vstd::prelude::*;

verus! {

/// Layer around a command buffer builder that checks whether the commands
/// added to it belong to the same device as the command buffer.
///
/// A command that refers to no resource belongs to no device and passes.
/// Every command that has been added through the layer refers to resources
/// of the device of the builder only.
pub struct DeviceCheckLayer<I: CommandChain> {
    inner: I,
    // Number of commands that were added through the layer.
    added: Ghost<nat>,
}

/// Whether a command may go into a command buffer of `device`: it refers to
/// no resource, or its resources belong to `device`.
pub open spec fn same_device(device: DeviceId, command: &Command) -> bool {
    command.device() matches Some(owner) ==> owner == device
}

impl<I: CommandChain> DeviceCheckLayer<I> {
    #[verifier::type_invariant]
    spec fn well_formed(&self) -> bool {
        last_accepted(
            self.inner.commands(),
            self.added@,
            |command: Command| same_device(self.inner.device_spec(), &command),
        )
    }

    /// The builder that the layer wraps.
    pub closed spec fn inner_spec(&self) -> &I {
        &self.inner
    }

    /// Number of commands that were added through the layer: the commands
    /// that the layer has checked are the last that many of the chain.
    pub closed spec fn checked_count(&self) -> nat {
        self.added@
    }

    /// Every command that was added through the layer refers to no resource
    /// of another device than that of the builder.
    pub open spec fn checked(&self) -> bool {
        last_accepted(
            self.commands(),
            self.checked_count(),
            |command: Command| same_device(self.device_spec(), &command),
        )
    }

    /// Builds a new `DeviceCheckLayer`.
    pub fn new(inner: I) -> (layer: DeviceCheckLayer<I>)
        ensures
            *layer.inner_spec() == inner,
            layer.checked_count() == 0,
    {
        DeviceCheckLayer { inner: inner, added: Ghost(0) }
    }

    /// Destroys the layer and returns the underlying command buffer.
    pub fn into_inner(self) -> (inner: I)
        ensures
            inner == *self.inner_spec(),
            self.checked(),
    {
        proof {
            use_type_invariant(&self);
        }
        self.inner
    }
}

impl<I: CommandChain> DeviceOwned for DeviceCheckLayer<I> {
    open spec fn device_spec(&self) -> DeviceId {
        self.inner_spec().device_spec()
    }

    fn device(&self) -> (device: DeviceId) {
        self.inner.device()
    }
}

impl<I: CommandChain + CommandBufferBuilder> CommandBufferBuilder for DeviceCheckLayer<I> {
    open spec fn supports_graphics_spec(&self) -> bool {
        self.inner_spec().supports_graphics_spec()
    }

    open spec fn supports_compute_spec(&self) -> bool {
        self.inner_spec().supports_compute_spec()
    }

    fn supports_graphics(&self) -> (supported: bool) {
        self.inner.supports_graphics()
    }

    fn supports_compute(&self) -> (supported: bool) {
        self.inner.supports_compute()
    }
}

impl<I: CommandChain + CommandBufferBuild> CommandBufferBuild for DeviceCheckLayer<I> {
    type Out = I::Out;

    type Err = I::Err;

    open spec fn built(self, result: Result<I::Out, I::Err>) -> bool {
        self.inner_spec().built(result)
    }

    fn build(self) -> (result: Result<I::Out, I::Err>)
        ensures
            self.checked(),
    {
        proof {
            use_type_invariant(&self);
        }
        self.inner.build()
    }
}

impl<I: CommandChain> CommandChain for DeviceCheckLayer<I> {
    open spec fn commands(&self) -> Seq<Command> {
        self.inner_spec().commands()
    }
}

impl<I: AddCommand> AddCommand for DeviceCheckLayer<I> {
    type Out = DeviceCheckLayer<I::Out>;

    open spec fn check_spec(&self, command: &Command) -> Result<(), CommandError> {
        if same_device(self.device_spec(), command) {
            self.inner_spec().check_spec(command)
        } else {
            Err(CommandError::DeviceMismatch)
        }
    }

    open spec fn added(self, command: Command, out: DeviceCheckLayer<I::Out>) -> bool {
        &&& self.inner_spec().added(command, *out.inner_spec())
        &&& out.checked_count() == self.checked_count() + 1
        &&& out.checked()
    }

    fn check(&self, command: &Command) -> (verdict: Result<(), CommandError>) {
        let inner_device = self.inner.device();
        match command.device() {
            Some(cmd_device) => {
                if inner_device != cmd_device {
                    return Err(CommandError::DeviceMismatch);
                }
            },
            None => {},
        }
        self.inner.check(command)
    }

    fn add(self, command: Command) -> (out: DeviceCheckLayer<I::Out>) {
        proof {
            use_type_invariant(&self);
            lemma_last_accepted_push(
                self.inner.commands(),
                self.added@,
                |command: Command| same_device(self.inner.device_spec(), &command),
                command,
            );
        }
        let inner_device = self.inner.device();
        match command.device() {
            Some(cmd_device) => {
                if inner_device != cmd_device {
                    return unreached();
                }
            },
            None => {},
        }
        let added = Ghost(self.added@ + 1);
        let inner = self.inner.add(command);
        assert((|command: Command| same_device(self.inner.device_spec(), &command)) =~= (
        |command: Command| same_device(inner.device_spec(), &command)));
        DeviceCheckLayer { inner, added }
    }
}

} // verus!

//! Layer that keeps a command off a queue family that cannot run it.
use crate::command_buffer::cb::last_accepted;
use crate::command_buffer::cb::lemma_last_accepted_push;
use crate::command_buffer::cb::AddCommand;
use crate::command_buffer::cb::CommandBufferBuild;
use crate::command_buffer::cb::CommandChain;
use crate::command_buffer::cb::CommandError;
use crate::command_buffer::commands_raw::Command;
use crate::command_buffer::CommandBufferBuilder;
use crate::device::DeviceId;
use crate::device::DeviceOwned;
use vstd::prelude::*;

verus! {

/// Layer around a command buffer builder that checks whether the commands
/// added to it match the type of the queue family of the underlying builder.
///
/// Commands that perform graphical or compute operations can only be executed
/// on queue families that support graphical or compute operations. This is
/// what this layer verifies.
///
/// The capabilities are set when the layer is built and never change. Every
/// command that has been added through the layer runs on a queue family with
/// these capabilities.
pub struct QueueTyCheckLayer<I: CommandChain> {
    inner: I,
    supports_graphics: bool,
    supports_compute: bool,
    // Number of commands that were added through the layer.
    added: Ghost<nat>,
}

impl<I: CommandChain> QueueTyCheckLayer<I> {
    #[verifier::type_invariant]
    spec fn well_formed(&self) -> bool {
        last_accepted(
            self.inner.commands(),
            self.added@,
            |command: Command| command.runs_on(self.supports_graphics, self.supports_compute),
        )
    }

    /// The builder that the layer wraps.
    pub closed spec fn inner_spec(&self) -> &I {
        &self.inner
    }

    /// Whether graphical operations can be added to the layer.
    pub closed spec fn graphics(&self) -> bool {
        self.supports_graphics
    }

    /// Whether compute operations can be added to the layer.
    pub closed spec fn compute(&self) -> bool {
        self.supports_compute
    }

    /// Number of commands that were added through the layer: the commands
    /// that the layer has checked are the last that many of the chain.
    pub closed spec fn checked_count(&self) -> nat {
        self.added@
    }

    /// Every command that was added through the layer runs on a queue family
    /// with the capabilities of the layer.
    pub open spec fn checked(&self) -> bool {
        last_accepted(
            self.commands(),
            self.checked_count(),
            |command: Command| command.runs_on(self.graphics(), self.compute()),
        )
    }

    /// Builds a new `QueueTyCheckLayer`.
    ///
    /// Note that this layer will only protect you if you pass correct values
    /// for `supports_graphics` and `supports_compute`.
    pub fn new(inner: I, supports_graphics: bool, supports_compute: bool) -> (layer:
        QueueTyCheckLayer<I>)
        ensures
            *layer.inner_spec() == inner,
            layer.graphics() == supports_graphics,
            layer.compute() == supports_compute,
            layer.checked_count() == 0,
    {
        QueueTyCheckLayer {
            inner: inner,
            supports_graphics: supports_graphics,
            supports_compute: supports_compute,
            added: Ghost(0),
        }
    }

    /// Destroys the layer and returns the underlying command buffer.
    pub fn into_inner(self) -> (inner: I)
        ensures
            inner == *self.inner_spec(),
            self.checked(),
    {
        proof {
            use_type_invariant(&self);
        }
        self.inner
    }

    /// Returns true if graphical operations can be added to this layer.
    ///
    /// This returns the same value as what was passed to the constructor.
    pub fn supports_graphics(&self) -> (supported: bool)
        ensures
            supported == self.graphics(),
    {
        self.supports_graphics
    }

    /// Returns true if compute operations can be added to this layer.
    ///
    /// This returns the same value as what was passed to the constructor.
    pub fn supports_compute(&self) -> (supported: bool)
        ensures
            supported == self.compute(),
    {
        self.supports_compute
    }
}

impl<I: CommandChain> DeviceOwned for QueueTyCheckLayer<I> {
    open spec fn device_spec(&self) -> DeviceId {
        self.inner_spec().device_spec()
    }

    fn device(&self) -> (device: DeviceId) {
        self.inner.device()
    }
}

impl<I: CommandChain> CommandBufferBuilder for QueueTyCheckLayer<I> {
    open spec fn supports_graphics_spec(&self) -> bool {
        self.graphics()
    }

    open spec fn supports_compute_spec(&self) -> bool {
        self.compute()
    }

    fn supports_graphics(&self) -> (supported: bool) {
        self.supports_graphics
    }

    fn supports_compute(&self) -> (supported: bool) {
        self.supports_compute
    }
}

impl<I: CommandChain + CommandBufferBuild> CommandBufferBuild for QueueTyCheckLayer<I> {
    type Out = I::Out;

    type Err = I::Err;

    open spec fn built(self, result: Result<I::Out, I::Err>) -> bool {
        self.inner_spec().built(result)
    }

    fn build(self) -> (result: Result<I::Out, I::Err>)
        ensures
            self.checked(),
    {
        proof {
            use_type_invariant(&self);
        }
        self.inner.build()
    }
}

impl<I: CommandChain> CommandChain for QueueTyCheckLayer<I> {
    open spec fn commands(&self) -> Seq<Command> {
        self.inner_spec().commands()
    }
}

impl<I: AddCommand> AddCommand for QueueTyCheckLayer<I> {
    type Out = QueueTyCheckLayer<I::Out>;

    open spec fn check_spec(&self, command: &Command) -> Result<(), CommandError> {
        if command.runs_on(self.graphics(), self.compute()) {
            self.inner_spec().check_spec(command)
        } else {
            Err(CommandError::QueueCapabilityMismatch)
        }
    }

    open spec fn added(self, command: Command, out: QueueTyCheckLayer<I::Out>) -> bool {
        &&& self.inner_spec().added(command, *out.inner_spec())
        &&& out.graphics() == self.graphics()
        &&& out.compute() == self.compute()
        &&& out.checked_count() == self.checked_count() + 1
        &&& out.checked()
    }

    fn check(&self, command: &Command) -> (verdict: Result<(), CommandError>) {
        let requirement = command.kind().queue_requirement();
        if !requirement.is_met_by(
            self.supports_graphics,
            self.supports_compute,
            command.is_graphics(),
        ) {
            return Err(CommandError::QueueCapabilityMismatch);
        }
        self.inner.check(command)
    }

    fn add(self, command: Command) -> (out: QueueTyCheckLayer<I::Out>) {
        proof {
            use_type_invariant(&self);
            lemma_last_accepted_push(
                self.inner.commands(),
                self.added@,
                |command: Command| command.runs_on(self.supports_graphics, self.supports_compute),
                command,
            );
        }
        let requirement = command.kind().queue_requirement();
        if !requirement.is_met_by(
            self.supports_graphics,
            self.supports_compute,
            command.is_graphics(),
        ) {
            return unreached();
        }
        let added = Ghost(self.added@ + 1);
        QueueTyCheckLayer {
            inner: self.inner.add(command),
            supports_graphics: self.supports_graphics,
            supports_compute: self.supports_compute,
            added,
        }
    }
}

} // verus!

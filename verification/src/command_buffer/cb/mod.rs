//! The builder chain: the traits that every link implements, the layers, and
//! the recorder at the end of the chain.
use crate::command_buffer::cb::device_check::same_device;
use crate::command_buffer::cb::device_check::DeviceCheckLayer;
use crate::command_buffer::cb::queue_ty_check::QueueTyCheckLayer;
use crate::command_buffer::cb::recorder::CommandBuffer;
use crate::command_buffer::cb::recorder::CommandRecorder;
use crate::command_buffer::commands_raw::Command;
use crate::device::DeviceId;
use crate::device::DeviceOwned;
use vstd::prelude::*;

pub mod device_check;
pub mod queue_ty_check;
pub mod recorder;

verus! {

/// Why a builder chain refuses a command.
#[derive(Debug, Clone, Copy, PartialEq, Eq, Structural)]
pub enum CommandError {
    /// The command refers to resources of another device than the builder's.
    DeviceMismatch,
    /// The queue family of the builder cannot run the command.
    QueueCapabilityMismatch,
}

impl CommandError {
    /// Text of `description`.
    pub open spec fn description_spec(&self) -> Seq<char> {
        match self {
            CommandError::DeviceMismatch => "the command uses resources of another device than the command buffer"@,
            CommandError::QueueCapabilityMismatch => "the queue family of the command buffer cannot run the command"@,
        }
    }

    /// Returns a short description of the error.
    pub fn description(&self) -> (text: &'static str)
        ensures
            text@ == self.description_spec(),
    {
        match self {
            CommandError::DeviceMismatch => "the command uses resources of another device than the command buffer",
            CommandError::QueueCapabilityMismatch => "the queue family of the command buffer cannot run the command",
        }
    }
}

/// Implemented on builders: a builder belongs to a device and stands for the
/// sequence of commands recorded so far.
pub trait CommandChain: DeviceOwned {
    /// The commands recorded so far, oldest first.
    spec fn commands(&self) -> Seq<Command>;
}

/// Adds a command to a builder.
///
/// `add` consumes the builder: the value that went in cannot be used again,
/// and the value that comes out stands for the sequence with the command at
/// its end.
pub trait AddCommand: CommandChain + Sized {
    /// The builder that results from adding a command.
    type Out: CommandChain;

    /// The verdict of the chain on a command: `Ok`, or the reason of the
    /// first link, outermost first, that refuses it.
    spec fn check_spec(&self, command: &Command) -> Result<(), CommandError>;

    /// Whether `out` is the builder that adding `command` to `self` yields.
    spec fn added(self, command: Command, out: Self::Out) -> bool;

    /// Tells whether the command may be added, without adding it.
    fn check(&self, command: &Command) -> (verdict: Result<(), CommandError>)
        ensures
            verdict == self.check_spec(command),
    ;

    /// Adds the command. A command that the chain refuses must not be
    /// added: offering one is a defect of the caller, not a condition to
    /// recover from.
    fn add(self, command: Command) -> (out: Self::Out)
        requires
            self.check_spec(&command) is Ok,
        ensures
            self.added(command, out),
            out.commands() == self.commands().push(command),
            out.device_spec() == self.device_spec(),
    ;
}

/// Turns a builder into what it has built.
///
/// `build` consumes the whole chain, so a chain is built once.
pub trait CommandBufferBuild: Sized {
    /// What the chain builds.
    type Out;

    /// The error that building can end with.
    type Err;

    /// Whether `result` is what building `self` yields.
    spec fn built(self, result: Result<Self::Out, Self::Err>) -> bool;

    /// Builds the command buffer.
    fn build(self) -> (result: Result<Self::Out, Self::Err>)
        ensures
            self.built(result),
    ;
}

/// Whether the last `count` commands of a sequence all satisfy `accepted`.
pub open spec fn last_accepted(
    commands: Seq<Command>,
    count: nat,
    accepted: spec_fn(Command) -> bool,
) -> bool {
    &&& count <= commands.len()
    &&& forall|at: int| commands.len() - count <= at < commands.len() ==> accepted(#[trigger] commands[at])
}

/// A sequence whose last commands are all accepted stays so when an accepted
/// command is put at its end.
pub proof fn lemma_last_accepted_push(
    commands: Seq<Command>,
    count: nat,
    accepted: spec_fn(Command) -> bool,
    command: Command,
)
    requires
        last_accepted(commands, count, accepted),
        accepted(command),
    ensures
        last_accepted(commands.push(command), count + 1, accepted),
{
    let longer = commands.push(command);
    assert forall|at: int| longer.len() - (count + 1) <= at < longer.len() implies accepted(
        #[trigger] longer[at],
    ) by {
        if at < commands.len() {
            assert(longer[at] == commands[at]);
        }
    }
}

/// Adds the command if the chain accepts it, and returns the reason if it
/// does not.
pub fn try_add<B: AddCommand>(builder: B, command: Command) -> (result: Result<B::Out, CommandError>)
    ensures
        match builder.check_spec(&command) {
            Ok(_) => result matches Ok(out) && builder.added(command, out) && out.commands()
                == builder.commands().push(command) && out.device_spec() == builder.device_spec(),
            Err(reason) => result matches Err(refusal) && refusal == reason,
        },
{
    match builder.check(&command) {
        Ok(_) => Ok(builder.add(command)),
        Err(reason) => Err(reason),
    }
}

/// The reason for which the first command of a sequence that cannot go into
/// a command buffer is refused, or `None` if every command can. A command
/// can go into the command buffer if its resources belong to `device` and the
/// queue family runs it; the device is looked at first.
pub open spec fn first_refusal(
    device: DeviceId,
    supports_graphics: bool,
    supports_compute: bool,
    commands: Seq<Command>,
) -> Option<CommandError>
    decreases commands.len(),
{
    if commands.len() == 0 {
        None
    } else if !same_device(device, &commands[0]) {
        Some(CommandError::DeviceMismatch)
    } else if !commands[0].runs_on(supports_graphics, supports_compute) {
        Some(CommandError::QueueCapabilityMismatch)
    } else {
        first_refusal(device, supports_graphics, supports_compute, commands.drop_first())
    }
}

/// Records a sequence of commands for a queue family of `device`, through
/// the device check and the queue check, and builds the command buffer.
///
/// Returns the command buffer that holds exactly the given commands, in
/// their order, or the reason for which the first command that the checks
/// refuse is refused.
pub fn record(
    device: DeviceId,
    supports_graphics: bool,
    supports_compute: bool,
    commands: &Vec<Command>,
) -> (result: Result<CommandBuffer, CommandError>)
    ensures
        match first_refusal(device, supports_graphics, supports_compute, commands@) {
            None => result matches Ok(buffer) && buffer.commands() == commands@
                && buffer.device_spec() == device,
            Some(reason) => result == Err::<CommandBuffer, _>(reason),
        },
{
    let mut chain = DeviceCheckLayer::new(
        QueueTyCheckLayer::new(CommandRecorder::new(device), supports_graphics, supports_compute),
    );
    let mut next: usize = 0;
    assert(commands@.subrange(0, 0) =~= Seq::<Command>::empty());
    assert(commands@.subrange(0, commands@.len() as int) =~= commands@);
    while next < commands.len()
        invariant
            next <= commands.len(),
            chain.device_spec() == device,
            chain.inner_spec().graphics() == supports_graphics,
            chain.inner_spec().compute() == supports_compute,
            chain.commands() == commands@.subrange(0, next as int),
            first_refusal(device, supports_graphics, supports_compute, commands@) == first_refusal(
                device,
                supports_graphics,
                supports_compute,
                commands@.subrange(next as int, commands@.len() as int),
            ),
        decreases commands.len() - next,
    {
        let command = commands[next];
        proof {
            let rest = commands@.subrange(next as int, commands@.len() as int);
            assert(rest[0] == command);
            assert(rest.drop_first() =~= commands@.subrange(next + 1, commands@.len() as int));
            assert(commands@.subrange(0, next as int).push(command) =~= commands@.subrange(
                0,
                next + 1,
            ));
        }
        match try_add(chain, command) {
            Ok(longer) => {
                chain = longer;
            },
            Err(reason) => {
                return Err(reason);
            },
        }
        next += 1;
    }
    match chain.build() {
        Ok(buffer) => Ok(buffer),
        Err(_) => unreached(),
    }
}

/// A sequence of commands is recorded without refusal exactly when every
/// command of it refers to resources of the device only and runs on the
/// queue family.
pub proof fn lemma_no_refusal_means_all_accepted(
    device: DeviceId,
    supports_graphics: bool,
    supports_compute: bool,
    commands: Seq<Command>,
)
    ensures
        first_refusal(device, supports_graphics, supports_compute, commands) is None <==> forall|
            at: int,
        |
            0 <= at < commands.len() ==> same_device(device, &#[trigger] commands[at])
                && commands[at].runs_on(supports_graphics, supports_compute),
    decreases commands.len(),
{
    if commands.len() > 0 {
        let rest = commands.drop_first();
        lemma_no_refusal_means_all_accepted(device, supports_graphics, supports_compute, rest);
        assert(forall|at: int| 0 <= at < rest.len() ==> rest[at] == commands[at + 1]);
        if first_refusal(device, supports_graphics, supports_compute, commands) is None {
            assert forall|at: int| 0 <= at < commands.len() implies same_device(
                device,
                &#[trigger] commands[at],
            ) && commands[at].runs_on(supports_graphics, supports_compute) by {
                if at > 0 {
                    assert(commands[at] == rest[at - 1]);
                }
            }
        } else {
            if same_device(device, &commands[0]) && commands[0].runs_on(
                supports_graphics,
                supports_compute,
            ) {
                let at = choose|at: int|
                    0 <= at < rest.len() && !(same_device(device, &#[trigger] rest[at])
                        && rest[at].runs_on(supports_graphics, supports_compute));
                assert(commands[at + 1] == rest[at]);
            }
        }
    }
}

} // verus!

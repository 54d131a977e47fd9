//! The commands that can be recorded, reduced to what the checks of the
//! builder chain read from them.
use crate::device::DeviceId;
use vstd::prelude::*;

verus! {

/// A command to record.
///
/// A command that refers to resources carries the device that owns them.
/// The commands that bind a pipeline or descriptor sets also say whether they
/// bind for graphics or for compute.
#[derive(Debug, Clone, Copy, PartialEq, Eq, Structural)]
pub enum Command {
    BeginRenderPass { device: DeviceId },
    BindDescriptorSets { device: DeviceId, graphics: bool },
    BindIndexBuffer { device: DeviceId },
    BindPipeline { device: DeviceId, graphics: bool },
    BindVertexBuffers { device: DeviceId },
    BlitImage { device: DeviceId },
    ClearAttachments,
    CopyBuffer { device: DeviceId },
    CopyBufferToImage { device: DeviceId },
    CopyImage { device: DeviceId },
    DispatchRaw { device: DeviceId },
    DrawIndexedRaw,
    DrawIndirectRaw { device: DeviceId },
    DrawRaw,
    EndRenderPass,
    ExecuteCommands { device: DeviceId },
    FillBuffer { device: DeviceId },
    NextSubpass,
    PushConstants { device: DeviceId },
    ResolveImage { device: DeviceId },
    SetEvent { device: DeviceId },
    SetState { device: DeviceId },
    UpdateBuffer { device: DeviceId },
}

/// The kind of a command, without its content.
#[derive(Debug, Clone, Copy, PartialEq, Eq, Structural)]
pub enum CommandKind {
    BeginRenderPass,
    BindDescriptorSets,
    BindIndexBuffer,
    BindPipeline,
    BindVertexBuffers,
    BlitImage,
    ClearAttachments,
    CopyBuffer,
    CopyBufferToImage,
    CopyImage,
    DispatchRaw,
    DrawIndexedRaw,
    DrawIndirectRaw,
    DrawRaw,
    EndRenderPass,
    ExecuteCommands,
    FillBuffer,
    NextSubpass,
    PushConstants,
    ResolveImage,
    SetEvent,
    SetState,
    UpdateBuffer,
}

/// What a kind of command asks of the queue family that will run it.
#[derive(Debug, Clone, Copy, PartialEq, Eq, Structural)]
pub enum QueueRequirement {
    /// Runs on every queue family.
    Always,
    /// Needs a queue family that supports graphics.
    Graphics,
    /// Needs a queue family that supports compute.
    Compute,
    /// Needs a queue family that supports graphics or compute.
    GraphicsOrCompute,
    /// Needs graphics if the command binds for graphics, else compute.
    ByContent,
    /// The kind has no classification yet: no queue family is known to run
    /// it, and the queue check refuses it.
    Unclassified,
}

impl CommandKind {
    /// The requirement that each kind of command puts on the queue family.
    pub open spec fn queue_requirement_spec(self) -> QueueRequirement {
        match self {
            CommandKind::CopyBuffer
            | CommandKind::CopyBufferToImage
            | CommandKind::CopyImage
            | CommandKind::FillBuffer
            | CommandKind::UpdateBuffer => QueueRequirement::Always,
            CommandKind::BeginRenderPass
            | CommandKind::BindIndexBuffer
            | CommandKind::BindVertexBuffers
            | CommandKind::BlitImage
            | CommandKind::ClearAttachments
            | CommandKind::DrawIndexedRaw
            | CommandKind::DrawIndirectRaw
            | CommandKind::DrawRaw
            | CommandKind::EndRenderPass
            | CommandKind::NextSubpass
            | CommandKind::ResolveImage => QueueRequirement::Graphics,
            CommandKind::DispatchRaw => QueueRequirement::Compute,
            CommandKind::PushConstants
            | CommandKind::SetEvent
            | CommandKind::SetState => QueueRequirement::GraphicsOrCompute,
            CommandKind::BindPipeline | CommandKind::BindDescriptorSets => QueueRequirement::ByContent,
            CommandKind::ExecuteCommands => QueueRequirement::Unclassified,
        }
    }

    /// Whether commands of the kind refer to resources of a device.
    pub open spec fn has_device_spec(self) -> bool {
        match self {
            CommandKind::ClearAttachments
            | CommandKind::DrawIndexedRaw
            | CommandKind::DrawRaw
            | CommandKind::EndRenderPass
            | CommandKind::NextSubpass => false,
            _ => true,
        }
    }

    /// Returns what the kind of command asks of the queue family.
    #[verifier::when_used_as_spec(queue_requirement_spec)]
    pub fn queue_requirement(self) -> (requirement: QueueRequirement)
        ensures
            requirement == self.queue_requirement_spec(),
    {
        match self {
            CommandKind::CopyBuffer
            | CommandKind::CopyBufferToImage
            | CommandKind::CopyImage
            | CommandKind::FillBuffer
            | CommandKind::UpdateBuffer => QueueRequirement::Always,
            CommandKind::BeginRenderPass
            | CommandKind::BindIndexBuffer
            | CommandKind::BindVertexBuffers
            | CommandKind::BlitImage
            | CommandKind::ClearAttachments
            | CommandKind::DrawIndexedRaw
            | CommandKind::DrawIndirectRaw
            | CommandKind::DrawRaw
            | CommandKind::EndRenderPass
            | CommandKind::NextSubpass
            | CommandKind::ResolveImage => QueueRequirement::Graphics,
            CommandKind::DispatchRaw => QueueRequirement::Compute,
            CommandKind::PushConstants
            | CommandKind::SetEvent
            | CommandKind::SetState => QueueRequirement::GraphicsOrCompute,
            CommandKind::BindPipeline | CommandKind::BindDescriptorSets => QueueRequirement::ByContent,
            CommandKind::ExecuteCommands => QueueRequirement::Unclassified,
        }
    }

    /// Returns true if commands of the kind refer to resources of a device.
    #[verifier::when_used_as_spec(has_device_spec)]
    pub fn has_device(self) -> (affine: bool)
        ensures
            affine == self.has_device_spec(),
    {
        match self {
            CommandKind::ClearAttachments
            | CommandKind::DrawIndexedRaw
            | CommandKind::DrawRaw
            | CommandKind::EndRenderPass
            | CommandKind::NextSubpass => false,
            _ => true,
        }
    }
}

impl QueueRequirement {
    /// Whether a queue family with the given capabilities meets the
    /// requirement, for a command that binds for graphics if `graphics` is
    /// true.
    pub open spec fn is_met_by_spec(
        self,
        supports_graphics: bool,
        supports_compute: bool,
        graphics: bool,
    ) -> bool {
        match self {
            QueueRequirement::Always => true,
            QueueRequirement::Graphics => supports_graphics,
            QueueRequirement::Compute => supports_compute,
            QueueRequirement::GraphicsOrCompute => supports_graphics || supports_compute,
            QueueRequirement::ByContent => if graphics {
                supports_graphics
            } else {
                supports_compute
            },
            QueueRequirement::Unclassified => false,
        }
    }

    /// Returns true if a queue family with the given capabilities meets the
    /// requirement. `graphics` says what a command binds for and matters for
    /// `ByContent` only.
    #[verifier::when_used_as_spec(is_met_by_spec)]
    pub fn is_met_by(self, supports_graphics: bool, supports_compute: bool, graphics: bool) -> (met:
        bool)
        ensures
            met == self.is_met_by_spec(supports_graphics, supports_compute, graphics),
    {
        match self {
            QueueRequirement::Always => true,
            QueueRequirement::Graphics => supports_graphics,
            QueueRequirement::Compute => supports_compute,
            QueueRequirement::GraphicsOrCompute => supports_graphics || supports_compute,
            QueueRequirement::ByContent => if graphics {
                supports_graphics
            } else {
                supports_compute
            },
            QueueRequirement::Unclassified => false,
        }
    }
}

impl Command {
    /// The kind of the command.
    pub open spec fn kind_spec(&self) -> CommandKind {
        match self {
            Command::BeginRenderPass { .. } => CommandKind::BeginRenderPass,
            Command::BindDescriptorSets { .. } => CommandKind::BindDescriptorSets,
            Command::BindIndexBuffer { .. } => CommandKind::BindIndexBuffer,
            Command::BindPipeline { .. } => CommandKind::BindPipeline,
            Command::BindVertexBuffers { .. } => CommandKind::BindVertexBuffers,
            Command::BlitImage { .. } => CommandKind::BlitImage,
            Command::ClearAttachments => CommandKind::ClearAttachments,
            Command::CopyBuffer { .. } => CommandKind::CopyBuffer,
            Command::CopyBufferToImage { .. } => CommandKind::CopyBufferToImage,
            Command::CopyImage { .. } => CommandKind::CopyImage,
            Command::DispatchRaw { .. } => CommandKind::DispatchRaw,
            Command::DrawIndexedRaw => CommandKind::DrawIndexedRaw,
            Command::DrawIndirectRaw { .. } => CommandKind::DrawIndirectRaw,
            Command::DrawRaw => CommandKind::DrawRaw,
            Command::EndRenderPass => CommandKind::EndRenderPass,
            Command::ExecuteCommands { .. } => CommandKind::ExecuteCommands,
            Command::FillBuffer { .. } => CommandKind::FillBuffer,
            Command::NextSubpass => CommandKind::NextSubpass,
            Command::PushConstants { .. } => CommandKind::PushConstants,
            Command::ResolveImage { .. } => CommandKind::ResolveImage,
            Command::SetEvent { .. } => CommandKind::SetEvent,
            Command::SetState { .. } => CommandKind::SetState,
            Command::UpdateBuffer { .. } => CommandKind::UpdateBuffer,
        }
    }

    /// The device of the resources of the command, or `None` for a command
    /// that refers to none.
    pub open spec fn device_spec(&self) -> Option<DeviceId> {
        match self {
            Command::BeginRenderPass { device } => Some(*device),
            Command::BindDescriptorSets { device, .. } => Some(*device),
            Command::BindIndexBuffer { device } => Some(*device),
            Command::BindPipeline { device, .. } => Some(*device),
            Command::BindVertexBuffers { device } => Some(*device),
            Command::BlitImage { device } => Some(*device),
            Command::ClearAttachments => None,
            Command::CopyBuffer { device } => Some(*device),
            Command::CopyBufferToImage { device } => Some(*device),
            Command::CopyImage { device } => Some(*device),
            Command::DispatchRaw { device } => Some(*device),
            Command::DrawIndexedRaw => None,
            Command::DrawIndirectRaw { device } => Some(*device),
            Command::DrawRaw => None,
            Command::EndRenderPass => None,
            Command::ExecuteCommands { device } => Some(*device),
            Command::FillBuffer { device } => Some(*device),
            Command::NextSubpass => None,
            Command::PushConstants { device } => Some(*device),
            Command::ResolveImage { device } => Some(*device),
            Command::SetEvent { device } => Some(*device),
            Command::SetState { device } => Some(*device),
            Command::UpdateBuffer { device } => Some(*device),
        }
    }

    /// Whether the command binds for graphics. False for every command that
    /// binds nothing.
    pub open spec fn is_graphics_spec(&self) -> bool {
        match self {
            Command::BindPipeline { graphics, .. } => *graphics,
            Command::BindDescriptorSets { graphics, .. } => *graphics,
            _ => false,
        }
    }

    /// Whether a queue family with the given capabilities can run the
    /// command.
    pub open spec fn runs_on(&self, supports_graphics: bool, supports_compute: bool) -> bool {
        self.kind().queue_requirement().is_met_by(
            supports_graphics,
            supports_compute,
            self.is_graphics(),
        )
    }

    /// Returns the kind of the command.
    #[verifier::when_used_as_spec(kind_spec)]
    pub fn kind(&self) -> (kind: CommandKind)
        ensures
            kind == self.kind_spec(),
    {
        match self {
            Command::BeginRenderPass { .. } => CommandKind::BeginRenderPass,
            Command::BindDescriptorSets { .. } => CommandKind::BindDescriptorSets,
            Command::BindIndexBuffer { .. } => CommandKind::BindIndexBuffer,
            Command::BindPipeline { .. } => CommandKind::BindPipeline,
            Command::BindVertexBuffers { .. } => CommandKind::BindVertexBuffers,
            Command::BlitImage { .. } => CommandKind::BlitImage,
            Command::ClearAttachments => CommandKind::ClearAttachments,
            Command::CopyBuffer { .. } => CommandKind::CopyBuffer,
            Command::CopyBufferToImage { .. } => CommandKind::CopyBufferToImage,
            Command::CopyImage { .. } => CommandKind::CopyImage,
            Command::DispatchRaw { .. } => CommandKind::DispatchRaw,
            Command::DrawIndexedRaw => CommandKind::DrawIndexedRaw,
            Command::DrawIndirectRaw { .. } => CommandKind::DrawIndirectRaw,
            Command::DrawRaw => CommandKind::DrawRaw,
            Command::EndRenderPass => CommandKind::EndRenderPass,
            Command::ExecuteCommands { .. } => CommandKind::ExecuteCommands,
            Command::FillBuffer { .. } => CommandKind::FillBuffer,
            Command::NextSubpass => CommandKind::NextSubpass,
            Command::PushConstants { .. } => CommandKind::PushConstants,
            Command::ResolveImage { .. } => CommandKind::ResolveImage,
            Command::SetEvent { .. } => CommandKind::SetEvent,
            Command::SetState { .. } => CommandKind::SetState,
            Command::UpdateBuffer { .. } => CommandKind::UpdateBuffer,
        }
    }

    /// Returns the device that owns the resources of the command, or `None`
    /// if the command refers to no resource.
    #[verifier::when_used_as_spec(device_spec)]
    pub fn device(&self) -> (device: Option<DeviceId>)
        ensures
            device == self.device_spec(),
            device is Some <==> self.kind().has_device(),
    {
        match self {
            Command::BeginRenderPass { device } => Some(*device),
            Command::BindDescriptorSets { device, .. } => Some(*device),
            Command::BindIndexBuffer { device } => Some(*device),
            Command::BindPipeline { device, .. } => Some(*device),
            Command::BindVertexBuffers { device } => Some(*device),
            Command::BlitImage { device } => Some(*device),
            Command::ClearAttachments => None,
            Command::CopyBuffer { device } => Some(*device),
            Command::CopyBufferToImage { device } => Some(*device),
            Command::CopyImage { device } => Some(*device),
            Command::DispatchRaw { device } => Some(*device),
            Command::DrawIndexedRaw => None,
            Command::DrawIndirectRaw { device } => Some(*device),
            Command::DrawRaw => None,
            Command::EndRenderPass => None,
            Command::ExecuteCommands { device } => Some(*device),
            Command::FillBuffer { device } => Some(*device),
            Command::NextSubpass => None,
            Command::PushConstants { device } => Some(*device),
            Command::ResolveImage { device } => Some(*device),
            Command::SetEvent { device } => Some(*device),
            Command::SetState { device } => Some(*device),
            Command::UpdateBuffer { device } => Some(*device),
        }
    }

    /// Returns true if the command binds a pipeline or descriptor sets for
    /// graphics, false if it binds them for compute or binds nothing.
    #[verifier::when_used_as_spec(is_graphics_spec)]
    pub fn is_graphics(&self) -> (graphics: bool)
        ensures
            graphics == self.is_graphics_spec(),
    {
        match self {
            Command::BindPipeline { graphics, .. } => *graphics,
            Command::BindDescriptorSets { graphics, .. } => *graphics,
            _ => false,
        }
    }
}

} // verus!

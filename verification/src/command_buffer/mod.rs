//! Construction of command buffers.
//!
//! A command buffer is recorded through a chain of builders. The innermost
//! builder records the commands; each layer around it checks one rule before
//! it hands a command on. Adding a command consumes the builder and returns
//! the builder of the longer sequence, so a builder value always stands for
//! one recorded sequence of commands.
use crate::device::DeviceOwned;
use vstd::prelude::*;

pub mod cb;
pub mod commands_raw;

verus! {

/// Implemented on builders that know what their queue family can run.
pub trait CommandBufferBuilder: DeviceOwned {
    /// Whether the queue family supports graphics operations.
    spec fn supports_graphics_spec(&self) -> bool;

    /// Whether the queue family supports compute operations.
    spec fn supports_compute_spec(&self) -> bool;

    /// Returns true if the queue family supports graphics operations.
    fn supports_graphics(&self) -> (supported: bool)
        ensures
            supported == self.supports_graphics_spec(),
    ;

    /// Returns true if the queue family supports compute operations.
    fn supports_compute(&self) -> (supported: bool)
        ensures
            supported == self.supports_compute_spec(),
    ;
}

} // verus!

//! What validation reads from a device.
use vstd::prelude::*;

verus! {

/// Identity of a logical device: the opaque handle that the driver gave it.
///
/// Two resources belong to the same device exactly when their identities are
/// equal.
#[derive(Debug, Clone, Copy, PartialEq, Eq, Structural)]
pub struct DeviceId(pub usize);

/// Limits that the physical device advertises.
#[derive(Debug, Clone, Copy, PartialEq, Eq, Structural)]
pub struct Limits {
    /// Largest number of texels that a buffer view may address.
    pub max_texel_buffer_elements: u32,
}

/// Implemented on objects that belong to a device.
pub trait DeviceOwned {
    /// Identity of the device that owns the object.
    spec fn device_spec(&self) -> DeviceId;

    /// Returns the device that owns `self`.
    fn device(&self) -> (device: DeviceId)
        ensures
            device == self.device_spec(),
    ;
}

} // verus!

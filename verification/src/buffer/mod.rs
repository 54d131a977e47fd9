//! Buffers, as far as a view over them is concerned.
use crate::device::DeviceId;
use vstd::prelude::*;

pub mod view;

verus! {

/// Ways in which a buffer may be used. Declared when the buffer is created and
/// fixed afterwards.
#[derive(Debug, Clone, Copy, PartialEq, Eq, Structural)]
pub struct Usage {
    pub transfer_source: bool,
    pub transfer_dest: bool,
    pub uniform_texel_buffer: bool,
    pub storage_texel_buffer: bool,
    pub uniform_buffer: bool,
    pub storage_buffer: bool,
    pub index_buffer: bool,
    pub vertex_buffer: bool,
    pub indirect_buffer: bool,
}

impl Usage {
    /// The usage with no flag set.
    pub open spec fn none_spec() -> Usage {
        Usage {
            transfer_source: false,
            transfer_dest: false,
            uniform_texel_buffer: false,
            storage_texel_buffer: false,
            uniform_buffer: false,
            storage_buffer: false,
            index_buffer: false,
            vertex_buffer: false,
            indirect_buffer: false,
        }
    }

    /// Builds a usage with every flag cleared.
    #[verifier::when_used_as_spec(none_spec)]
    pub fn none() -> (usage: Usage)
        ensures
            usage == Usage::none_spec(),
    {
        Usage {
            transfer_source: false,
            transfer_dest: false,
            uniform_texel_buffer: false,
            storage_texel_buffer: false,
            uniform_buffer: false,
            storage_buffer: false,
            index_buffer: false,
            vertex_buffer: false,
            indirect_buffer: false,
        }
    }
}

/// A range of a native buffer: the part that commands and views work on.
#[derive(Debug, Clone, Copy, PartialEq, Eq, Structural)]
pub struct Buffer {
    /// Handle of the native buffer object.
    pub handle: u64,
    /// Device that owns the buffer.
    pub device: DeviceId,
    /// Offset in bytes of the range within the native buffer.
    pub offset: usize,
    /// Size in bytes of the range.
    pub size: usize,
    /// Usage that the native buffer was created with.
    pub usage: Usage,
}

} // verus!

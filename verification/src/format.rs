//! Pixel formats, as far as resource validation looks at them.
use vstd::prelude::*;

verus! {

/// Format feature bit: the format can back a uniform texel buffer.
pub const FORMAT_FEATURE_UNIFORM_TEXEL_BUFFER_BIT: u32 = 0x0008;

/// Format feature bit: the format can back a storage texel buffer.
pub const FORMAT_FEATURE_STORAGE_TEXEL_BUFFER_BIT: u32 = 0x0010;

/// Format feature bit: storage texel buffers of the format support atomic
/// operations.
pub const FORMAT_FEATURE_STORAGE_TEXEL_BUFFER_ATOMIC_BIT: u32 = 0x0020;

/// Family of a format, by the kind of data that one texel holds.
#[derive(Debug, Clone, Copy, PartialEq, Eq, Structural)]
pub enum FormatTy {
    Float,
    Uint,
    Sint,
    Depth,
    Stencil,
    DepthStencil,
    Compressed,
}

/// A pixel format: its native code, its family and the size of one texel.
///
/// Block-compressed formats have no texel size; every other format has a
/// size of at least one byte.
#[derive(Debug, Clone, Copy, PartialEq, Eq)]
pub struct Format {
    code: u32,
    ty: FormatTy,
    size: Option<usize>,
}

impl Format {
    /// Whether a family and a texel size can belong to one format.
    pub open spec fn consistent(ty: FormatTy, size: Option<usize>) -> bool {
        match size {
            None => ty == FormatTy::Compressed,
            Some(bytes) => ty != FormatTy::Compressed && bytes > 0,
        }
    }

    #[verifier::type_invariant]
    spec fn well_formed(self) -> bool {
        Format::consistent(self.ty, self.size)
    }

    pub closed spec fn code_spec(self) -> u32 {
        self.code
    }

    pub closed spec fn ty_spec(self) -> FormatTy {
        self.ty
    }

    pub closed spec fn size_spec(self) -> Option<usize> {
        self.size
    }

    /// Describes a format. Returns `None` if the size does not fit the family:
    /// a compressed format with a texel size, another format without one, or a
    /// size of zero.
    pub fn new(code: u32, ty: FormatTy, size: Option<usize>) -> (format: Option<Format>)
        ensures
            format is Some <==> Format::consistent(ty, size),
            format matches Some(f) ==> f.code() == code && f.ty() == ty && f.size() == size,
    {
        let fits = match size {
            None => ty == FormatTy::Compressed,
            Some(bytes) => ty != FormatTy::Compressed && bytes > 0,
        };
        if fits {
            Some(Format { code, ty, size })
        } else {
            None
        }
    }

    /// Native code of the format.
    #[verifier::when_used_as_spec(code_spec)]
    pub fn code(self) -> (code: u32)
        ensures
            code == self.code_spec(),
    {
        self.code
    }

    /// Family of the format.
    #[verifier::when_used_as_spec(ty_spec)]
    pub fn ty(self) -> (ty: FormatTy)
        ensures
            ty == self.ty_spec(),
    {
        self.ty
    }

    /// Size in bytes of one texel, or `None` for a block-compressed format.
    #[verifier::when_used_as_spec(size_spec)]
    pub fn size(self) -> (size: Option<usize>)
        ensures
            size == self.size_spec(),
            Format::consistent(self.ty(), size),
    {
        proof {
            use_type_invariant(&self);
        }
        self.size
    }
}

} // verus!

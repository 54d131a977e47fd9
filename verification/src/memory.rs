//! Device memory, as far as the choice of a memory type goes.
use vstd::prelude::*;

verus! {

/// Number of memory types that a device can report at most. A mask of memory
/// types has one bit for each.
pub const MAX_MEMORY_TYPES: u32 = 32;

/// A memory type of a physical device.
#[derive(Debug, Clone, Copy, PartialEq, Eq)]
pub struct MemoryType {
    id: u32,
    device_local: bool,
}

/// What a resource asks of the memory that it is bound to.
#[derive(Debug, Clone, Copy, PartialEq, Eq, Structural)]
pub struct MemoryRequirements {
    /// Number of bytes of memory required.
    pub size: usize,
    /// Alignment of the requirements buffer. The base memory address must be
    /// a multiple of this value.
    pub alignment: usize,
    /// Mask of the memory types that suit the resource: bit `i` is set if
    /// the memory type of id `i` does.
    pub memory_type_bits: u32,
}

/// How the resource that memory is allocated for lays out its data.
#[derive(Debug, Clone, Copy, PartialEq, Eq, Structural)]
pub enum AllocLayout {
    /// The resource is a buffer or a linear image.
    Linear,
    /// The resource is an optimal image.
    Optimal,
}

/// A block of device memory that a pool has handed out.
#[derive(Debug, Clone, Copy, PartialEq, Eq, Structural)]
pub struct MemoryAlloc {
    /// Handle of the native memory object that the block lies in.
    pub memory: u64,
    /// Offset in bytes of the block within the memory object.
    pub offset: usize,
}

impl MemoryType {
    #[verifier::type_invariant]
    spec fn well_formed(self) -> bool {
        self.id < MAX_MEMORY_TYPES
    }

    pub closed spec fn id_spec(&self) -> u32 {
        self.id
    }

    pub closed spec fn is_device_local_spec(&self) -> bool {
        self.device_local
    }

    /// Whether the mask `memory_type_bits` names this memory type.
    pub open spec fn is_allowed_by_spec(&self, memory_type_bits: u32) -> bool {
        memory_type_bits & (1u32 << self.id()) != 0
    }

    /// Describes the memory type of the given id. Returns `None` if the id is
    /// not below `MAX_MEMORY_TYPES`.
    pub fn new(id: u32, device_local: bool) -> (memory_type: Option<MemoryType>)
        ensures
            memory_type is Some <==> id < MAX_MEMORY_TYPES,
            memory_type matches Some(ty) ==> ty.id() == id && ty.is_device_local()
                == device_local,
    {
        if id < MAX_MEMORY_TYPES {
            Some(MemoryType { id, device_local })
        } else {
            None
        }
    }

    /// Returns the index of this memory type within the physical device.
    #[verifier::when_used_as_spec(id_spec)]
    pub fn id(&self) -> (id: u32)
        ensures
            id == self.id_spec(),
            id < MAX_MEMORY_TYPES,
    {
        proof {
            use_type_invariant(self);
        }
        self.id
    }

    /// Returns true if the memory type is located on the device, which means
    /// that it's the most efficient for GPU accesses.
    #[verifier::when_used_as_spec(is_device_local_spec)]
    pub fn is_device_local(&self) -> (device_local: bool)
        ensures
            device_local == self.is_device_local_spec(),
    {
        self.device_local
    }

    /// Returns true if the mask names this memory type.
    #[verifier::when_used_as_spec(is_allowed_by_spec)]
    pub fn is_allowed_by(&self, memory_type_bits: u32) -> (allowed: bool)
        ensures
            allowed == self.is_allowed_by_spec(memory_type_bits),
    {
        (memory_type_bits & (1u32 << self.id())) != 0
    }
}

/// Whether a memory type is a candidate: the mask names it, and it is
/// device-local where only such types are wanted.
pub open spec fn is_candidate(ty: MemoryType, memory_type_bits: u32, device_local_only: bool) -> bool {
    ty.is_allowed_by(memory_type_bits) && (device_local_only ==> ty.is_device_local())
}

/// The first candidate among `types`, in their order.
pub open spec fn first_candidate(
    types: Seq<MemoryType>,
    memory_type_bits: u32,
    device_local_only: bool,
) -> Option<MemoryType>
    decreases types.len(),
{
    if types.len() == 0 {
        None
    } else if is_candidate(types[0], memory_type_bits, device_local_only) {
        Some(types[0])
    } else {
        first_candidate(types.drop_first(), memory_type_bits, device_local_only)
    }
}

/// The memory type to allocate from: the first device-local type that the
/// mask names, or, where there is none, the first type that the mask names.
pub open spec fn preferred_memory_type(types: Seq<MemoryType>, memory_type_bits: u32) -> Option<
    MemoryType,
> {
    match first_candidate(types, memory_type_bits, true) {
        Some(ty) => Some(ty),
        None => first_candidate(types, memory_type_bits, false),
    }
}

/// Skipping a type that is no candidate does not change the first candidate
/// of what follows.
proof fn lemma_first_candidate_skips(
    types: Seq<MemoryType>,
    memory_type_bits: u32,
    device_local_only: bool,
    from: int,
)
    requires
        0 <= from < types.len(),
        !is_candidate(types[from], memory_type_bits, device_local_only),
    ensures
        first_candidate(types.subrange(from, types.len() as int), memory_type_bits, device_local_only)
            == first_candidate(
            types.subrange(from + 1, types.len() as int),
            memory_type_bits,
            device_local_only,
        ),
{
    let rest = types.subrange(from, types.len() as int);
    assert(rest[0] == types[from]);
    assert(rest.drop_first() =~= types.subrange(from + 1, types.len() as int));
}

/// Finds the first candidate among the memory types.
fn find_candidate(types: &Vec<MemoryType>, memory_type_bits: u32, device_local_only: bool) -> (found:
    Option<MemoryType>)
    ensures
        found == first_candidate(types@, memory_type_bits, device_local_only),
{
    let mut index: usize = 0;
    assert(types@.subrange(0, types@.len() as int) =~= types@);
    while index < types.len()
        invariant
            index <= types.len(),
            first_candidate(types@, memory_type_bits, device_local_only) == first_candidate(
                types@.subrange(index as int, types@.len() as int),
                memory_type_bits,
                device_local_only,
            ),
        decreases types.len() - index,
    {
        let ty = types[index];
        if ty.is_allowed_by(memory_type_bits) && (!device_local_only || ty.is_device_local()) {
            assert(types@.subrange(index as int, types@.len() as int)[0] == ty);
            return Some(ty);
        }
        proof {
            lemma_first_candidate_skips(types@, memory_type_bits, device_local_only, index as int);
        }
        index += 1;
    }
    None
}

/// Chooses the memory type to allocate from for a resource whose suitable
/// memory types are those of the mask `memory_type_bits`: device-local memory
/// where some suits, any suitable memory otherwise. Returns `None` if no
/// type of the device suits.
pub fn select_memory_type(types: &Vec<MemoryType>, memory_type_bits: u32) -> (chosen: Option<
    MemoryType,
>)
    ensures
        chosen == preferred_memory_type(types@, memory_type_bits),
{
    match find_candidate(types, memory_type_bits, true) {
        Some(ty) => Some(ty),
        None => find_candidate(types, memory_type_bits, false),
    }
}

/// What the choice of a memory type amounts to: the chosen type is one of
/// the device that the mask names; no earlier type would have been chosen
/// under the same preference; and a type is found whenever the mask names
/// any type of the device.
pub proof fn lemma_first_candidate_is_first(
    types: Seq<MemoryType>,
    memory_type_bits: u32,
    device_local_only: bool,
)
    ensures
        match first_candidate(types, memory_type_bits, device_local_only) {
            Some(ty) => exists|at: int|
                0 <= at < types.len() && types[at] == ty && is_candidate(
                    ty,
                    memory_type_bits,
                    device_local_only,
                ) && forall|before: int|
                    0 <= before < at ==> !is_candidate(
                        #[trigger] types[before],
                        memory_type_bits,
                        device_local_only,
                    ),
            None => forall|at: int|
                0 <= at < types.len() ==> !is_candidate(
                    #[trigger] types[at],
                    memory_type_bits,
                    device_local_only,
                ),
        },
    decreases types.len(),
{
    if types.len() == 0 {
    } else if is_candidate(types[0], memory_type_bits, device_local_only) {
        assert(types[0] == types[0]);
    } else {
        let rest = types.drop_first();
        lemma_first_candidate_is_first(rest, memory_type_bits, device_local_only);
        assert(forall|at: int| 0 <= at < rest.len() ==> rest[at] == types[at + 1]);
        match first_candidate(rest, memory_type_bits, device_local_only) {
            Some(ty) => {
                let at = choose|at: int|
                    0 <= at < rest.len() && rest[at] == ty && is_candidate(
                        ty,
                        memory_type_bits,
                        device_local_only,
                    ) && forall|before: int|
                        0 <= before < at ==> !is_candidate(
                            #[trigger] rest[before],
                            memory_type_bits,
                            device_local_only,
                        );
                assert(types[at + 1] == ty);
                assert forall|before: int| 0 <= before < at + 1 implies !is_candidate(
                    #[trigger] types[before],
                    memory_type_bits,
                    device_local_only,
                ) by {
                    if before > 0 {
                        assert(types[before] == rest[before - 1]);
                    }
                }
            },
            None => {
                assert forall|at: int| 0 <= at < types.len() implies !is_candidate(
                    #[trigger] types[at],
                    memory_type_bits,
                    device_local_only,
                ) by {
                    if at > 0 {
                        assert(types[at] == rest[at - 1]);
                    }
                }
            },
        }
    }
}

} // verus!

//! Description of the descriptor sets and bindings of a pipeline.
use crate::descriptor::descriptor::DescriptorDesc;
use crate::device::DeviceId;
use vstd::prelude::*;

verus! {

/// The shape of the resources that a pipeline or a shader expects: for each
/// descriptor set, for each binding, the descriptor bound there, if any.
#[derive(Debug, Clone, PartialEq, Eq)]
pub struct PipelineLayoutDesc {
    /// Descriptor sets by number; in each set, descriptors by binding number.
    pub sets: Vec<Vec<Option<DescriptorDesc>>>,
}

/// A pipeline layout object that the driver has built from a description.
#[derive(Debug, Clone, PartialEq, Eq)]
pub struct PipelineLayout {
    /// Handle of the native layout object.
    pub handle: u64,
    /// Device that owns the layout.
    pub device: DeviceId,
    /// Description that the layout was built from.
    pub desc: PipelineLayoutDesc,
    /// Handles of the native descriptor set layouts, by set number.
    pub set_layouts: Vec<u64>,
}

impl PipelineLayout {
    /// Returns the handle of the native layout object.
    pub fn sys(&self) -> (handle: u64)
        ensures
            handle == self.handle,
    {
        self.handle
    }

    /// Returns the description that the layout was built from.
    pub fn desc(&self) -> (desc: &PipelineLayoutDesc)
        ensures
            *desc == self.desc,
    {
        &self.desc
    }

    /// Returns the handle of the native layout of a descriptor set, or
    /// `None` if the pipeline layout has no set of that number.
    pub fn descriptor_set_layout(&self, index: usize) -> (layout: Option<u64>)
        ensures
            layout == if index < self.set_layouts@.len() {
                Some(self.set_layouts@[index as int])
            } else {
                None
            },
    {
        if index < self.set_layouts.len() {
            Some(self.set_layouts[index])
        } else {
            None
        }
    }
}

impl PipelineLayoutDesc {
    /// Number of descriptor sets.
    pub open spec fn num_sets_spec(&self) -> nat {
        self.sets@.len()
    }

    /// Number of binding slots of a set, or `None` if there is no such set.
    pub open spec fn num_bindings_in_set_spec(&self, set: int) -> Option<nat> {
        if 0 <= set < self.sets@.len() {
            Some(self.sets@[set]@.len())
        } else {
            None
        }
    }

    /// The descriptor at a binding of a set, or `None` if nothing is bound
    /// there.
    pub open spec fn descriptor_spec(&self, set: int, binding: int) -> Option<DescriptorDesc> {
        if 0 <= set < self.sets@.len() && 0 <= binding < self.sets@[set]@.len() {
            self.sets@[set]@[binding]
        } else {
            None
        }
    }

    /// What `other` expects at one binding is served by `self`: nothing is
    /// expected there, or `self` holds a descriptor there that is a superset
    /// of the expected one.
    pub open spec fn serves(&self, other: &PipelineLayoutDesc, set: int, binding: int) -> bool {
        other.descriptor_spec(set, binding) matches Some(expected) ==> (self.descriptor_spec(
            set,
            binding,
        ) matches Some(offered) && offered.is_superset_of(&expected))
    }

    /// Every descriptor that `other` expects is served by `self`.
    pub open spec fn is_superset_of_spec(&self, other: &PipelineLayoutDesc) -> bool {
        forall|set: int, binding: int| #[trigger] self.serves(other, set, binding)
    }

    /// Returns the number of descriptor sets.
    pub fn num_sets(&self) -> (count: usize)
        ensures
            count == self.num_sets_spec(),
    {
        self.sets.len()
    }

    /// Returns the number of binding slots of a set, or `None` if the set is
    /// out of range.
    pub fn num_bindings_in_set(&self, set: usize) -> (count: Option<usize>)
        ensures
            match self.num_bindings_in_set_spec(set as int) {
                Some(bindings) => count == Some(bindings as usize),
                None => count is None,
            },
    {
        if set < self.sets.len() {
            Some(self.sets[set].len())
        } else {
            None
        }
    }

    /// Returns the descriptor at a binding of a set, or `None` if the set or
    /// the binding is out of range or nothing is bound there.
    pub fn descriptor(&self, set: usize, binding: usize) -> (desc: Option<DescriptorDesc>)
        ensures
            desc == self.descriptor_spec(set as int, binding as int),
    {
        if set < self.sets.len() {
            let bindings = &self.sets[set];
            if binding < bindings.len() {
                bindings[binding]
            } else {
                None
            }
        } else {
            None
        }
    }

    /// Checks that this description offers everything that `other` expects:
    /// every descriptor of `other` exists here, at the same set and binding,
    /// as a superset of it.
    pub fn is_superset_of(&self, other: &PipelineLayoutDesc) -> (superset: bool)
        ensures
            superset == self.is_superset_of_spec(other),
    {
        let mut set: usize = 0;
        while set < other.sets.len()
            invariant
                set <= other.sets.len(),
                forall|s: int, b: int| 0 <= s < set ==> #[trigger] self.serves(other, s, b),
            decreases other.sets.len() - set,
        {
            let expected_set = &other.sets[set];
            let mut binding: usize = 0;
            while binding < expected_set.len()
                invariant
                    set < other.sets.len(),
                    expected_set == other.sets@[set as int],
                    binding <= expected_set.len(),
                    forall|b: int| 0 <= b < binding ==> #[trigger] self.serves(other, set as int, b),
                decreases expected_set.len() - binding,
            {
                match expected_set[binding] {
                    Some(expected) => {
                        let served = match self.descriptor(set, binding) {
                            Some(offered) => offered.is_superset_of(&expected),
                            None => false,
                        };
                        if !served {
                            assert(!self.serves(other, set as int, binding as int));
                            return false;
                        }
                    },
                    None => {},
                }
                binding += 1;
            }
            set += 1;
        }
        true
    }
}

/// Every description offers what it expects itself. So a pipeline layout that
/// is built from the description of a shader is always compatible with the
/// shader.
pub proof fn lemma_layout_serves_itself(desc: PipelineLayoutDesc)
    ensures
        desc.is_superset_of_spec(&desc),
{
    assert forall|set: int, binding: int| #[trigger] desc.serves(&desc, set, binding) by {}
}

} // verus!

//! Selection of a device memory type for an allocation.

use vstd::prelude::*;

verus! {

/// Number of entries in the memory-type table of a physical device.
pub const MAX_MEMORY_TYPES: u32 = 32;

/// Memory is local to the device (fastest for GPU access).
pub const MEMORY_PROPERTY_DEVICE_LOCAL: u32 = 0x1;

/// Memory can be mapped for host access.
pub const MEMORY_PROPERTY_HOST_VISIBLE: u32 = 0x2;

/// Host writes become visible without explicit flushes.
pub const MEMORY_PROPERTY_HOST_COHERENT: u32 = 0x4;

/// What a resource needs from its backing memory.
#[derive(Clone, Copy, Debug, PartialEq, Eq)]
pub struct MemoryRequirements {
    pub size: u64,
    pub alignment: u64,
    /// Bit `i` is set when memory type `i` may back the resource.
    pub memory_type_bits: u32,
}

/// One entry of the memory-type table.
#[derive(Clone, Copy, Debug, PartialEq, Eq)]
pub struct MemoryType {
    pub property_flags: u32,
    pub heap_index: u32,
}

/// The memory-type table of a physical device; only the first
/// `memory_type_count` entries are meaningful.
#[derive(Clone, Copy, Debug, PartialEq, Eq)]
pub struct MemoryProperties {
    pub memory_type_count: u32,
    pub memory_types: [MemoryType; 32],
}

/// Bit `index` of `memory_type_bits` is set.
pub open spec fn type_bit_set(memory_type_bits: u32, index: u32) -> bool {
    (1u32 << index) & memory_type_bits != 0
}

/// Every flag of `flags` is among `property_flags`.
pub open spec fn has_all_flags(property_flags: u32, flags: u32) -> bool {
    property_flags & flags == flags
}

/// Memory type `index` may back the resource and has every requested flag.
pub open spec fn suitable(
    req: MemoryRequirements,
    props: MemoryProperties,
    flags: u32,
    index: u32,
) -> bool {
    &&& index < props.memory_type_count
    &&& index < MAX_MEMORY_TYPES
    &&& type_bit_set(req.memory_type_bits, index)
    &&& has_all_flags(props.memory_types@[index as int].property_flags, flags)
}

/// The first suitable memory type at or after `start`, if any.
pub open spec fn first_suitable_from(
    req: MemoryRequirements,
    props: MemoryProperties,
    flags: u32,
    start: u32,
) -> Option<u32>
    decreases MAX_MEMORY_TYPES - start,
{
    if start >= props.memory_type_count || start >= MAX_MEMORY_TYPES {
        None
    } else if suitable(req, props, flags, start) {
        Some(start)
    } else {
        first_suitable_from(req, props, flags, (start + 1) as u32)
    }
}

/// The memory type that `find_memorytype_index` picks.
pub open spec fn first_suitable(
    req: MemoryRequirements,
    props: MemoryProperties,
    flags: u32,
) -> Option<u32> {
    first_suitable_from(req, props, flags, 0)
}

/// The search from `start` returns a suitable index no smaller than `start`,
/// and every index it skipped is unsuitable; `None` means none is suitable.
pub proof fn lemma_first_suitable_from(
    req: MemoryRequirements,
    props: MemoryProperties,
    flags: u32,
    start: u32,
)
    ensures
        match first_suitable_from(req, props, flags, start) {
            Some(i) => start <= i && suitable(req, props, flags, i) && forall|j: u32|
                start <= j < i ==> !suitable(req, props, flags, j),
            None => forall|j: u32| start <= j ==> !suitable(req, props, flags, j),
        },
    decreases MAX_MEMORY_TYPES - start,
{
    if start >= props.memory_type_count || start >= MAX_MEMORY_TYPES {
    } else if suitable(req, props, flags, start) {
    } else {
        lemma_first_suitable_from(req, props, flags, (start + 1) as u32);
    }
}

/// Returns the index of the first memory type that `memory_req` allows and
/// whose property flags include all of `flags`, or `None` when there is none.
pub fn find_memorytype_index(
    memory_req: &MemoryRequirements,
    memory_prop: &MemoryProperties,
    flags: u32,
) -> (result: Option<u32>)
    requires
        memory_prop.memory_type_count <= MAX_MEMORY_TYPES,
    ensures
        result == first_suitable(*memory_req, *memory_prop, flags),
        match result {
            Some(i) => suitable(*memory_req, *memory_prop, flags, i) && forall|j: u32|
                j < i ==> !suitable(*memory_req, *memory_prop, flags, j),
            None => forall|j: u32| !suitable(*memory_req, *memory_prop, flags, j),
        },
{
    let count = memory_prop.memory_type_count;
    let mut index: u32 = 0;
    while index < count
        invariant
            count == memory_prop.memory_type_count,
            count <= MAX_MEMORY_TYPES,
            index <= count,
            first_suitable(*memory_req, *memory_prop, flags) == first_suitable_from(
                *memory_req,
                *memory_prop,
                flags,
                index,
            ),
        decreases count - index,
    {
        let memory_type = memory_prop.memory_types[index as usize];
        if (1u32 << index) & memory_req.memory_type_bits != 0 && memory_type.property_flags & flags
            == flags {
            proof {
                lemma_first_suitable_from(*memory_req, *memory_prop, flags, 0);
            }
            return Some(index);
        }
        index = index + 1;
    }
    proof {
        lemma_first_suitable_from(*memory_req, *memory_prop, flags, 0);
    }
    None
}

/// Asking for fewer property flags never picks a later memory type: when
/// `fewer` is a subset of `flags` and some type suits `flags`, some type
/// suits `fewer` too, at the same index or an earlier one.
pub proof fn lemma_fewer_flags_never_later(
    req: MemoryRequirements,
    props: MemoryProperties,
    flags: u32,
    fewer: u32,
)
    requires
        fewer & flags == fewer,
        first_suitable(req, props, flags) is Some,
    ensures
        first_suitable(req, props, fewer) is Some,
        first_suitable(req, props, fewer)->0 <= first_suitable(req, props, flags)->0,
{
    lemma_first_suitable_from(req, props, flags, 0);
    lemma_first_suitable_from(req, props, fewer, 0);
    let i = first_suitable(req, props, flags)->0;
    let t = props.memory_types@[i as int].property_flags;
    assert(t & fewer == fewer) by (bit_vector)
        requires
            t & flags == flags,
            fewer & flags == fewer,
    ;
    assert(suitable(req, props, fewer, i));
}

} // verus!

//! Integer decisions taken while bringing up a device: which memory type backs
//! an allocation, which queue family draws and presents, how many swapchain
//! images to ask for.
use vstd::prelude::*;

verus! {

/// What a resource needs from the memory that backs it.
#[derive(Debug, Clone, Copy, PartialEq, Eq, Structural)]
pub struct MemoryRequirements {
    /// Bytes to allocate.
    pub size: u64,
    /// Alignment, in bytes, of the allocation's start.
    pub alignment: u64,
    /// Bit `i` is set when the device's memory type `i` may back the resource.
    pub memory_type_bits: u32,
}

/// How much memory to allocate, and from which memory type.
#[derive(Debug, Clone, Copy, PartialEq, Eq, Structural)]
pub struct MemoryAllocateInfo {
    pub allocation_size: u64,
    pub memory_type_index: u32,
}

/// A device offers at most this many memory types.
pub const MAX_MEMORY_TYPES: usize = 32;

/// Memory type `i` is among those that `type_bits` allows.
pub open spec fn memory_type_allowed(type_bits: u32, i: u32) -> bool {
    type_bits & (1u32 << i) != 0
}

/// `flags` holds every property in `desired`.
pub open spec fn has_properties(flags: u32, desired: u32) -> bool {
    flags & desired == desired
}

/// Memory type `i`, whose property flags are `type_flags[i]`, may back a
/// resource with requirements `reqs` and has every desired property.
pub open spec fn memory_type_suitable(
    reqs: MemoryRequirements,
    type_flags: Seq<u32>,
    i: int,
    desired: u32,
) -> bool {
    &&& 0 <= i < type_flags.len()
    &&& memory_type_allowed(reqs.memory_type_bits, i as u32)
    &&& has_properties(type_flags[i], desired)
}

/// Chooses the memory that backs a resource: `memory_type_flags[i]` are the
/// property flags of the device's memory type `i`. The allocation has the
/// size that the resource requires, and its type is the first suitable one;
/// where none is, the index is the number of memory types, which names none.
pub fn reconcile_memory_requirements_with_physical_device_memory_types(
    reqs: &MemoryRequirements,
    memory_type_flags: &[u32],
    desired_properties: u32,
) -> (info: MemoryAllocateInfo)
    requires
        memory_type_flags.len() <= MAX_MEMORY_TYPES,
    ensures
        info.allocation_size == reqs.size,
        info.memory_type_index <= memory_type_flags.len(),
        info.memory_type_index < memory_type_flags.len() ==> memory_type_suitable(
            *reqs,
            memory_type_flags@,
            info.memory_type_index as int,
            desired_properties,
        ),
        forall|j: int|
            0 <= j < info.memory_type_index ==> !#[trigger] memory_type_suitable(
                *reqs,
                memory_type_flags@,
                j,
                desired_properties,
            ),
{
    let count: u32 = memory_type_flags.len() as u32;
    let mut memory_type_index: u32 = 0;
    while memory_type_index < count
        invariant
            count == memory_type_flags.len(),
            count <= 32,
            memory_type_index <= count,
            forall|j: int|
                0 <= j < memory_type_index ==> !#[trigger] memory_type_suitable(
                    *reqs,
                    memory_type_flags@,
                    j,
                    desired_properties,
                ),
        ensures
            memory_type_index <= count,
            memory_type_index < count ==> memory_type_suitable(
                *reqs,
                memory_type_flags@,
                memory_type_index as int,
                desired_properties,
            ),
            forall|j: int|
                0 <= j < memory_type_index ==> !#[trigger] memory_type_suitable(
                    *reqs,
                    memory_type_flags@,
                    j,
                    desired_properties,
                ),
        decreases count - memory_type_index,
    {
        if (reqs.memory_type_bits & (1u32 << memory_type_index) != 0) && (
        memory_type_flags[memory_type_index as usize] & desired_properties == desired_properties) {
            break;
        }
        memory_type_index += 1;
    }
    MemoryAllocateInfo { allocation_size: reqs.size, memory_type_index }
}

/// The bit of a queue family's flags that marks it as able to run graphics work.
pub const QUEUE_GRAPHICS_BIT: u32 = 1;

/// A queue family as the device reports it: its queue flags, and whether its
/// queues can present to the window's surface.
#[derive(Debug, Clone, Copy, PartialEq, Eq, Structural)]
pub struct QueueFamilyCandidate {
    pub queue_flags: u32,
    pub surface_supported: bool,
}

/// The family runs graphics work and presents to the surface.
pub open spec fn queue_family_usable(family: QueueFamilyCandidate) -> bool {
    &&& family.queue_flags & QUEUE_GRAPHICS_BIT == QUEUE_GRAPHICS_BIT
    &&& family.surface_supported
}

/// The index of the first queue family that both draws and presents, or
/// `None` where no family does both.
pub fn pick_queue_family_index(families: &[QueueFamilyCandidate]) -> (r: Option<u32>)
    requires
        families.len() <= u32::MAX,
    ensures
        r is None <==> forall|j: int|
            0 <= j < families.len() ==> !#[trigger] queue_family_usable(families@[j]),
        r matches Some(i) ==> {
            &&& i < families.len()
            &&& queue_family_usable(families@[i as int])
            &&& forall|j: int| 0 <= j < i ==> !#[trigger] queue_family_usable(families@[j])
        },
{
    let mut i: usize = 0;
    while i < families.len()
        invariant
            families.len() <= u32::MAX,
            i <= families.len(),
            forall|j: int| 0 <= j < i ==> !#[trigger] queue_family_usable(families@[j]),
        decreases families.len() - i,
    {
        let family = families[i];
        if family.queue_flags & QUEUE_GRAPHICS_BIT == QUEUE_GRAPHICS_BIT && family.surface_supported {
            assert(queue_family_usable(families@[i as int]));
            return Some(i as u32);
        }
        i += 1;
    }
    None
}

/// The number of swapchain images to ask for: one more than the surface's
/// minimum, unless the surface's maximum (where `surface_max` is not 0, which
/// means no maximum) is lower.
pub open spec fn requested_image_count(surface_min: u32, surface_max: u32) -> int {
    let cap: int = if surface_max == 0 { u32::MAX as int } else { surface_max as int };
    if surface_min + 1 <= cap {
        surface_min + 1
    } else {
        cap
    }
}

/// How many images a swapchain asks for, given the least and the most that the
/// surface supports (a most of 0 means no limit).
pub fn swapchain_min_image_count(surface_min: u32, surface_max: u32) -> (n: u32)
    requires
        surface_min < u32::MAX,
    ensures
        n == requested_image_count(surface_min, surface_max),
{
    let cap: u32 = if surface_max == 0 {
        u32::MAX
    } else {
        surface_max
    };
    let wanted: u32 = surface_min + 1;
    if wanted <= cap {
        wanted
    } else {
        cap
    }
}

/// A swapchain asks for at least one image, never more than a surface that has
/// a maximum allows, and exactly one more than the minimum when the maximum
/// leaves room.
pub proof fn lemma_image_count_bounds(surface_min: u32, surface_max: u32)
    requires
        surface_min < u32::MAX,
    ensures
        requested_image_count(surface_min, surface_max) >= 1,
        surface_max != 0 ==> requested_image_count(surface_min, surface_max) <= surface_max,
        (surface_max == 0 || surface_min < surface_max) ==> requested_image_count(
            surface_min,
            surface_max,
        ) == surface_min + 1,
{
}

} // verus!

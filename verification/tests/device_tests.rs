use voxel_explore::device::{
    pick_queue_family_index, reconcile_memory_requirements_with_physical_device_memory_types,
    swapchain_min_image_count, MemoryAllocateInfo, MemoryRequirements, QueueFamilyCandidate,
};

const DEVICE_LOCAL: u32 = 0x1;
const HOST_VISIBLE: u32 = 0x2;
const HOST_COHERENT: u32 = 0x4;

fn reqs(size: u64, bits: u32) -> MemoryRequirements {
    MemoryRequirements { size, alignment: 16, memory_type_bits: bits }
}

#[test]
fn picks_first_allowed_type_with_all_desired_properties() {
    let types = [DEVICE_LOCAL, HOST_VISIBLE, HOST_VISIBLE | HOST_COHERENT, DEVICE_LOCAL | HOST_VISIBLE | HOST_COHERENT];
    let info = reconcile_memory_requirements_with_physical_device_memory_types(
        &reqs(4096, 0b1111),
        &types,
        HOST_VISIBLE | HOST_COHERENT,
    );
    assert_eq!(info, MemoryAllocateInfo { allocation_size: 4096, memory_type_index: 2 });
}

#[test]
fn skips_types_the_resource_does_not_allow() {
    let types = [DEVICE_LOCAL, DEVICE_LOCAL, DEVICE_LOCAL | HOST_VISIBLE];
    let info = reconcile_memory_requirements_with_physical_device_memory_types(&reqs(256, 0b110), &types, DEVICE_LOCAL);
    assert_eq!(info.memory_type_index, 1);
    assert_eq!(info.allocation_size, 256);
}

#[test]
fn no_suitable_type_gives_the_type_count() {
    let types = [DEVICE_LOCAL, DEVICE_LOCAL];
    let info = reconcile_memory_requirements_with_physical_device_memory_types(&reqs(64, 0b11), &types, HOST_VISIBLE);
    assert_eq!(info.memory_type_index, 2);
    let none: [u32; 0] = [];
    let info = reconcile_memory_requirements_with_physical_device_memory_types(&reqs(64, u32::MAX), &none, 0);
    assert_eq!(info.memory_type_index, 0);
}

#[test]
fn highest_memory_type_bit_is_read() {
    let mut types = [0u32; 32];
    types[31] = DEVICE_LOCAL;
    let info = reconcile_memory_requirements_with_physical_device_memory_types(&reqs(8, 1 << 31), &types, DEVICE_LOCAL);
    assert_eq!(info.memory_type_index, 31);
}

#[test]
fn no_desired_properties_takes_first_allowed_type() {
    let types = [DEVICE_LOCAL, HOST_VISIBLE];
    let info = reconcile_memory_requirements_with_physical_device_memory_types(&reqs(8, 0b10), &types, 0);
    assert_eq!(info.memory_type_index, 1);
}

#[test]
fn queue_family_must_draw_and_present() {
    let families = [
        QueueFamilyCandidate { queue_flags: 0b1110, surface_supported: true },
        QueueFamilyCandidate { queue_flags: 0b0001, surface_supported: false },
        QueueFamilyCandidate { queue_flags: 0b0111, surface_supported: true },
        QueueFamilyCandidate { queue_flags: 0b0001, surface_supported: true },
    ];
    assert_eq!(pick_queue_family_index(&families), Some(2));
    assert_eq!(pick_queue_family_index(&families[..2]), None);
    assert_eq!(pick_queue_family_index(&[]), None);
}

#[test]
fn swapchain_asks_for_one_image_more_than_the_minimum() {
    assert_eq!(swapchain_min_image_count(2, 0), 3);
    assert_eq!(swapchain_min_image_count(2, 8), 3);
    assert_eq!(swapchain_min_image_count(3, 3), 3);
    assert_eq!(swapchain_min_image_count(0, 0), 1);
    assert_eq!(swapchain_min_image_count(u32::MAX - 1, 0), u32::MAX);
}

use ash::vk::MemoryPropertyFlags as F;
use vulkan_training::memory::{
    find_memorytype_index, MemoryProperties, MemoryRequirements, MemoryType,
    MEMORY_PROPERTY_DEVICE_LOCAL, MEMORY_PROPERTY_HOST_COHERENT, MEMORY_PROPERTY_HOST_VISIBLE,
};

fn props(types: &[u32]) -> MemoryProperties {
    let mut memory_types = [MemoryType { property_flags: 0, heap_index: 0 }; 32];
    for (i, flags) in types.iter().enumerate() {
        memory_types[i] = MemoryType { property_flags: *flags, heap_index: i as u32 % 2 };
    }
    MemoryProperties { memory_type_count: types.len() as u32, memory_types }
}

fn req(bits: u32) -> MemoryRequirements {
    MemoryRequirements { size: 4096, alignment: 256, memory_type_bits: bits }
}

const HOST: u32 = MEMORY_PROPERTY_HOST_VISIBLE | MEMORY_PROPERTY_HOST_COHERENT;

#[test]
fn memory_flag_values_match_vulkan() {
    assert_eq!(MEMORY_PROPERTY_DEVICE_LOCAL, F::DEVICE_LOCAL.as_raw());
    assert_eq!(MEMORY_PROPERTY_HOST_VISIBLE, F::HOST_VISIBLE.as_raw());
    assert_eq!(MEMORY_PROPERTY_HOST_COHERENT, F::HOST_COHERENT.as_raw());
    assert_eq!(vulkan_training::memory::MAX_MEMORY_TYPES as usize, ash::vk::MAX_MEMORY_TYPES);
}

#[test]
fn picks_first_device_local_type() {
    let p = props(&[HOST, MEMORY_PROPERTY_DEVICE_LOCAL, MEMORY_PROPERTY_DEVICE_LOCAL | HOST]);
    assert_eq!(find_memorytype_index(&req(0b111), &p, MEMORY_PROPERTY_DEVICE_LOCAL), Some(1));
    assert_eq!(find_memorytype_index(&req(0b111), &p, HOST), Some(0));
}

#[test]
fn respects_memory_type_bits() {
    let p = props(&[HOST, MEMORY_PROPERTY_DEVICE_LOCAL, MEMORY_PROPERTY_DEVICE_LOCAL | HOST]);
    // Type 0 is not allowed by the resource, so the host-visible search
    // has to move on to type 2.
    assert_eq!(find_memorytype_index(&req(0b110), &p, HOST), Some(2));
    assert_eq!(find_memorytype_index(&req(0b001), &p, MEMORY_PROPERTY_DEVICE_LOCAL), None);
}

#[test]
fn ignores_types_beyond_count() {
    let mut p = props(&[HOST]);
    p.memory_types[1] = MemoryType { property_flags: MEMORY_PROPERTY_DEVICE_LOCAL, heap_index: 0 };
    assert_eq!(find_memorytype_index(&req(u32::MAX), &p, MEMORY_PROPERTY_DEVICE_LOCAL), None);
    p.memory_type_count = 2;
    assert_eq!(find_memorytype_index(&req(u32::MAX), &p, MEMORY_PROPERTY_DEVICE_LOCAL), Some(1));
}

#[test]
fn empty_flags_take_first_allowed_type() {
    let p = props(&[0, 0, 0]);
    assert_eq!(find_memorytype_index(&req(0b100), &p, 0), Some(2));
    assert_eq!(find_memorytype_index(&req(0), &p, 0), None);
    let none = props(&[]);
    assert_eq!(find_memorytype_index(&req(u32::MAX), &none, 0), None);
}

#[test]
fn last_of_thirty_two_types() {
    let mut types = [0u32; 32];
    types[31] = MEMORY_PROPERTY_DEVICE_LOCAL;
    let p = props(&types);
    assert_eq!(find_memorytype_index(&req(1 << 31), &p, MEMORY_PROPERTY_DEVICE_LOCAL), Some(31));
}

#[test]
fn fewer_flags_never_later() {
    // Law: relaxing the requested flags finds a type at the same or an
    // earlier index.
    let p = props(&[MEMORY_PROPERTY_HOST_VISIBLE, HOST, MEMORY_PROPERTY_DEVICE_LOCAL | HOST]);
    let all = MEMORY_PROPERTY_DEVICE_LOCAL | HOST;
    let full = find_memorytype_index(&req(0b111), &p, all).unwrap();
    for fewer in [0, MEMORY_PROPERTY_HOST_VISIBLE, HOST, MEMORY_PROPERTY_DEVICE_LOCAL] {
        let j = find_memorytype_index(&req(0b111), &p, fewer).unwrap();
        assert!(j <= full);
    }
}

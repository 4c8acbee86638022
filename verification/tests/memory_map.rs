use bootloader::error::BootError;
use bootloader::memory_map::{
    classify, encode_table, memory_map, MemoryArea, RegionType, DESCRIPTOR_MIN_SIZE, MEMORY_AREA_SIZE,
};

fn descriptor(size: usize, ty: u32, start: u64, pages: u64) -> Vec<u8> {
    let mut bytes = vec![0xeeu8; size];
    bytes[0..4].copy_from_slice(&ty.to_le_bytes());
    bytes[8..16].copy_from_slice(&start.to_le_bytes());
    bytes[16..24].copy_from_slice(&0xffff_ffff_0000_0000u64.to_le_bytes());
    bytes[24..32].copy_from_slice(&pages.to_le_bytes());
    bytes[32..40].copy_from_slice(&0xfu64.to_le_bytes());
    bytes
}

#[test]
fn firmware_types_map_by_the_fixed_table() {
    let free = [1u32, 2, 3, 4, 7];
    for ty in 0..32u32 {
        let expected = if free.contains(&ty) { RegionType::Free } else { RegionType::Reserved };
        assert_eq!(classify(ty), expected, "type {}", ty);
    }
    assert_eq!(classify(u32::MAX), RegionType::Reserved);
    assert_eq!(classify(0x8000_0001), RegionType::Reserved);
}

#[test]
fn region_codes_are_fixed() {
    assert_eq!(RegionType::Null.code(), 0);
    assert_eq!(RegionType::Free.code(), 1);
    assert_eq!(RegionType::Reserved.code(), 2);
    assert_eq!(RegionType::AcpiReclaimable.code(), 3);
}

#[test]
fn one_area_per_descriptor() {
    let mut map = Vec::new();
    map.extend(descriptor(48, 7, 0x10_0000, 0x100));
    map.extend(descriptor(48, 0, 0x0, 1));
    map.extend(descriptor(48, 9, 0x7ff0_0000, 16));
    map.extend(descriptor(48, 4, 0x20_0000, 2));
    let captured = memory_map(&map, 48, 0x1234);
    assert_eq!(captured.degraded, None);
    assert_eq!(captured.key, 0x1234);
    assert_eq!(
        captured.areas,
        vec![
            MemoryArea { base_addr: 0x10_0000, length: 0x10_0000, region: RegionType::Free, acpi: 0 },
            MemoryArea { base_addr: 0x0, length: 0x1000, region: RegionType::Reserved, acpi: 0 },
            MemoryArea { base_addr: 0x7ff0_0000, length: 0x1_0000, region: RegionType::Reserved, acpi: 0 },
            MemoryArea { base_addr: 0x20_0000, length: 0x2000, region: RegionType::Free, acpi: 0 },
        ]
    );
}

#[test]
fn descriptors_of_the_minimum_size_are_read() {
    assert_eq!(DESCRIPTOR_MIN_SIZE, 40);
    let mut map = descriptor(40, 2, 0x8000, 3);
    map.extend(descriptor(40, 11, 0xfee0_0000, 1));
    let captured = memory_map(&map, 40, 1);
    assert_eq!(captured.degraded, None);
    assert_eq!(captured.areas.len(), 2);
    assert_eq!(captured.areas[0].length, 0x3000);
    assert_eq!(captured.areas[1].region, RegionType::Reserved);
    assert_eq!(captured.areas[1].base_addr, 0xfee0_0000);
}

#[test]
fn small_descriptors_yield_no_areas_but_keep_the_key() {
    let map = vec![0x11u8; 39 * 5];
    let captured = memory_map(&map, 39, 0xfeed);
    assert_eq!(captured.degraded, Some(BootError::DescriptorSizeMismatch));
    assert!(captured.areas.is_empty());
    assert_eq!(captured.key, 0xfeed);
    let captured = memory_map(&map, 0, 77);
    assert_eq!(captured.degraded, Some(BootError::DescriptorSizeMismatch));
    assert!(captured.areas.is_empty());
    assert_eq!(captured.key, 77);
}

#[test]
fn trailing_bytes_short_of_a_descriptor_are_left_out() {
    let mut map = descriptor(48, 7, 0, 1);
    map.extend_from_slice(&[0u8; 47]);
    assert_eq!(memory_map(&map, 48, 0).areas.len(), 1);
    assert_eq!(memory_map(&map[..47], 48, 0).areas.len(), 0);
    assert_eq!(memory_map(&[], 48, 0).degraded, None);
}

#[test]
fn length_wraps_and_stays_a_whole_number_of_pages() {
    let map = descriptor(40, 7, 0, (1u64 << 52) + 5);
    let captured = memory_map(&map, 40, 0);
    assert_eq!(captured.areas[0].length, 5 * 4096);
    let map = descriptor(40, 7, 0, u64::MAX);
    assert_eq!(memory_map(&map, 40, 0).areas[0].length, 0u64.wrapping_sub(4096));
}

#[test]
fn table_is_packed_little_endian_records() {
    let areas = [
        MemoryArea { base_addr: 0x10_0000, length: 0x2000, region: RegionType::Free, acpi: 0 },
        MemoryArea {
            base_addr: 0x0102_0304_0506_0708,
            length: 0x1112_1314_1516_1718,
            region: RegionType::AcpiReclaimable,
            acpi: 0x2122_2324,
        },
    ];
    let table = encode_table(&areas, usize::MAX);
    assert_eq!(MEMORY_AREA_SIZE, 24);
    assert_eq!(table.len(), 48);
    assert_eq!(
        table,
        vec![
            0x00, 0x00, 0x10, 0x00, 0, 0, 0, 0, 0x00, 0x20, 0, 0, 0, 0, 0, 0, 1, 0, 0, 0, 0, 0, 0, 0,
            0x08, 0x07, 0x06, 0x05, 0x04, 0x03, 0x02, 0x01, 0x18, 0x17, 0x16, 0x15, 0x14, 0x13, 0x12,
            0x11, 3, 0, 0, 0, 0x24, 0x23, 0x22, 0x21,
        ]
    );
    assert!(encode_table(&[], 100).is_empty());
}

#[test]
fn table_of_a_captured_map_keeps_the_order() {
    let mut map = descriptor(56, 3, 0x3000, 1);
    map.extend(descriptor(56, 5, 0x4000, 2));
    let captured = memory_map(&map, 56, 9);
    let table = encode_table(&captured.areas, 0x4b00);
    assert_eq!(table.len(), 48);
    assert_eq!(table[0..8], 0x3000u64.to_le_bytes());
    assert_eq!(table[16..20], 1u32.to_le_bytes());
    assert_eq!(table[24..32], 0x4000u64.to_le_bytes());
    assert_eq!(table[32..40], 0x2000u64.to_le_bytes());
    assert_eq!(table[40..44], 2u32.to_le_bytes());
}

#[test]
fn table_leaves_out_what_does_not_fit() {
    let areas: Vec<MemoryArea> = (0..5u64)
        .map(|i| MemoryArea { base_addr: i << 12, length: 0x1000, region: RegionType::Free, acpi: 0 })
        .collect();
    let whole = encode_table(&areas, 5 * 24);
    assert_eq!(whole.len(), 120);
    assert_eq!(encode_table(&areas, 5 * 24 - 1), whole[..96]);
    assert_eq!(encode_table(&areas, 24), whole[..24]);
    assert!(encode_table(&areas, 23).is_empty());
    assert!(encode_table(&areas, 0).is_empty());
    assert_eq!(encode_table(&areas, 1000), whole);
}

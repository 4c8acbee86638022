//! From the firmware's memory map to the table of memory areas that the
//! kernel reads.
//!
//! The firmware fills a buffer with descriptors, each `descriptor_size` bytes
//! apart, and tells that size along with the map. Of each descriptor the
//! loader reads:
//!
//! | offset | size | field                   |
//! |-------:|-----:|-------------------------|
//! |      0 |    4 | type                    |
//! |      8 |    8 | physical start          |
//! |     16 |    8 | virtual start           |
//! |     24 |    8 | number of 4 KiB pages   |
//! |     32 |    8 | attributes              |
//!
//! The kernel's table is an array of records without padding, in the order
//! of the descriptors:
//!
//! | offset | size | field                   |
//! |-------:|-----:|-------------------------|
//! |      0 |    8 | base address            |
//! |      8 |    8 | length in bytes         |
//! |     16 |    4 | region type             |
//! |     20 |    4 | ACPI attribute flags    |

use vstd::prelude::*;
use crate::bytes::{le_bytes_u32, le_bytes_u64, le_u32_at, le_u64_at, lemma_le_round_trip_u32,
    lemma_le_round_trip_u64, push_u32_le, push_u64_le, read_u32_le, read_u64_le};
use crate::error::BootError;

verus! {

/// Bytes of a firmware descriptor that hold the fields the loader reads. A
/// map whose descriptors are smaller cannot be used.
pub const DESCRIPTOR_MIN_SIZE: usize = 40;

/// Bytes of one record of the kernel's table.
pub const MEMORY_AREA_SIZE: usize = 24;

/// Bytes of memory that a firmware page stands for.
pub const FIRMWARE_PAGE_SIZE: u64 = 4096;

/// Firmware memory type: code of a loaded application.
pub const EFI_LOADER_CODE: u32 = 1;

/// Firmware memory type: data of a loaded application.
pub const EFI_LOADER_DATA: u32 = 2;

/// Firmware memory type: code of a boot services driver.
pub const EFI_BOOT_SERVICES_CODE: u32 = 3;

/// Firmware memory type: data of a boot services driver.
pub const EFI_BOOT_SERVICES_DATA: u32 = 4;

/// Firmware memory type: free memory.
pub const EFI_CONVENTIONAL_MEMORY: u32 = 7;

/// What the kernel may do with a memory area.
#[derive(Clone, Copy, Debug, PartialEq, Eq, Structural)]
pub enum RegionType {
    /// No memory is there.
    Null,
    /// Free to use.
    Free,
    /// Not to be touched.
    Reserved,
    /// Holds ACPI tables and can be reclaimed once they are read.
    AcpiReclaimable,
}

impl RegionType {
    /// The number that stands for the region type in the kernel's table.
    pub open spec fn spec_code(self) -> u32 {
        match self {
            RegionType::Null => 0,
            RegionType::Free => 1,
            RegionType::Reserved => 2,
            RegionType::AcpiReclaimable => 3,
        }
    }

    /// The number that stands for the region type in the kernel's table.
    #[verifier::when_used_as_spec(spec_code)]
    pub fn code(self) -> (code: u32)
        ensures
            code == self.spec_code(),
    {
        match self {
            RegionType::Null => 0,
            RegionType::Free => 1,
            RegionType::Reserved => 2,
            RegionType::AcpiReclaimable => 3,
        }
    }
}

/// One record of the kernel's table.
#[derive(Clone, Copy, Debug, PartialEq, Eq, Structural)]
pub struct MemoryArea {
    /// Physical address of the first byte.
    pub base_addr: u64,
    /// Length in bytes.
    pub length: u64,
    /// What the kernel may do with the area.
    pub region: RegionType,
    /// ACPI attribute flags; the loader sets none.
    pub acpi: u32,
}

/// A captured memory map.
pub struct MemoryMap {
    /// The key that the firmware gave with the map. Leaving boot services
    /// takes exactly this key.
    pub key: usize,
    /// One area for each descriptor of the map, in the map's order; none if
    /// the descriptors are too small.
    pub areas: Vec<MemoryArea>,
    /// [`BootError::DescriptorSizeMismatch`] if the descriptors were too small
    /// to be read. That does not end the boot.
    pub degraded: Option<BootError>,
}

/// The region type for a firmware memory type: memory of the loader itself,
/// memory of boot services and free memory are free to use once the kernel
/// runs; everything else is reserved.
pub open spec fn region_of(firmware_type: u32) -> RegionType {
    if firmware_type == EFI_LOADER_CODE || firmware_type == EFI_LOADER_DATA || firmware_type
        == EFI_BOOT_SERVICES_CODE || firmware_type == EFI_BOOT_SERVICES_DATA || firmware_type
        == EFI_CONVENTIONAL_MEMORY {
        RegionType::Free
    } else {
        RegionType::Reserved
    }
}

/// Classifies a firmware memory type; see [`region_of`].
pub fn classify(firmware_type: u32) -> (region: RegionType)
    ensures
        region == region_of(firmware_type),
{
    if firmware_type == EFI_LOADER_CODE || firmware_type == EFI_LOADER_DATA || firmware_type
        == EFI_BOOT_SERVICES_CODE || firmware_type == EFI_BOOT_SERVICES_DATA || firmware_type
        == EFI_CONVENTIONAL_MEMORY {
        RegionType::Free
    } else {
        RegionType::Reserved
    }
}

/// The length in bytes of `pages` firmware pages, wrapping at 64 bits.
pub open spec fn area_length(pages: u64) -> u64 {
    ((pages * FIRMWARE_PAGE_SIZE) % 0x1_0000_0000_0000_0000) as u64
}

/// The area that the descriptor at byte `offset` of `map` describes.
pub open spec fn area_at(map: Seq<u8>, offset: int) -> MemoryArea {
    MemoryArea {
        base_addr: le_u64_at(map, offset + 8) as u64,
        length: area_length(le_u64_at(map, offset + 24) as u64),
        region: region_of(le_u32_at(map, offset) as u32),
        acpi: 0,
    }
}

/// How many descriptors of `descriptor_size` bytes a map of `map_len` bytes
/// holds that can be read: none if the descriptors are too small.
pub open spec fn descriptor_count(map_len: nat, descriptor_size: nat) -> nat {
    if descriptor_size < DESCRIPTOR_MIN_SIZE {
        0
    } else {
        map_len / descriptor_size
    }
}

/// The areas of a map: one for each descriptor, in the map's order.
pub open spec fn classified(map: Seq<u8>, descriptor_size: nat) -> Seq<MemoryArea> {
    Seq::new(
        descriptor_count(map.len(), descriptor_size),
        |i: int| area_at(map, i * descriptor_size),
    )
}

proof fn lemma_descriptor_in_map(map_len: int, descriptor_size: int, i: int)
    requires
        0 <= map_len,
        0 < descriptor_size,
        0 <= i < map_len / descriptor_size,
    ensures
        0 <= i * descriptor_size,
        i * descriptor_size + descriptor_size <= map_len,
        (i + 1) * descriptor_size == i * descriptor_size + descriptor_size,
{
    assert(0 <= i * descriptor_size) by (nonlinear_arith)
        requires
            0 <= i,
            0 < descriptor_size,
    ;
    assert((i + 1) * descriptor_size == i * descriptor_size + descriptor_size)
        by (nonlinear_arith);
    assert((i + 1) * descriptor_size <= (map_len / descriptor_size) * descriptor_size)
        by (nonlinear_arith)
        requires
            i + 1 <= map_len / descriptor_size,
            0 < descriptor_size,
    ;
    assert((map_len / descriptor_size) * descriptor_size <= map_len) by (nonlinear_arith)
        requires
            0 < descriptor_size,
            0 <= map_len,
    ;
}

/// Turns the firmware's memory map into the kernel's memory areas.
///
/// `map` holds the bytes that the firmware wrote, `descriptor_size` the
/// distance between descriptors that it reported, and `key` the key that it
/// gave with the map. If the descriptors are smaller than
/// [`DESCRIPTOR_MIN_SIZE`] the map is not read: the result then has no areas
/// but still has the key.
pub fn memory_map(map: &[u8], descriptor_size: usize, key: usize) -> (captured: MemoryMap)
    ensures
        captured.key == key,
        captured.degraded == if descriptor_size < DESCRIPTOR_MIN_SIZE {
            Some(BootError::DescriptorSizeMismatch)
        } else {
            None
        },
        captured.areas@ == classified(map@, descriptor_size as nat),
{
    let mut areas: Vec<MemoryArea> = Vec::new();
    if descriptor_size < DESCRIPTOR_MIN_SIZE {
        return MemoryMap { key, areas, degraded: Some(BootError::DescriptorSizeMismatch) };
    }
    let count: usize = map.len() / descriptor_size;
    let mut i: usize = 0;
    let mut offset: usize = 0;
    while i < count
        invariant
            i <= count,
            count == map.len() / descriptor_size,
            descriptor_size >= DESCRIPTOR_MIN_SIZE,
            offset == i * descriptor_size,
            areas@ == Seq::new(i as nat, |j: int| area_at(map@, j * descriptor_size)),
        decreases count - i,
    {
        proof {
            lemma_descriptor_in_map(map.len() as int, descriptor_size as int, i as int);
        }
        let firmware_type: u32 = read_u32_le(map, offset);
        let start: u64 = read_u64_le(map, offset + 8);
        let pages: u64 = read_u64_le(map, offset + 24);
        areas.push(
            MemoryArea {
                base_addr: start,
                length: pages.wrapping_mul(FIRMWARE_PAGE_SIZE),
                region: classify(firmware_type),
                acpi: 0,
            },
        );
        i += 1;
        offset += descriptor_size;
    }
    MemoryMap { key, areas, degraded: None }
}

/// The bytes of one record of the kernel's table.
pub open spec fn area_bytes(area: MemoryArea) -> Seq<u8> {
    le_bytes_u64(area.base_addr) + le_bytes_u64(area.length) + le_bytes_u32(area.region.spec_code())
        + le_bytes_u32(area.acpi)
}

/// The bytes of the kernel's table: the records of `areas`, one after the
/// other.
pub open spec fn table_bytes(areas: Seq<MemoryArea>) -> Seq<u8>
    decreases areas.len(),
{
    if areas.len() == 0 {
        Seq::empty()
    } else {
        table_bytes(areas.drop_last()) + area_bytes(areas.last())
    }
}

/// The table takes [`MEMORY_AREA_SIZE`] bytes for each area.
pub proof fn lemma_table_bytes_len(areas: Seq<MemoryArea>)
    ensures
        table_bytes(areas).len() == MEMORY_AREA_SIZE * areas.len(),
    decreases areas.len(),
{
    if areas.len() > 0 {
        lemma_table_bytes_len(areas.drop_last());
    }
}

/// The table is an array of records: record `index` takes the
/// [`MEMORY_AREA_SIZE`] bytes from `index` times that size on and holds the
/// area's base, length, type number and flags in this order, with nothing
/// between the fields or the records.
pub proof fn lemma_table_record(areas: Seq<MemoryArea>, index: int)
    requires
        0 <= index < areas.len(),
    ensures
        table_bytes(areas).len() == MEMORY_AREA_SIZE * areas.len(),
        table_bytes(areas).subrange(
            MEMORY_AREA_SIZE * index,
            MEMORY_AREA_SIZE * index + MEMORY_AREA_SIZE,
        ) == area_bytes(areas[index]),
        le_u64_at(table_bytes(areas), MEMORY_AREA_SIZE * index) == areas[index].base_addr,
        le_u64_at(table_bytes(areas), MEMORY_AREA_SIZE * index + 8) == areas[index].length,
        le_u32_at(table_bytes(areas), MEMORY_AREA_SIZE * index + 16)
            == areas[index].region.spec_code(),
        le_u32_at(table_bytes(areas), MEMORY_AREA_SIZE * index + 20) == areas[index].acpi,
    decreases areas.len(),
{
    let table: Seq<u8> = table_bytes(areas);
    let front: Seq<MemoryArea> = areas.drop_last();
    let at: int = MEMORY_AREA_SIZE * index;
    lemma_table_bytes_len(areas);
    lemma_table_bytes_len(front);
    if index < areas.len() - 1 {
        lemma_table_record(front, index);
        assert(table.subrange(at, at + MEMORY_AREA_SIZE) == table_bytes(front).subrange(
            at,
            at + MEMORY_AREA_SIZE,
        ));
        assert(le_u64_at(table, at) == le_u64_at(table_bytes(front), at));
        assert(le_u64_at(table, at + 8) == le_u64_at(table_bytes(front), at + 8));
        assert(le_u32_at(table, at + 16) == le_u32_at(table_bytes(front), at + 16));
        assert(le_u32_at(table, at + 20) == le_u32_at(table_bytes(front), at + 20));
    } else {
        let area: MemoryArea = areas[index];
        lemma_le_round_trip_u64(area.base_addr);
        lemma_le_round_trip_u64(area.length);
        lemma_le_round_trip_u32(area.region.spec_code());
        lemma_le_round_trip_u32(area.acpi);
        assert(le_u64_at(table, at) == le_u64_at(le_bytes_u64(area.base_addr), 0));
        assert(le_u64_at(table, at + 8) == le_u64_at(le_bytes_u64(area.length), 0));
        assert(le_u32_at(table, at + 16) == le_u32_at(le_bytes_u32(area.region.spec_code()), 0));
        assert(le_u32_at(table, at + 20) == le_u32_at(le_bytes_u32(area.acpi), 0));
    }
}

/// How many of `count` records a table of at most `capacity` bytes takes:
/// all of them if they fit, else as many whole records as do.
pub open spec fn records_that_fit(count: nat, capacity: nat) -> nat {
    if count * MEMORY_AREA_SIZE <= capacity {
        count
    } else {
        capacity / (MEMORY_AREA_SIZE as nat)
    }
}

/// Writes the kernel's table for `areas` into at most `capacity` bytes.
/// Areas that the table has no room for are left out, from the end.
pub fn encode_table(areas: &[MemoryArea], capacity: usize) -> (table: Vec<u8>)
    ensures
        table@ == table_bytes(
            areas@.take(records_that_fit(areas@.len(), capacity as nat) as int),
        ),
        table@.len() == MEMORY_AREA_SIZE * records_that_fit(areas@.len(), capacity as nat),
        table@.len() <= capacity,
{
    let room: usize = capacity / MEMORY_AREA_SIZE;
    let count: usize = if areas.len() <= room {
        areas.len()
    } else {
        room
    };
    let mut table: Vec<u8> = Vec::new();
    let mut i: usize = 0;
    while i < count
        invariant
            i <= count <= areas.len(),
            table@ == table_bytes(areas@.take(i as int)),
        decreases count - i,
    {
        let area: MemoryArea = areas[i];
        push_u64_le(&mut table, area.base_addr);
        push_u64_le(&mut table, area.length);
        push_u32_le(&mut table, area.region.code());
        push_u32_le(&mut table, area.acpi);
        i += 1;
        proof {
            let done: Seq<MemoryArea> = areas@.take(i as int);
            assert(done.drop_last() == areas@.take(i - 1));
        }
    }
    proof {
        lemma_table_bytes_len(areas@.take(count as int));
    }
    table
}

/// A map with readable descriptors yields exactly one area for each
/// descriptor, in order. The area's type depends on the descriptor's type
/// field alone: free for the loader's own memory, boot services memory and
/// free memory, reserved for everything else. Its length is a whole number
/// of pages.
pub proof fn lemma_one_area_per_descriptor(map: Seq<u8>, descriptor_size: nat, i: int)
    requires
        descriptor_size >= DESCRIPTOR_MIN_SIZE,
        0 <= i < map.len() / descriptor_size,
    ensures
        classified(map, descriptor_size).len() == map.len() / descriptor_size,
        classified(map, descriptor_size)[i] == area_at(map, i * descriptor_size),
        classified(map, descriptor_size)[i].region == region_of(
            le_u32_at(map, i * descriptor_size) as u32,
        ),
        classified(map, descriptor_size)[i].region == RegionType::Free || classified(
            map,
            descriptor_size,
        )[i].region == RegionType::Reserved,
        classified(map, descriptor_size)[i].length % FIRMWARE_PAGE_SIZE == 0,
{
    let pages: u64 = le_u64_at(map, i * descriptor_size + 24) as u64;
    assert(((pages * 4096) % 0x1_0000_0000_0000_0000) % 4096 == 0) by (nonlinear_arith);
}

/// A map whose descriptors are too small yields no area at all.
pub proof fn lemma_small_descriptors_yield_nothing(map: Seq<u8>, descriptor_size: nat)
    requires
        descriptor_size < DESCRIPTOR_MIN_SIZE,
    ensures
        classified(map, descriptor_size).len() == 0,
{
}

} // verus!

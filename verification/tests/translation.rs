use bootloader::handoff::{KERNEL_PHYSICAL, PHYSICAL_OFFSET, STACK_PHYSICAL, STACK_VIRTUAL};
use bootloader::paging::{build_tables, paging_create, PageArena};
use bootloader::translation::translate;

const GIB: u64 = 1 << 30;

#[test]
fn low_memory_is_mapped_one_to_one() {
    let tables = paging_create(0x7_0000).ok().expect("valid base");
    for address in [0u64, 1, 0xfff, 0x1000, 0x7_0000, 0x1f_ffff, 0x20_0000, GIB - 1, GIB, 5 * GIB + 12345, 6 * GIB - 1] {
        assert_eq!(translate(&tables.arena, address), Some(address), "address {:#x}", address);
    }
}

#[test]
fn upper_half_shows_the_same_memory() {
    let tables = paging_create(0x7_0000).ok().expect("valid base");
    for physical in [0u64, 0x8_0000, 0x10_0000, 0x1234_5678, 3 * GIB + 7, 6 * GIB - 1] {
        assert_eq!(translate(&tables.arena, PHYSICAL_OFFSET + physical), Some(physical));
    }
    assert_eq!(translate(&tables.arena, STACK_VIRTUAL), Some(STACK_PHYSICAL));
    assert_eq!(translate(&tables.arena, PHYSICAL_OFFSET + KERNEL_PHYSICAL), Some(KERNEL_PHYSICAL));
}

#[test]
fn memory_beyond_the_directories_is_not_mapped() {
    let tables = paging_create(0x7_0000).ok().expect("valid base");
    assert_eq!(translate(&tables.arena, 6 * GIB), None);
    assert_eq!(translate(&tables.arena, 511 * GIB), None);
    assert_eq!(translate(&tables.arena, PHYSICAL_OFFSET + 6 * GIB), None);
    let fewer = build_tables(0x7_0000, 4).ok().expect("valid base");
    assert_eq!(translate(&fewer.arena, 4 * GIB - 1), Some(4 * GIB - 1));
    assert_eq!(translate(&fewer.arena, 4 * GIB), None);
}

#[test]
fn other_top_level_slots_are_not_mapped() {
    let tables = paging_create(0x7_0000).ok().expect("valid base");
    for slot in [1u64, 2, 128, 255, 257, 300, 510] {
        assert_eq!(translate(&tables.arena, slot << 39), None, "slot {}", slot);
    }
}

#[test]
fn walk_of_an_empty_arena_finds_nothing() {
    let arena = PageArena::zeroed(0x1000, 1);
    assert_eq!(translate(&arena, 0), None);
    assert_eq!(translate(&arena, PHYSICAL_OFFSET), None);
    let nothing = PageArena::zeroed(0x1000, 0);
    assert_eq!(translate(&nothing, 0), None);
}

#[test]
fn walk_refuses_tables_outside_the_arena() {
    let mut arena = PageArena::zeroed(0x1000, 2);
    assert!(arena.write(0x1000, 0x9000 | 0b11));
    assert_eq!(translate(&arena, 0), None);
    assert!(arena.write(0x1000, 0x2000 | 0b11));
    assert!(arena.write(0x2000, 0x1000 | 0b11));
    assert_eq!(translate(&arena, 0), None);
    assert!(arena.write(0x2008, 0x4000_0000 | 0x83));
    assert_eq!(translate(&arena, 0), None);
}

#[test]
fn walk_follows_hand_made_tables() {
    let mut arena = PageArena::zeroed(0x1000, 3);
    assert!(arena.write(0x1000 + 8 * 3, 0x2000 | 0b11));
    assert!(arena.write(0x2000 + 8 * 2, 0x3000 | 0b11));
    assert!(arena.write(0x3000 + 8 * 5, 0x8060_0000 | 0x83));
    let address = (3u64 << 39) | (2 << 30) | (5 << 21) | 0x1_2345;
    assert_eq!(translate(&arena, address), Some(0x8061_2345));
    assert_eq!(translate(&arena, address + (1 << 21)), None);
    assert!(arena.write(0x3000 + 8 * 5, 0x8060_0000 | 0b11));
    assert_eq!(translate(&arena, address), None);
}

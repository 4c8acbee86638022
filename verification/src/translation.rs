//! What the page tables mean: the walk that turns an address into the
//! physical address behind it.
//!
//! The walk takes nine bits of the address for each of three tables and the
//! low 21 bits for the place within a large page. Bits 48 and up take no part
//! in it.

use vstd::prelude::*;
use crate::handoff::PHYSICAL_OFFSET;
use crate::paging::{entry, lemma_entry_round_trip, lemma_flag_constants, table_image, valid_base,
    PageArena, PageTableSet, ADDRESS_MASK, LARGE, LARGE_PAGE_SIZE, LEAF_FLAGS, LINK_FLAGS, PAGE_SIZE,
    PHYSICAL_LIMIT, PRESENT, UPPER_HALF_SLOT};

verus! {

/// The bits of a table index.
pub const INDEX_MASK: u64 = 0x1ff;

/// The bits of an address that give the place within a large page.
pub const OFFSET_MASK: u64 = 0x1f_ffff;

/// Bytes that one directory table maps, and so one directory-pointer entry.
pub const DIRECTORY_SPAN: u64 = 0x4000_0000;

/// The slot of the top-level table that an address goes through.
pub open spec fn top_index(address: u64) -> u64 {
    (address >> 39) & INDEX_MASK
}

/// The slot of the directory-pointer table that an address goes through.
pub open spec fn pointer_index(address: u64) -> u64 {
    (address >> 30) & INDEX_MASK
}

/// The slot of the directory table that an address goes through.
pub open spec fn directory_index(address: u64) -> u64 {
    (address >> 21) & INDEX_MASK
}

/// The word in slot `index` of the table at physical address `table`, if the
/// arena holds that slot.
pub open spec fn slot_word(arena: PageArena, table: u64, index: u64) -> Option<u64> {
    if table + 8 * index <= u64::MAX {
        arena.word_at((table + 8 * index) as u64)
    } else {
        None
    }
}

/// Whether a word names a further table: it is present and not a large page.
pub open spec fn is_link(word: u64) -> bool {
    word & PRESENT == PRESENT && word & LARGE == 0
}

/// Whether a word maps a large page: it is present and marked large.
pub open spec fn is_leaf(word: u64) -> bool {
    word & PRESENT == PRESENT && word & LARGE == LARGE
}

/// The physical address that `address` stands for under the tables of
/// `arena`, whose top-level table stands at the arena's base. `None` if the
/// walk comes to a slot that is empty, that lies outside the arena, or that
/// is not of the kind its level needs: links in the top-level and the
/// directory-pointer table, large pages in the directory tables.
pub open spec fn translation(arena: PageArena, address: u64) -> Option<u64> {
    match slot_word(arena, arena.base, top_index(address)) {
        Some(top) => if is_link(top) {
            match slot_word(arena, top & ADDRESS_MASK, pointer_index(address)) {
                Some(pointer) => if is_link(pointer) {
                    match slot_word(arena, pointer & ADDRESS_MASK, directory_index(address)) {
                        Some(leaf) => if is_leaf(leaf) {
                            Some(((leaf & ADDRESS_MASK) + (address & OFFSET_MASK)) as u64)
                        } else {
                            None
                        },
                        None => None,
                    }
                } else {
                    None
                },
                None => None,
            }
        } else {
            None
        },
        None => None,
    }
}

fn slot_of(arena: &PageArena, table: u64, index: u64) -> (word: Option<u64>)
    requires
        index <= INDEX_MASK,
    ensures
        word == slot_word(*arena, table, index),
{
    match table.checked_add(8 * index) {
        Some(address) => arena.read(address),
        None => None,
    }
}

fn link_target(word: u64) -> (table: Option<u64>)
    ensures
        table == if is_link(word) {
            Some(word & ADDRESS_MASK)
        } else {
            None
        },
{
    if word & PRESENT == PRESENT && word & LARGE == 0 {
        Some(word & ADDRESS_MASK)
    } else {
        None
    }
}

/// Walks the tables of `arena` for `address`; see [`translation`].
pub fn translate(arena: &PageArena, address: u64) -> (physical: Option<u64>)
    ensures
        physical == translation(*arena, address),
{
    let top_slot: u64 = (address >> 39) & INDEX_MASK;
    let pointer_slot: u64 = (address >> 30) & INDEX_MASK;
    let directory_slot: u64 = (address >> 21) & INDEX_MASK;
    let offset: u64 = address & OFFSET_MASK;
    assert(top_slot <= 0x1ff && pointer_slot <= 0x1ff && directory_slot <= 0x1ff && offset
        <= 0x1f_ffff) by (bit_vector)
        requires
            top_slot == (address >> 39) & 0x1ffu64,
            pointer_slot == (address >> 30) & 0x1ffu64,
            directory_slot == (address >> 21) & 0x1ffu64,
            offset == address & 0x1f_ffffu64,
    ;
    let top: u64 = match slot_of(arena, arena.base, top_slot) {
        Some(word) => word,
        None => {
            return None;
        },
    };
    let pointers: u64 = match link_target(top) {
        Some(table) => table,
        None => {
            return None;
        },
    };
    let pointer: u64 = match slot_of(arena, pointers, pointer_slot) {
        Some(word) => word,
        None => {
            return None;
        },
    };
    let directory: u64 = match link_target(pointer) {
        Some(table) => table,
        None => {
            return None;
        },
    };
    let leaf: u64 = match slot_of(arena, directory, directory_slot) {
        Some(word) => word,
        None => {
            return None;
        },
    };
    if leaf & PRESENT == PRESENT && leaf & LARGE == LARGE {
        let page: u64 = leaf & ADDRESS_MASK;
        assert(page <= 0x000f_ffff_ffff_f000) by (bit_vector)
            requires
                page == leaf & 0x000f_ffff_ffff_f000u64,
        ;
        Some(page + offset)
    } else {
        None
    }
}

proof fn lemma_link(address: u64)
    requires
        address % PAGE_SIZE == 0,
        address < PHYSICAL_LIMIT,
    ensures
        is_link(entry(address, LINK_FLAGS)),
        entry(address, LINK_FLAGS) & ADDRESS_MASK == address,
{
    lemma_flag_constants();
    lemma_entry_round_trip(address, LINK_FLAGS);
    assert((address | 0x3u64) & 0x1u64 == 0x1u64 && (address | 0x3u64) & 0x80u64 == 0) by (bit_vector)
        requires
            address % 0x1000u64 == 0,
    ;
}

proof fn lemma_leaf(address: u64)
    requires
        address % PAGE_SIZE == 0,
        address < PHYSICAL_LIMIT,
    ensures
        is_leaf(entry(address, LEAF_FLAGS)),
        entry(address, LEAF_FLAGS) & ADDRESS_MASK == address,
{
    lemma_flag_constants();
    lemma_entry_round_trip(address, LEAF_FLAGS);
    assert((address | 0x83u64) & 0x1u64 == 0x1u64 && (address | 0x83u64) & 0x80u64 == 0x80u64)
        by (bit_vector);
}

proof fn lemma_walk(arena: PageArena, directories: nat, address: u64, low: u64)
    requires
        valid_base(arena.base, directories),
        arena.words@ == table_image(arena.base, directories),
        low < directories * DIRECTORY_SPAN,
        top_index(address) == 0 || top_index(address) == UPPER_HALF_SLOT,
        pointer_index(address) == low / DIRECTORY_SPAN,
        directory_index(address) == low / LARGE_PAGE_SIZE % 512,
        address & OFFSET_MASK == low % LARGE_PAGE_SIZE,
    ensures
        translation(arena, address) == Some(low),
{
    let base: u64 = arena.base;
    let i: int = (low / DIRECTORY_SPAN) as int;
    let j: int = (low / LARGE_PAGE_SIZE % 512) as int;
    let k: int = i * 512 + j;

    // The top-level slot names the directory-pointer table.
    let pointers: u64 = (base + PAGE_SIZE) as u64;
    lemma_link(pointers);
    assert(slot_word(arena, base, top_index(address)) == Some(entry(pointers, LINK_FLAGS)));

    // Its slot `i` names directory table `i`.
    let directory: u64 = (base + (2 + i) * PAGE_SIZE) as u64;
    lemma_link(directory);
    assert(slot_word(arena, pointers, pointer_index(address)) == Some(
        entry(directory, LINK_FLAGS),
    ));

    // Slot `j` of that table is entry `k` of all directory entries.
    let page: u64 = (k * LARGE_PAGE_SIZE) as u64;
    lemma_leaf(page);
    assert(slot_word(arena, directory, directory_index(address)) == Some(entry(page, LEAF_FLAGS)));
    assert(page + low % LARGE_PAGE_SIZE == low);
}

/// Finished tables map physical memory twice: every address below the end
/// of what the directory tables cover stands for itself, and for the same
/// address seen through the upper half, [`PHYSICAL_OFFSET`] higher.
pub proof fn lemma_tables_map_memory(tables: PageTableSet, physical: u64)
    requires
        tables.wf(),
        physical < tables.directories * DIRECTORY_SPAN,
    ensures
        translation(tables.arena, physical) == Some(physical),
        translation(tables.arena, (physical + PHYSICAL_OFFSET) as u64) == Some(physical),
{
    let upper: u64 = (physical + PHYSICAL_OFFSET) as u64;
    assert({
        &&& (physical >> 39) & 0x1ff == 0
        &&& (physical >> 30) & 0x1ff == physical / 0x4000_0000
        &&& (physical >> 21) & 0x1ff == physical / 0x20_0000 % 512
        &&& physical & 0x1f_ffff == physical % 0x20_0000
    }) by (bit_vector)
        requires
            physical < 0x80_0000_0000u64,
    ;
    assert({
        &&& (upper >> 39) & 0x1ff == 256
        &&& (upper >> 30) & 0x1ff == physical / 0x4000_0000
        &&& (upper >> 21) & 0x1ff == physical / 0x20_0000 % 512
        &&& upper & 0x1f_ffff == physical % 0x20_0000
    }) by (bit_vector)
        requires
            physical < 0x80_0000_0000u64,
            upper == physical + 0xffff_8000_0000_0000u64,
    ;
    lemma_walk(tables.arena, tables.directories as nat, physical, physical);
    lemma_walk(tables.arena, tables.directories as nat, upper, physical);
}

/// Finished tables map nothing else in either half: an address that goes
/// through a top-level slot other than the first, the one that starts the
/// upper half and the last stands for nothing, and neither does one that
/// goes through a directory-pointer slot beyond the directory tables.
pub proof fn lemma_tables_map_nothing_else(tables: PageTableSet, address: u64)
    requires
        tables.wf(),
        top_index(address) != 511,
        !(top_index(address) == 0 || top_index(address) == UPPER_HALF_SLOT) || pointer_index(address)
            >= tables.directories,
    ensures
        translation(tables.arena, address) is None,
{
    let arena: PageArena = tables.arena;
    let base: u64 = arena.base;
    let top_slot: u64 = top_index(address);
    let pointer_slot: u64 = pointer_index(address);
    assert(top_slot <= 0x1ff && pointer_slot <= 0x1ff) by (bit_vector)
        requires
            top_slot == (address >> 39) & 0x1ffu64,
            pointer_slot == (address >> 30) & 0x1ffu64,
    ;
    assert(0x0u64 & 0x1u64 != 0x1u64) by (bit_vector);
    if top_slot == 0 || top_slot == UPPER_HALF_SLOT {
        // The walk reaches the directory-pointer table and finds an empty slot.
        let pointers: u64 = (base + PAGE_SIZE) as u64;
        lemma_link(pointers);
        assert(slot_word(arena, base, top_slot) == Some(entry(pointers, LINK_FLAGS)));
        assert(slot_word(arena, pointers, pointer_slot) == Some(0u64));
    } else {
        // The walk finds an empty slot in the top-level table.
        assert(slot_word(arena, base, top_slot) == Some(0u64));
    }
}

} // verus!

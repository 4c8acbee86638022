//! The page tables that the kernel starts on, and the register writes that
//! make them the live address space.
//!
//! The tables sit in consecutive pages: the top-level table, the
//! directory-pointer table, then the directory tables. Every directory entry
//! maps a 2 MiB large page, so that physical memory from address 0 upward is
//! mapped one to one. The top-level table reaches that mapping from its
//! first slot and again from slot 256, the start of the upper half, and its
//! last slot points back at the table itself.

use vstd::prelude::*;
use crate::error::BootError;
use crate::registers::{cr0_enable_mask, cr0_enabled, cr4_enable_mask, cr4_enabled, efer_enabled,
    ControlRegisters, Cr0Flag, Cr4Flag, Register, RegisterWrite, EFER_LONG_MODE, EFER_NO_EXECUTE};

verus! {

/// Bytes in a page, and in each table.
pub const PAGE_SIZE: u64 = 0x1000;

/// Entries in each table.
pub const TABLE_ENTRIES: usize = 512;

/// Bytes that one directory entry maps.
pub const LARGE_PAGE_SIZE: u64 = 0x20_0000;

/// Directory tables that [`paging_create`] lays out.
pub const DIRECTORY_COUNT: usize = 6;

/// The top-level slot that starts the upper half of the address space.
pub const UPPER_HALF_SLOT: usize = 256;

/// The top-level slot that points back at the top-level table.
pub const RECURSIVE_SLOT: usize = 511;

/// Where [`paging`] puts the tables.
pub const PT_BASE: u64 = 0x7_0000;

/// First address that no entry can hold: entries keep 52 address bits.
pub const PHYSICAL_LIMIT: u64 = 0x10_0000_0000_0000;

/// Entry bit 0: the entry is in use.
pub const PRESENT: u64 = 0x1;

/// Entry bit 1: writes are allowed.
pub const WRITABLE: u64 = 0x2;

/// Entry bit 7: the entry maps a large page instead of naming a table.
pub const LARGE: u64 = 0x80;

/// Entry bit 8: the translation survives a change of address space.
pub const GLOBAL: u64 = 0x100;

/// Entry bit 63: instruction fetches are refused.
pub const NO_EXECUTE: u64 = 0x8000_0000_0000_0000;

/// The bits of an entry that hold the address.
pub const ADDRESS_MASK: u64 = 0x000f_ffff_ffff_f000;

/// Flags of an entry that names the next table: present and writable.
pub const LINK_FLAGS: u64 = 0x3;

/// Flags of a directory entry that maps a large page: present, writable, large.
pub const LEAF_FLAGS: u64 = 0x83;

/// An entry: the address with the flag bits set.
pub open spec fn entry(address: u64, flags: u64) -> u64 {
    address | flags
}

/// Builds an entry from an address and flag bits.
pub fn make_entry(address: u64, flags: u64) -> (word: u64)
    ensures
        word == entry(address, flags),
{
    address | flags
}

/// The address that an entry holds.
pub fn entry_address(word: u64) -> (address: u64)
    ensures
        address == word & ADDRESS_MASK,
{
    word & ADDRESS_MASK
}

/// Whether all of `flags` are set in an entry.
pub fn entry_has(word: u64, flags: u64) -> (set: bool)
    ensures
        set == (word & flags == flags),
{
    word & flags == flags
}

/// The combined flag constants are the unions of the single bits they are
/// named after, and no flag lies among the address bits.
pub proof fn lemma_flag_constants()
    ensures
        LINK_FLAGS == PRESENT | WRITABLE,
        LEAF_FLAGS == PRESENT | WRITABLE | LARGE,
        LINK_FLAGS & ADDRESS_MASK == 0,
        LEAF_FLAGS & ADDRESS_MASK == 0,
        GLOBAL & ADDRESS_MASK == 0,
        NO_EXECUTE & ADDRESS_MASK == 0,
{
    assert(0x3u64 == 0x1u64 | 0x2u64) by (bit_vector);
    assert(0x83u64 == 0x1u64 | 0x2u64 | 0x80u64) by (bit_vector);
    assert(0x3u64 & 0x000f_ffff_ffff_f000u64 == 0) by (bit_vector);
    assert(0x83u64 & 0x000f_ffff_ffff_f000u64 == 0) by (bit_vector);
    assert(0x100u64 & 0x000f_ffff_ffff_f000u64 == 0) by (bit_vector);
    assert(0x8000_0000_0000_0000u64 & 0x000f_ffff_ffff_f000u64 == 0) by (bit_vector);
}

/// An entry made of a page-aligned address below [`PHYSICAL_LIMIT`] and of
/// flags gives back the address and the flags, and holds nothing else.
pub proof fn lemma_entry_round_trip(address: u64, flags: u64)
    requires
        address % PAGE_SIZE == 0,
        address < PHYSICAL_LIMIT,
        flags & ADDRESS_MASK == 0,
    ensures
        entry(address, flags) & ADDRESS_MASK == address,
        entry(address, flags) & flags == flags,
        entry(address, flags) & !(ADDRESS_MASK | flags) == 0,
{
    assert((address | flags) & 0x000f_ffff_ffff_f000u64 == address) by (bit_vector)
        requires
            address % 0x1000u64 == 0,
            address < 0x10_0000_0000_0000u64,
            flags & 0x000f_ffff_ffff_f000u64 == 0,
    ;
    assert((address | flags) & flags == flags) by (bit_vector);
    assert((address | flags) & !(0x000f_ffff_ffff_f000u64 | flags) == 0) by (bit_vector)
        requires
            address % 0x1000u64 == 0,
            address < 0x10_0000_0000_0000u64,
    ;
}

/// A run of page-table words at consecutive physical addresses.
pub struct PageArena {
    /// Physical address of the first word.
    pub base: u64,
    /// The words, eight bytes each.
    pub words: Vec<u64>,
}

impl PageArena {
    /// Whether `address` is the address of a word of the arena.
    pub open spec fn covers(&self, address: u64) -> bool {
        &&& self.base <= address
        &&& address - self.base < 8 * self.words@.len()
        &&& (address - self.base) % 8 == 0
    }

    /// The index of the word at `address`.
    pub open spec fn slot(&self, address: u64) -> int {
        (address - self.base) / 8
    }

    /// The word at `address`, if the arena has one there.
    pub open spec fn word_at(&self, address: u64) -> Option<u64> {
        if self.covers(address) {
            Some(self.words@[self.slot(address)])
        } else {
            None
        }
    }

    /// An arena of `pages` zeroed pages starting at `base`.
    pub fn zeroed(base: u64, pages: usize) -> (arena: PageArena)
        ensures
            arena.base == base,
            arena.words@ == Seq::new((pages * TABLE_ENTRIES) as nat, |i: int| 0u64),
    {
        let mut words: Vec<u64> = Vec::new();
        let mut page: usize = 0;
        while page < pages
            invariant
                page <= pages,
                words@ == Seq::new((page * TABLE_ENTRIES) as nat, |i: int| 0u64),
            decreases pages - page,
        {
            let mut i: usize = 0;
            while i < TABLE_ENTRIES
                invariant
                    i <= TABLE_ENTRIES,
                    page < pages,
                    words@ == Seq::new((page * TABLE_ENTRIES + i) as nat, |i: int| 0u64),
                decreases TABLE_ENTRIES - i,
            {
                words.push(0u64);
                i += 1;
            }
            page += 1;
        }
        PageArena { base, words }
    }

    /// The word at `address`, if the arena has one there.
    pub fn read(&self, address: u64) -> (word: Option<u64>)
        ensures
            word == self.word_at(address),
    {
        if address < self.base {
            return None;
        }
        let offset: u64 = address - self.base;
        if offset % 8 != 0 || offset / 8 >= self.words.len() as u64 {
            return None;
        }
        Some(self.words[(offset / 8) as usize])
    }

    /// Stores `word` at `address` and says whether the arena has a word
    /// there; if not, nothing changes.
    pub fn write(&mut self, address: u64, word: u64) -> (stored: bool)
        ensures
            final(self).base == old(self).base,
            stored == old(self).covers(address),
            final(self).words@ == if stored {
                old(self).words@.update(old(self).slot(address), word)
            } else {
                old(self).words@
            },
    {
        if address < self.base {
            return false;
        }
        let offset: u64 = address - self.base;
        if offset % 8 != 0 || offset / 8 >= self.words.len() as u64 {
            return false;
        }
        self.words.set((offset / 8) as usize, word);
        true
    }
}

/// Pages that tables with `directories` directory tables take: one for the
/// top-level table, one for the directory-pointer table, one for each
/// directory table.
pub open spec fn spec_table_pages(directories: usize) -> int {
    2 + directories
}

/// Pages to ask the firmware for; see [`spec_table_pages`]. `None` if the
/// directory-pointer table has no slot for that many directory tables.
pub fn table_pages(directories: usize) -> (pages: Option<usize>)
    ensures
        pages == if directories <= TABLE_ENTRIES {
            Some(spec_table_pages(directories) as usize)
        } else {
            None
        },
{
    if directories <= TABLE_ENTRIES {
        Some(2 + directories)
    } else {
        None
    }
}

/// Whether tables with `directories` directory tables can stand at `base`:
/// the base is page-aligned, the directory-pointer table has a slot for each
/// directory table, and every table lies below [`PHYSICAL_LIMIT`].
pub open spec fn valid_base(base: u64, directories: nat) -> bool {
    &&& base % PAGE_SIZE == 0
    &&& directories <= TABLE_ENTRIES
    &&& base + (2 + directories) * PAGE_SIZE <= PHYSICAL_LIMIT
}

/// Word `index` of the tables once `links` directory-pointer entries and
/// `leaves` directory entries have been written.
pub open spec fn word_after(base: u64, links: nat, leaves: nat, index: int) -> u64 {
    if index == 0 || index == UPPER_HALF_SLOT {
        entry((base + PAGE_SIZE) as u64, LINK_FLAGS)
    } else if index == RECURSIVE_SLOT {
        entry(base, LINK_FLAGS)
    } else if TABLE_ENTRIES <= index < TABLE_ENTRIES + links {
        entry((base + (2 + (index - TABLE_ENTRIES)) * PAGE_SIZE) as u64, LINK_FLAGS)
    } else if 2 * TABLE_ENTRIES <= index < 2 * TABLE_ENTRIES + leaves {
        entry(((index - 2 * TABLE_ENTRIES) * LARGE_PAGE_SIZE) as u64, LEAF_FLAGS)
    } else {
        0
    }
}

/// Word `index` of finished tables with `directories` directory tables:
///
/// - top level: slots 0 and 256 name the directory-pointer table, slot 511
///   names the top-level table itself, all else is empty;
/// - directory-pointer table: slot `i` names directory table `i`;
/// - directory tables: entry `k`, counted across all of them, maps the large
///   page at physical address `k` times 2 MiB.
pub open spec fn table_word(base: u64, directories: nat, index: int) -> u64 {
    word_after(base, directories, directories * (TABLE_ENTRIES as nat), index)
}

/// All words of finished tables, in address order.
pub open spec fn table_image(base: u64, directories: nat) -> Seq<u64> {
    Seq::new((2 + directories) * (TABLE_ENTRIES as nat), |index: int| table_word(base, directories, index))
}

spec fn image_after(base: u64, directories: nat, links: nat, leaves: nat) -> Seq<u64> {
    Seq::new(
        (2 + directories) * (TABLE_ENTRIES as nat),
        |index: int| word_after(base, links, leaves, index),
    )
}

/// A finished set of page tables.
pub struct PageTableSet {
    /// The tables' words, starting at the top-level table's address.
    pub arena: PageArena,
    /// How many directory tables follow the directory-pointer table.
    pub directories: usize,
}

impl PageTableSet {
    /// The tables stand at a valid base and hold exactly the layout that
    /// [`table_image`] describes.
    pub open spec fn wf(&self) -> bool {
        &&& valid_base(self.arena.base, self.directories as nat)
        &&& self.arena.words@ == table_image(self.arena.base, self.directories as nat)
    }

    /// The physical address of the top-level table: the root to load.
    pub fn root(&self) -> (address: u64)
        ensures
            address == self.arena.base,
    {
        self.arena.base
    }
}

/// Lays out page tables with `directories` directory tables in pages that
/// start at `page_phys`.
///
/// Fails with [`BootError::AllocationFailure`] exactly when the pages cannot
/// hold such tables; see [`valid_base`].
pub fn build_tables(page_phys: u64, directories: usize) -> (built: Result<PageTableSet, BootError>)
    ensures
        match built {
            Ok(tables) => {
                &&& valid_base(page_phys, directories as nat)
                &&& tables.wf()
                &&& tables.arena.base == page_phys
                &&& tables.directories == directories
            },
            Err(error) => error == BootError::AllocationFailure && !valid_base(
                page_phys,
                directories as nat,
            ),
        },
{
    if page_phys % PAGE_SIZE != 0 || directories > TABLE_ENTRIES || page_phys > PHYSICAL_LIMIT {
        return Err(BootError::AllocationFailure);
    }
    let pages: usize = 2 + directories;
    if pages as u64 * PAGE_SIZE > PHYSICAL_LIMIT - page_phys {
        return Err(BootError::AllocationFailure);
    }
    let mut arena: PageArena = PageArena::zeroed(page_phys, pages);
    let pointers: u64 = page_phys + PAGE_SIZE;
    let first_directory: u64 = pointers + PAGE_SIZE;
    let ghost count: nat = directories as nat;

    arena.write(page_phys, make_entry(pointers, LINK_FLAGS));
    arena.write(page_phys + UPPER_HALF_SLOT as u64 * 8, make_entry(pointers, LINK_FLAGS));
    arena.write(page_phys + RECURSIVE_SLOT as u64 * 8, make_entry(page_phys, LINK_FLAGS));

    let mut i: usize = 0;
    while i < directories
        invariant
            i <= directories,
            directories == count,
            valid_base(page_phys, count),
            pointers == page_phys + PAGE_SIZE,
            first_directory == pointers + PAGE_SIZE,
            arena.base == page_phys,
            arena.words@ == image_after(page_phys, count, i as nat, 0),
        decreases directories - i,
    {
        let target: u64 = first_directory + i as u64 * PAGE_SIZE;
        arena.write(pointers + i as u64 * 8, make_entry(target, LINK_FLAGS));
        i += 1;
    }

    let leaves: usize = directories * TABLE_ENTRIES;
    let mut k: usize = 0;
    while k < leaves
        invariant
            k <= leaves,
            leaves == directories * TABLE_ENTRIES,
            directories == count,
            valid_base(page_phys, count),
            first_directory == page_phys + 2 * PAGE_SIZE,
            arena.base == page_phys,
            arena.words@ == image_after(page_phys, count, count, k as nat),
        decreases leaves - k,
    {
        arena.write(first_directory + k as u64 * 8, make_entry(k as u64 * LARGE_PAGE_SIZE, LEAF_FLAGS));
        k += 1;
    }
    assert(arena.words@ == table_image(page_phys, count));
    Ok(PageTableSet { arena, directories })
}

/// Lays out the kernel's page tables, with [`DIRECTORY_COUNT`] directory
/// tables, in the pages that the firmware handed out at `page_phys`.
///
/// The top-level table then stands at `page_phys`. Fails with
/// [`BootError::AllocationFailure`] exactly when the pages cannot hold the
/// tables; see [`valid_base`].
pub fn paging_create(page_phys: u64) -> (built: Result<PageTableSet, BootError>)
    ensures
        match built {
            Ok(tables) => {
                &&& valid_base(page_phys, DIRECTORY_COUNT as nat)
                &&& tables.wf()
                &&& tables.arena.base == page_phys
                &&& tables.directories == DIRECTORY_COUNT
            },
            Err(error) => error == BootError::AllocationFailure && !valid_base(
                page_phys,
                DIRECTORY_COUNT as nat,
            ),
        },
{
    build_tables(page_phys, DIRECTORY_COUNT)
}

/// The layout of finished tables, entry by entry: slots 0 and 256 of the top
/// level are the same word and name the directory-pointer table; slot 511
/// names the top-level table; directory-pointer slot `i` names directory
/// table `i`; and directory entry `k` holds the address `k` times 2 MiB with
/// the present, writable and large bits, and nothing else.
pub proof fn lemma_table_layout(base: u64, directories: nat, i: int, k: int)
    requires
        valid_base(base, directories),
        0 <= i < directories,
        0 <= k < directories * TABLE_ENTRIES,
    ensures
        table_image(base, directories).len() == (2 + directories) * TABLE_ENTRIES,
        table_image(base, directories)[0] == table_image(base, directories)[UPPER_HALF_SLOT as int],
        table_image(base, directories)[0] == entry((base + PAGE_SIZE) as u64, LINK_FLAGS),
        table_image(base, directories)[RECURSIVE_SLOT as int] == entry(base, LINK_FLAGS),
        table_image(base, directories)[TABLE_ENTRIES + i] == entry(
            (base + (2 + i) * PAGE_SIZE) as u64,
            LINK_FLAGS,
        ),
        table_image(base, directories)[2 * TABLE_ENTRIES + k] == entry(
            (k * LARGE_PAGE_SIZE) as u64,
            LEAF_FLAGS,
        ),
        table_image(base, directories)[2 * TABLE_ENTRIES + k] & ADDRESS_MASK == k * LARGE_PAGE_SIZE,
        table_image(base, directories)[2 * TABLE_ENTRIES + k] & LEAF_FLAGS == LEAF_FLAGS,
        table_image(base, directories)[2 * TABLE_ENTRIES + k] & !(ADDRESS_MASK | LEAF_FLAGS) == 0,
{
    let address: u64 = (k * LARGE_PAGE_SIZE) as u64;
    lemma_flag_constants();
    lemma_entry_round_trip(address, LEAF_FLAGS);
}

/// The writes of the switch, in the order in which they must be made: the
/// features of control register 4, then long mode and no-execute, then the
/// table root, and only then paging. No bit that was set is cleared.
pub open spec fn activation(page_phys: u64, current: ControlRegisters) -> Seq<RegisterWrite> {
    seq![
        RegisterWrite { register: Register::Cr4, value: current.cr4 | cr4_enabled() },
        RegisterWrite { register: Register::Efer, value: current.efer | efer_enabled() },
        RegisterWrite { register: Register::Cr3, value: page_phys },
        RegisterWrite { register: Register::Cr0, value: current.cr0 | cr0_enabled() },
    ]
}

/// Plans the switch onto the page tables whose top-level table stands at
/// `page_phys`, from the control state `current`.
pub fn paging_enter(page_phys: u64, current: ControlRegisters) -> (writes: [RegisterWrite; 4])
    ensures
        writes@ == activation(page_phys, current),
{
    let cr4: u64 = current.cr4 | cr4_enable_mask();
    let efer: u64 = current.efer | (EFER_NO_EXECUTE | EFER_LONG_MODE);
    let cr0: u64 = current.cr0 | cr0_enable_mask();
    let writes: [RegisterWrite; 4] = [
        RegisterWrite { register: Register::Cr4, value: cr4 },
        RegisterWrite { register: Register::Efer, value: efer },
        RegisterWrite { register: Register::Cr3, value: page_phys },
        RegisterWrite { register: Register::Cr0, value: cr0 },
    ];
    writes
}

/// The switch keeps its order: the one write that turns paging on comes
/// last, after the write that sets physical-address extension, the write
/// that sets long mode and the write that loads the table root; and each
/// write keeps every bit that was set before.
pub proof fn lemma_activation_order(page_phys: u64, current: ControlRegisters, step: int)
    requires
        0 <= step < 4,
    ensures
        activation(page_phys, current).len() == 4,
        cr4_enabled() == 0x4_02b0,
        efer_enabled() == 0x900,
        cr0_enabled() == 0x8001_0001,
        activation(page_phys, current)[step].register == Register::Cr0 <==> step == 3,
        activation(page_phys, current)[0].register == Register::Cr4,
        activation(page_phys, current)[0].value & Cr4Flag::PhysicalAddressExtension.mask()
            == Cr4Flag::PhysicalAddressExtension.mask(),
        activation(page_phys, current)[0].value & current.cr4 == current.cr4,
        activation(page_phys, current)[1].register == Register::Efer,
        activation(page_phys, current)[1].value & EFER_LONG_MODE == EFER_LONG_MODE,
        activation(page_phys, current)[1].value & current.efer == current.efer,
        activation(page_phys, current)[2] == (RegisterWrite {
            register: Register::Cr3,
            value: page_phys,
        }),
        activation(page_phys, current)[3].value & Cr0Flag::Paging.mask() == Cr0Flag::Paging.mask(),
        activation(page_phys, current)[3].value & current.cr0 == current.cr0,
{
    let cr0: u64 = current.cr0;
    let cr4: u64 = current.cr4;
    let efer: u64 = current.efer;
    assert(0x4_0000u64 | 0x200u64 | 0x80u64 | 0x20u64 | 0x10u64 == 0x4_02b0u64) by (bit_vector);
    assert(0x800u64 | 0x100u64 == 0x900u64) by (bit_vector);
    assert(0x8000_0000u64 | 0x1_0000u64 | 0x1u64 == 0x8001_0001u64) by (bit_vector);
    assert((cr4 | 0x4_02b0u64) & 0x20u64 == 0x20u64) by (bit_vector);
    assert((cr4 | 0x4_02b0u64) & cr4 == cr4) by (bit_vector);
    assert((efer | 0x900u64) & 0x100u64 == 0x100u64) by (bit_vector);
    assert((efer | 0x900u64) & efer == efer) by (bit_vector);
    assert((cr0 | 0x8001_0001u64) & 0x8000_0000u64 == 0x8000_0000u64) by (bit_vector);
    assert((cr0 | 0x8001_0001u64) & cr0 == cr0) by (bit_vector);
}

/// Lays out the kernel's page tables at [`PT_BASE`] and plans the switch
/// onto them from the control state `current`.
pub fn paging(current: ControlRegisters) -> (plan: (PageTableSet, [RegisterWrite; 4]))
    ensures
        plan.0.wf(),
        plan.0.arena.base == PT_BASE,
        plan.0.directories == DIRECTORY_COUNT,
        plan.1@ == activation(PT_BASE, current),
{
    match paging_create(PT_BASE) {
        Ok(tables) => (tables, paging_enter(PT_BASE, current)),
        Err(_) => unreached(),
    }
}

} // verus!

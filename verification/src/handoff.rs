//! What the kernel is told when control passes to it.
//!
//! The kernel finds its image, its stack and the loader's findings at fixed
//! places. It sees them through the upper half of the address space, where
//! physical address 0 appears at [`PHYSICAL_OFFSET`].

use vstd::prelude::*;
use crate::bytes::{le_bytes_u64, le_u64_at, lemma_le_round_trip_u64, push_u64_le};
use crate::context::BootContext;

verus! {

/// Where physical memory starts in the kernel's address space.
pub const PHYSICAL_OFFSET: u64 = 0xffff_8000_0000_0000;

/// Physical address that the kernel image is copied to.
pub const KERNEL_PHYSICAL: u64 = 0x10_0000;

/// Physical address of the lowest byte of the boot stack. The environment
/// string is copied here.
pub const STACK_PHYSICAL: u64 = 0x8_0000;

/// The boot stack's lowest byte in the kernel's address space.
pub const STACK_VIRTUAL: u64 = 0xffff_8000_0008_0000;

/// Bytes of the boot stack.
pub const STACK_SIZE: u64 = 0x1_f000;

/// Bytes of the argument record.
pub const KERNEL_ARGS_SIZE: usize = 64;

/// The highest physical address that still has a place in the kernel's
/// address space.
pub const PHYSICAL_MAX: u64 = 0x0000_7fff_ffff_ffff;

/// The argument record. The kernel gets its address and reads the fields in
/// this order, eight bytes each, least significant byte first.
#[derive(Clone, Copy, Debug, PartialEq, Eq, Structural)]
pub struct KernelArgs {
    /// Physical address of the kernel image.
    pub kernel_base: u64,
    /// Length of the kernel image.
    pub kernel_size: u64,
    /// Address of the lowest byte of the stack, in the kernel's address space.
    pub stack_base: u64,
    /// Length of the stack.
    pub stack_size: u64,
    /// Address of the environment string, in the kernel's address space.
    pub env_base: u64,
    /// Length of the environment string.
    pub env_size: u64,
    /// Address of the captured ACPI root pointers, in the kernel's address
    /// space.
    pub acpi_rsdps_base: u64,
    /// Length of the captured ACPI root pointers.
    pub acpi_rsdps_size: u64,
}

/// All that the jump into the kernel needs.
#[derive(Clone, Copy, Debug, PartialEq, Eq, Structural)]
pub struct Handoff {
    /// The record whose address the kernel is given.
    pub args: KernelArgs,
    /// The address to jump to.
    pub entry: u64,
    /// The stack pointer to jump with: the end of the boot stack.
    pub stack_pointer: u64,
}

impl KernelArgs {
    /// The record as the kernel reads it from memory.
    pub open spec fn spec_bytes(self) -> Seq<u8> {
        le_bytes_u64(self.kernel_base) + le_bytes_u64(self.kernel_size) + le_bytes_u64(
            self.stack_base,
        ) + le_bytes_u64(self.stack_size) + le_bytes_u64(self.env_base) + le_bytes_u64(
            self.env_size,
        ) + le_bytes_u64(self.acpi_rsdps_base) + le_bytes_u64(self.acpi_rsdps_size)
    }

    /// Writes the record as the kernel reads it from memory.
    pub fn to_bytes(&self) -> (bytes: Vec<u8>)
        ensures
            bytes@ == self.spec_bytes(),
            bytes@.len() == KERNEL_ARGS_SIZE,
    {
        let mut bytes: Vec<u8> = Vec::new();
        push_u64_le(&mut bytes, self.kernel_base);
        push_u64_le(&mut bytes, self.kernel_size);
        push_u64_le(&mut bytes, self.stack_base);
        push_u64_le(&mut bytes, self.stack_size);
        push_u64_le(&mut bytes, self.env_base);
        push_u64_le(&mut bytes, self.env_size);
        push_u64_le(&mut bytes, self.acpi_rsdps_base);
        push_u64_le(&mut bytes, self.acpi_rsdps_size);
        bytes
    }
}

/// The record in memory holds the fields in their order, eight bytes each and
/// nothing between them.
pub proof fn lemma_args_layout(args: KernelArgs)
    ensures
        args.spec_bytes().len() == KERNEL_ARGS_SIZE,
        le_u64_at(args.spec_bytes(), 0) == args.kernel_base,
        le_u64_at(args.spec_bytes(), 8) == args.kernel_size,
        le_u64_at(args.spec_bytes(), 16) == args.stack_base,
        le_u64_at(args.spec_bytes(), 24) == args.stack_size,
        le_u64_at(args.spec_bytes(), 32) == args.env_base,
        le_u64_at(args.spec_bytes(), 40) == args.env_size,
        le_u64_at(args.spec_bytes(), 48) == args.acpi_rsdps_base,
        le_u64_at(args.spec_bytes(), 56) == args.acpi_rsdps_size,
{
    let bytes: Seq<u8> = args.spec_bytes();
    lemma_le_round_trip_u64(args.kernel_base);
    lemma_le_round_trip_u64(args.kernel_size);
    lemma_le_round_trip_u64(args.stack_base);
    lemma_le_round_trip_u64(args.stack_size);
    lemma_le_round_trip_u64(args.env_base);
    lemma_le_round_trip_u64(args.env_size);
    lemma_le_round_trip_u64(args.acpi_rsdps_base);
    lemma_le_round_trip_u64(args.acpi_rsdps_size);
    assert(le_u64_at(bytes, 0) == le_u64_at(le_bytes_u64(args.kernel_base), 0));
    assert(le_u64_at(bytes, 8) == le_u64_at(le_bytes_u64(args.kernel_size), 0));
    assert(le_u64_at(bytes, 16) == le_u64_at(le_bytes_u64(args.stack_base), 0));
    assert(le_u64_at(bytes, 24) == le_u64_at(le_bytes_u64(args.stack_size), 0));
    assert(le_u64_at(bytes, 32) == le_u64_at(le_bytes_u64(args.env_base), 0));
    assert(le_u64_at(bytes, 40) == le_u64_at(le_bytes_u64(args.env_size), 0));
    assert(le_u64_at(bytes, 48) == le_u64_at(le_bytes_u64(args.acpi_rsdps_base), 0));
    assert(le_u64_at(bytes, 56) == le_u64_at(le_bytes_u64(args.acpi_rsdps_size), 0));
}

/// The length of the capture buffer that `context` holds; none counts as
/// empty.
pub open spec fn rsdps_len(context: BootContext) -> nat {
    match context.rsdps_area {
        Some(area) => area@.len(),
        None => 0,
    }
}

/// The physical address that the argument record gives for the capture
/// buffer: where the buffer lies, or 0 if discovery has not run.
pub open spec fn rsdps_base(context: BootContext, rsdps_phys: u64) -> u64 {
    match context.rsdps_area {
        Some(_) => rsdps_phys,
        None => 0,
    }
}

/// The hand-off for `context`, with the capture buffer at `rsdps_phys`.
pub open spec fn handoff_of(context: BootContext, rsdps_phys: u64) -> Handoff {
    Handoff {
        args: KernelArgs {
            kernel_base: KERNEL_PHYSICAL,
            kernel_size: context.kernel_size,
            stack_base: STACK_VIRTUAL,
            stack_size: STACK_SIZE,
            env_base: STACK_VIRTUAL,
            env_size: context.env_size,
            acpi_rsdps_base: (rsdps_base(context, rsdps_phys) + PHYSICAL_OFFSET) as u64,
            acpi_rsdps_size: rsdps_len(context) as u64,
        },
        entry: context.kernel_entry,
        stack_pointer: (STACK_VIRTUAL + STACK_SIZE) as u64,
    }
}

/// Prepares the jump into the kernel: the argument record, the entry point
/// and the stack pointer.
///
/// `rsdps_phys` is the physical address at which the capture buffer of
/// `context` lies; it must have a place in the kernel's address space.
pub fn enter(context: &BootContext, rsdps_phys: u64) -> (handoff: Handoff)
    requires
        rsdps_phys <= PHYSICAL_MAX,
    ensures
        handoff == handoff_of(*context, rsdps_phys),
{
    let (base, size): (u64, u64) = match &context.rsdps_area {
        Some(area) => (rsdps_phys, area.len() as u64),
        None => (0, 0),
    };
    Handoff {
        args: KernelArgs {
            kernel_base: KERNEL_PHYSICAL,
            kernel_size: context.kernel_size,
            stack_base: STACK_VIRTUAL,
            stack_size: STACK_SIZE,
            env_base: STACK_VIRTUAL,
            env_size: context.env_size,
            acpi_rsdps_base: base + PHYSICAL_OFFSET,
            acpi_rsdps_size: size,
        },
        entry: context.kernel_entry,
        stack_pointer: STACK_VIRTUAL + STACK_SIZE,
    }
}

/// The fixed places fit together: the stack's address in the kernel's
/// address space is its physical address seen through the upper half, the
/// page tables at their fixed base end below the stack, the stack ends below
/// the kernel image, and every physical address up to [`PHYSICAL_MAX`] has a
/// place in the kernel's address space.
pub proof fn lemma_fixed_layout()
    ensures
        STACK_VIRTUAL == STACK_PHYSICAL + PHYSICAL_OFFSET,
        crate::paging::PT_BASE + (2 + crate::paging::DIRECTORY_COUNT) * crate::paging::PAGE_SIZE
            <= STACK_PHYSICAL,
        STACK_PHYSICAL + STACK_SIZE <= KERNEL_PHYSICAL,
        PHYSICAL_MAX + PHYSICAL_OFFSET == u64::MAX,
{
}

} // verus!

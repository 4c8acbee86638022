//! The processor's control state as the loader sees it: the registers that
//! the switch onto new page tables reads and writes, and the bits it sets.

use vstd::prelude::*;

verus! {

/// Feature bits of control register 0 that the loader sets.
#[derive(Clone, Copy, Debug, PartialEq, Eq, Structural)]
pub enum Cr0Flag {
    /// Bit 0: protected mode.
    ProtectedMode,
    /// Bit 16: supervisor writes honour read-only pages.
    WriteProtect,
    /// Bit 31: paging.
    Paging,
}

/// Feature bits of control register 4 that the loader sets.
#[derive(Clone, Copy, Debug, PartialEq, Eq, Structural)]
pub enum Cr4Flag {
    /// Bit 4: page-size extension.
    PageSizeExtension,
    /// Bit 5: physical-address extension.
    PhysicalAddressExtension,
    /// Bit 7: global pages.
    GlobalPages,
    /// Bit 9: SSE with fast save and restore of its state.
    Sse,
    /// Bit 18: extended save-state support.
    OsXsave,
}

impl Cr0Flag {
    /// The register bit of the feature.
    pub open spec fn mask(self) -> u64 {
        match self {
            Cr0Flag::ProtectedMode => 0x1,
            Cr0Flag::WriteProtect => 0x1_0000,
            Cr0Flag::Paging => 0x8000_0000,
        }
    }
}

impl Cr4Flag {
    /// The register bit of the feature.
    pub open spec fn mask(self) -> u64 {
        match self {
            Cr4Flag::PageSizeExtension => 0x10,
            Cr4Flag::PhysicalAddressExtension => 0x20,
            Cr4Flag::GlobalPages => 0x80,
            Cr4Flag::Sse => 0x200,
            Cr4Flag::OsXsave => 0x4_0000,
        }
    }
}

/// The bit that `x86::controlregs::Cr0` gives the feature, read with `bits`.
///
/// Trusted: that the crate's three flag constants are bits 0, 16 and 31.
#[verifier::external_body]
fn cr0_bits(flag: Cr0Flag) -> (bits: u64)
    ensures
        bits == flag.mask(),
{
    let named = match flag {
        Cr0Flag::ProtectedMode => x86::controlregs::Cr0::CR0_PROTECTED_MODE,
        Cr0Flag::WriteProtect => x86::controlregs::Cr0::CR0_WRITE_PROTECT,
        Cr0Flag::Paging => x86::controlregs::Cr0::CR0_ENABLE_PAGING,
    };
    named.bits() as u64
}

/// The bit that `x86::controlregs::Cr4` gives the feature, read with `bits`.
///
/// Trusted: that the crate's five flag constants are bits 4, 5, 7, 9 and 18.
#[verifier::external_body]
fn cr4_bits(flag: Cr4Flag) -> (bits: u64)
    ensures
        bits == flag.mask(),
{
    let named = match flag {
        Cr4Flag::PageSizeExtension => x86::controlregs::Cr4::CR4_ENABLE_PSE,
        Cr4Flag::PhysicalAddressExtension => x86::controlregs::Cr4::CR4_ENABLE_PAE,
        Cr4Flag::GlobalPages => x86::controlregs::Cr4::CR4_ENABLE_GLOBAL_PAGES,
        Cr4Flag::Sse => x86::controlregs::Cr4::CR4_ENABLE_SSE,
        Cr4Flag::OsXsave => x86::controlregs::Cr4::CR4_ENABLE_OS_XSAVE,
    };
    named.bits() as u64
}

/// Bit 8 of the extended feature register: long mode.
pub const EFER_LONG_MODE: u64 = 0x100;

/// Bit 11 of the extended feature register: no-execute pages.
pub const EFER_NO_EXECUTE: u64 = 0x800;

/// The control state that the switch depends on, as read before it starts.
#[derive(Clone, Copy, Debug, PartialEq, Eq, Structural)]
pub struct ControlRegisters {
    /// Control register 0.
    pub cr0: u64,
    /// Control register 4.
    pub cr4: u64,
    /// The extended feature register.
    pub efer: u64,
}

/// A register that the switch writes.
#[derive(Clone, Copy, Debug, PartialEq, Eq, Structural)]
pub enum Register {
    /// Control register 0.
    Cr0,
    /// Control register 3, the root of the page tables.
    Cr3,
    /// Control register 4.
    Cr4,
    /// The extended feature register.
    Efer,
}

/// One register write.
#[derive(Clone, Copy, Debug, PartialEq, Eq, Structural)]
pub struct RegisterWrite {
    /// The register to write.
    pub register: Register,
    /// The value to write to it.
    pub value: u64,
}

/// The bits that the switch sets in control register 4: extended save-state
/// support, SSE, global pages, physical-address extension and page-size
/// extension.
pub open spec fn cr4_enabled() -> u64 {
    Cr4Flag::OsXsave.mask() | Cr4Flag::Sse.mask() | Cr4Flag::GlobalPages.mask()
        | Cr4Flag::PhysicalAddressExtension.mask() | Cr4Flag::PageSizeExtension.mask()
}

/// The bits that the switch sets in the extended feature register: long mode
/// and no-execute.
pub open spec fn efer_enabled() -> u64 {
    EFER_NO_EXECUTE | EFER_LONG_MODE
}

/// The bits that the switch sets in control register 0: paging, write
/// protection and protected mode.
pub open spec fn cr0_enabled() -> u64 {
    Cr0Flag::Paging.mask() | Cr0Flag::WriteProtect.mask() | Cr0Flag::ProtectedMode.mask()
}

/// The bits to set in control register 4, gathered from the flag constants.
pub fn cr4_enable_mask() -> (mask: u64)
    ensures
        mask == cr4_enabled(),
{
    cr4_bits(Cr4Flag::OsXsave) | cr4_bits(Cr4Flag::Sse) | cr4_bits(Cr4Flag::GlobalPages) | cr4_bits(
        Cr4Flag::PhysicalAddressExtension,
    ) | cr4_bits(Cr4Flag::PageSizeExtension)
}

/// The bits to set in control register 0, gathered from the flag constants.
pub fn cr0_enable_mask() -> (mask: u64)
    ensures
        mask == cr0_enabled(),
{
    cr0_bits(Cr0Flag::Paging) | cr0_bits(Cr0Flag::WriteProtect) | cr0_bits(Cr0Flag::ProtectedMode)
}

} // verus!

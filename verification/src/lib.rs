//! Boot-stage logic for a firmware-launched kernel loader.
//!
//! Everything here works on plain values: byte buffers, addresses and small
//! records. The firmware calls, the raw memory copies and the final jump are
//! left to the caller, which feeds their results in and carries the answers
//! out.
//!
//! - [`sequencer`] names the steps of the boot in their order and decides
//!   what a failure means.
//! - [`partitions`] picks the partition to boot from, [`image`] reads the
//!   kernel image and [`environment`] writes the string that goes with it.
//! - [`acpi`] finds, checks and frames the ACPI root pointer.
//! - [`memory_map`] turns the firmware's memory map into the kernel's table.
//! - [`paging`] lays out the page tables and plans the switch to them,
//!   [`registers`] names the control bits, and [`translation`] says what the
//!   tables mean.
//! - [`handoff`] holds the fixed places in memory and the argument record.
//! - [`bytes`], [`guid`], [`context`], [`error`], [`firmware`] and
//!   [`console`] hold what the others share.

pub mod acpi;
pub mod bytes;
pub mod console;
pub mod context;
pub mod environment;
pub mod error;
pub mod firmware;
pub mod guid;
pub mod handoff;
pub mod image;
pub mod memory_map;
pub mod paging;
pub mod partitions;
pub mod registers;
pub mod sequencer;
pub mod translation;

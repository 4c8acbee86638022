//! The ways a boot attempt can go wrong.

use vstd::prelude::*;
use crate::acpi::Invalid;

verus! {

/// A condition that ends or degrades a boot attempt.
#[derive(Clone, Copy, Debug, PartialEq, Eq, Structural)]
pub enum BootError {
    /// No boot device or no kernel image was found. Fatal.
    NotFound,
    /// The kernel image is too short to hold its entry point, or its length
    /// is not the advertised one. Fatal.
    InvalidKernel,
    /// The firmware could not provide usable pages. Fatal.
    AllocationFailure,
    /// The firmware turned the memory-map key down as stale. The map is
    /// captured again and the exit retried, a bounded number of times.
    MapKeyStale,
    /// A candidate ACPI structure was turned down, for this reason. It is
    /// skipped.
    InvalidAcpiStructure(Invalid),
    /// The firmware's memory descriptors are smaller than the fields the
    /// loader reads. The kernel then gets an empty memory table.
    DescriptorSizeMismatch,
    /// A firmware call failed with this status, for no reason named above.
    /// Fatal.
    Firmware(usize),
}

impl BootError {
    /// Whether the boot attempt must end on this condition.
    pub open spec fn spec_is_fatal(self) -> bool {
        match self {
            BootError::NotFound => true,
            BootError::InvalidKernel => true,
            BootError::AllocationFailure => true,
            BootError::MapKeyStale => false,
            BootError::InvalidAcpiStructure(_) => false,
            BootError::DescriptorSizeMismatch => false,
            BootError::Firmware(_) => true,
        }
    }

    /// Whether the boot attempt must end on this condition.
    #[verifier::when_used_as_spec(spec_is_fatal)]
    pub fn is_fatal(self) -> (fatal: bool)
        ensures
            fatal == self.spec_is_fatal(),
    {
        match self {
            BootError::NotFound => true,
            BootError::InvalidKernel => true,
            BootError::AllocationFailure => true,
            BootError::MapKeyStale => false,
            BootError::InvalidAcpiStructure(_) => false,
            BootError::DescriptorSizeMismatch => false,
            BootError::Firmware(_) => true,
        }
    }
}

} // verus!

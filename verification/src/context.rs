//! The record of what the boot sequence has learned so far.

use vstd::prelude::*;

verus! {

/// What the steps of the boot sequence write once and the hand-off reads
/// once. The sequencer owns the only copy and passes it to each step.
pub struct BootContext {
    /// Length of the kernel image in bytes.
    pub kernel_size: u64,
    /// Address of the kernel's entry point, as its header gives it.
    pub kernel_entry: u64,
    /// Length of the environment string in bytes.
    pub env_size: u64,
    /// The captured ACPI root pointers; `None` until discovery has run.
    pub rsdps_area: Option<Vec<u8>>,
}

/// A [`BootContext`] as plain values.
pub struct BootContextView {
    /// Length of the kernel image in bytes.
    pub kernel_size: u64,
    /// Address of the kernel's entry point.
    pub kernel_entry: u64,
    /// Length of the environment string in bytes.
    pub env_size: u64,
    /// The captured ACPI root pointers; `None` until discovery has run.
    pub rsdps_area: Option<Seq<u8>>,
}

impl View for BootContext {
    type V = BootContextView;

    open spec fn view(&self) -> BootContextView {
        BootContextView {
            kernel_size: self.kernel_size,
            kernel_entry: self.kernel_entry,
            env_size: self.env_size,
            rsdps_area: match self.rsdps_area {
                Some(area) => Some(area@),
                None => None,
            },
        }
    }
}

impl BootContext {
    /// The context before anything has been loaded.
    pub fn new() -> (context: BootContext)
        ensures
            context@ == (BootContextView {
                kernel_size: 0,
                kernel_entry: 0,
                env_size: 0,
                rsdps_area: None,
            }),
    {
        BootContext { kernel_size: 0, kernel_entry: 0, env_size: 0, rsdps_area: None }
    }
}

} // verus!

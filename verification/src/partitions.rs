//! Choosing the partition to boot from.
//!
//! The firmware is asked for every block device; what it says of each is
//! written down as a [`PartitionDescriptor`], and the first descriptor, in
//! the firmware's order, that names a bootable filesystem wins.

use vstd::prelude::*;
use crate::guid::Guid;

verus! {

/// The type byte of a Linux partition in an MBR partition table.
pub const MBR_LINUX: u8 = 0x83;

/// How a partition's table names its type.
#[derive(Clone, Copy, Debug, PartialEq, Eq, Structural)]
pub enum PartitionType {
    /// An entry of a GUID partition table, with its type GUID.
    Gpt(Guid),
    /// An entry of an MBR partition table, with its type byte.
    Mbr(u8),
    /// Neither: the firmware reports some other kind of partition table, or
    /// the device is not a partition and has none.
    Other,
}

/// What the firmware says of one block device.
#[derive(Clone, Copy, Debug, PartialEq, Eq, Structural)]
pub struct PartitionDescriptor {
    /// The device is a partition of another device, not a whole disk.
    pub logical: bool,
    /// The firmware marks the partition as its own system partition.
    pub system: bool,
    /// The partition's type, as its partition table names it.
    pub ty: PartitionType,
}

/// The partition type GUIDs that the choice depends on.
#[derive(Clone, Copy, Debug, PartialEq, Eq, Structural)]
pub struct FilesystemTypes {
    /// The firmware's system partition. Never booted from.
    pub system: Guid,
    /// The filesystem of the operating system to boot.
    pub target: Guid,
    /// The foreign filesystem type that is accepted as well.
    pub foreign: Guid,
}

/// What to do with one block device.
#[derive(Clone, Copy, Debug, PartialEq, Eq, Structural)]
pub enum Decision {
    /// Boot from it.
    Boot,
    /// Pass over it.
    Skip,
    /// It carries the system partition's type GUID without being marked as
    /// the system partition. That must not happen; the search ends.
    SystemPartition,
}

/// Why no partition was chosen.
#[derive(Clone, Copy, Debug, PartialEq, Eq, Structural)]
pub enum LocateError {
    /// No descriptor names a bootable filesystem.
    NotFound,
    /// The descriptor at this index carries the system partition's type GUID
    /// without being marked as the system partition.
    SystemPartition(usize),
}

/// What to do with one block device.
///
/// Whole disks and the firmware's system partition are passed over. A GPT
/// partition is booted from if its type is the target or the foreign
/// filesystem, and never if its type is the system partition's. An MBR
/// partition is booted from if its type byte is [`MBR_LINUX`]. Everything
/// else is passed over.
pub open spec fn decision(descriptor: PartitionDescriptor, types: FilesystemTypes) -> Decision {
    if !descriptor.logical || descriptor.system {
        Decision::Skip
    } else {
        match descriptor.ty {
            PartitionType::Gpt(guid) => if guid == types.system {
                Decision::SystemPartition
            } else if guid == types.target || guid == types.foreign {
                Decision::Boot
            } else {
                Decision::Skip
            },
            PartitionType::Mbr(code) => if code == MBR_LINUX {
                Decision::Boot
            } else {
                Decision::Skip
            },
            PartitionType::Other => Decision::Skip,
        }
    }
}

/// Decides what to do with one block device; see [`decision`].
pub fn classify(descriptor: &PartitionDescriptor, types: &FilesystemTypes) -> (result: Decision)
    ensures
        result == decision(*descriptor, *types),
{
    if !descriptor.logical || descriptor.system {
        return Decision::Skip;
    }
    match descriptor.ty {
        PartitionType::Gpt(guid) => {
            if guid == types.system {
                Decision::SystemPartition
            } else if guid == types.target || guid == types.foreign {
                Decision::Boot
            } else {
                Decision::Skip
            }
        },
        PartitionType::Mbr(code) => {
            if code == MBR_LINUX {
                Decision::Boot
            } else {
                Decision::Skip
            }
        },
        PartitionType::Other => Decision::Skip,
    }
}

/// A block device is booted from in exactly two cases: it is a GPT partition
/// of the target or the foreign type, or it is an MBR partition of type
/// [`MBR_LINUX`]; and in both it is a partition and not marked as the
/// firmware's system partition. A GPT partition of the system partition's
/// type is never booted from, whatever the other types are.
pub proof fn lemma_decision(descriptor: PartitionDescriptor, types: FilesystemTypes)
    ensures
        decision(descriptor, types) == Decision::Boot <==> {
            &&& descriptor.logical
            &&& !descriptor.system
            &&& match descriptor.ty {
                PartitionType::Gpt(guid) => guid != types.system && (guid == types.target || guid
                    == types.foreign),
                PartitionType::Mbr(code) => code == MBR_LINUX,
                PartitionType::Other => false,
            }
        },
        descriptor.ty == PartitionType::Gpt(types.system) ==> decision(descriptor, types)
            != Decision::Boot,
        decision(descriptor, types) == Decision::SystemPartition <==> descriptor.logical
            && !descriptor.system && descriptor.ty == PartitionType::Gpt(types.system),
{
}

/// The outcome of the search over the descriptors from `start` on: the first
/// descriptor that is not passed over decides.
pub open spec fn search_from(
    descriptors: Seq<PartitionDescriptor>,
    types: FilesystemTypes,
    start: int,
) -> Result<int, LocateError>
    decreases descriptors.len() - start,
{
    if start < 0 || start >= descriptors.len() {
        Err(LocateError::NotFound)
    } else {
        match decision(descriptors[start], types) {
            Decision::Boot => Ok(start),
            Decision::SystemPartition => Err(LocateError::SystemPartition(start as usize)),
            Decision::Skip => search_from(descriptors, types, start + 1),
        }
    }
}

/// The outcome of the search over all descriptors.
pub open spec fn search(descriptors: Seq<PartitionDescriptor>, types: FilesystemTypes) -> Result<
    int,
    LocateError,
> {
    search_from(descriptors, types, 0)
}

/// Picks the block device to boot from: the index of the first descriptor
/// that is to be booted from.
///
/// Fails with [`LocateError::SystemPartition`] if a descriptor that ends
/// the search comes before any bootable one, and with [`LocateError::NotFound`]
/// if every descriptor is passed over.
pub fn get_correct_block_io(descriptors: &[PartitionDescriptor], types: &FilesystemTypes) -> (chosen:
    Result<usize, LocateError>)
    ensures
        match chosen {
            Ok(index) => search(descriptors@, *types) == Ok::<int, LocateError>(index as int)
                && index < descriptors.len(),
            Err(error) => search(descriptors@, *types) == Err::<int, LocateError>(error),
        },
{
    let mut i: usize = 0;
    while i < descriptors.len()
        invariant
            i <= descriptors.len(),
            search(descriptors@, *types) == search_from(descriptors@, *types, i as int),
        decreases descriptors.len() - i,
    {
        match classify(&descriptors[i], types) {
            Decision::Boot => {
                return Ok(i);
            },
            Decision::SystemPartition => {
                return Err(LocateError::SystemPartition(i));
            },
            Decision::Skip => {},
        }
        i += 1;
    }
    Err(LocateError::NotFound)
}

/// What the search's outcome says of the descriptors it went through.
///
/// A chosen descriptor is bootable and everything before it was passed over:
/// it is a partition, not the firmware's system partition, and either a GPT
/// partition of the target or foreign type and not of the system partition's
/// type, or an MBR partition of type [`MBR_LINUX`]. If nothing was found,
/// every descriptor was passed over.
pub proof fn lemma_search_outcome(
    descriptors: Seq<PartitionDescriptor>,
    types: FilesystemTypes,
    start: int,
)
    requires
        0 <= start,
        descriptors.len() <= usize::MAX,
    ensures
        match search_from(descriptors, types, start) {
            Ok(index) => {
                &&& start <= index < descriptors.len()
                &&& decision(descriptors[index], types) == Decision::Boot
                &&& descriptors[index].logical
                &&& !descriptors[index].system
                &&& descriptors[index].ty != PartitionType::Gpt(types.system)
                &&& match descriptors[index].ty {
                    PartitionType::Gpt(guid) => guid == types.target || guid == types.foreign,
                    PartitionType::Mbr(code) => code == MBR_LINUX,
                    PartitionType::Other => false,
                }
                &&& forall|i: int|
                    start <= i < index ==> decision(#[trigger] descriptors[i], types)
                        == Decision::Skip
            },
            Err(LocateError::SystemPartition(index)) => {
                &&& start <= index < descriptors.len()
                &&& decision(descriptors[index as int], types) == Decision::SystemPartition
                &&& forall|i: int|
                    start <= i < index ==> decision(#[trigger] descriptors[i], types)
                        == Decision::Skip
            },
            Err(LocateError::NotFound) => forall|i: int|
                start <= i < descriptors.len() ==> decision(#[trigger] descriptors[i], types)
                    == Decision::Skip,
        },
    decreases descriptors.len() - start,
{
    if start < descriptors.len() && decision(descriptors[start], types) == Decision::Skip {
        lemma_search_outcome(descriptors, types, start + 1);
    }
}

/// A GPT partition whose type is the system partition's is never chosen,
/// whatever else the descriptors hold, and never judged bootable.
pub proof fn lemma_system_partition_never_chosen(
    descriptors: Seq<PartitionDescriptor>,
    types: FilesystemTypes,
    index: int,
)
    requires
        descriptors.len() <= usize::MAX,
        0 <= index < descriptors.len(),
        descriptors[index].ty == PartitionType::Gpt(types.system),
    ensures
        decision(descriptors[index], types) != Decision::Boot,
        search(descriptors, types) != Ok::<int, LocateError>(index),
{
    lemma_search_outcome(descriptors, types, 0);
}

} // verus!

use bootloader::guid::Guid;
use bootloader::partitions::{
    classify, get_correct_block_io, Decision, FilesystemTypes, LocateError, PartitionDescriptor,
    PartitionType, MBR_LINUX,
};

const ESP: Guid = Guid { data1: 0xc12a_7328, data2: 0xf81f, data3: 0x11d2, data4: 0xba4b_00a0_c93e_c93b };
const LINUX: Guid = Guid { data1: 0x0fc6_3daf, data2: 0x8483, data3: 0x4772, data4: 0x8e79_3d69_d847_7de4 };
const TARGET: Guid = Guid { data1: 0x1111_2222, data2: 0x3333, data3: 0x4444, data4: 0x5555_6666_7777_8888 };
const SWAP: Guid = Guid { data1: 0x0657_fd6d, data2: 0xa4ab, data3: 0x43c4, data4: 0x84e5_0933_c84b_4f4f };
const TYPES: FilesystemTypes = FilesystemTypes { system: ESP, target: TARGET, foreign: LINUX };

fn gpt(guid: Guid) -> PartitionDescriptor {
    PartitionDescriptor { logical: true, system: false, ty: PartitionType::Gpt(guid) }
}

fn mbr(code: u8) -> PartitionDescriptor {
    PartitionDescriptor { logical: true, system: false, ty: PartitionType::Mbr(code) }
}

#[test]
fn gpt_partition_of_the_target_type_is_booted() {
    assert_eq!(classify(&gpt(TARGET), &TYPES), Decision::Boot);
}

#[test]
fn gpt_partition_of_the_foreign_type_is_booted() {
    assert_eq!(classify(&gpt(LINUX), &TYPES), Decision::Boot);
}

#[test]
fn gpt_partition_of_the_system_type_is_never_booted() {
    assert_eq!(classify(&gpt(ESP), &TYPES), Decision::SystemPartition);
    let both = FilesystemTypes { system: ESP, target: ESP, foreign: ESP };
    assert_eq!(classify(&gpt(ESP), &both), Decision::SystemPartition);
}

#[test]
fn gpt_partition_of_another_type_is_skipped() {
    assert_eq!(classify(&gpt(SWAP), &TYPES), Decision::Skip);
    let mut near = TARGET;
    near.data3 ^= 1;
    assert_eq!(classify(&gpt(near), &TYPES), Decision::Skip);
}

#[test]
fn mbr_partition_of_type_0x83_is_booted() {
    assert_eq!(MBR_LINUX, 0x83);
    assert_eq!(classify(&mbr(0x83), &TYPES), Decision::Boot);
}

#[test]
fn mbr_partition_of_another_type_is_skipped() {
    for code in [0x00u8, 0x07, 0x0b, 0x82, 0x84, 0xee, 0xef, 0xff] {
        assert_eq!(classify(&mbr(code), &TYPES), Decision::Skip);
    }
}

#[test]
fn other_partition_tables_are_skipped() {
    let other = PartitionDescriptor { logical: true, system: false, ty: PartitionType::Other };
    assert_eq!(classify(&other, &TYPES), Decision::Skip);
}

#[test]
fn whole_disks_are_skipped_whatever_their_type() {
    for ty in [PartitionType::Gpt(TARGET), PartitionType::Gpt(ESP), PartitionType::Mbr(0x83)] {
        let disk = PartitionDescriptor { logical: false, system: false, ty };
        assert_eq!(classify(&disk, &TYPES), Decision::Skip);
    }
}

#[test]
fn marked_system_partitions_are_skipped_whatever_their_type() {
    for ty in [PartitionType::Gpt(TARGET), PartitionType::Gpt(ESP), PartitionType::Mbr(0x83)] {
        let system = PartitionDescriptor { logical: true, system: true, ty };
        assert_eq!(classify(&system, &TYPES), Decision::Skip);
    }
}

#[test]
fn first_bootable_partition_wins() {
    let disk = PartitionDescriptor { logical: false, system: false, ty: PartitionType::Other };
    let marked = PartitionDescriptor { logical: true, system: true, ty: PartitionType::Gpt(ESP) };
    let list = [disk, marked, gpt(SWAP), gpt(LINUX), gpt(TARGET), mbr(0x83)];
    assert_eq!(get_correct_block_io(&list, &TYPES), Ok(3));
    assert_eq!(get_correct_block_io(&[mbr(0x83), gpt(TARGET)], &TYPES), Ok(0));
}

#[test]
fn no_bootable_partition_is_not_found() {
    assert_eq!(get_correct_block_io(&[], &TYPES), Err(LocateError::NotFound));
    let list = [gpt(SWAP), mbr(0x82)];
    assert_eq!(get_correct_block_io(&list, &TYPES), Err(LocateError::NotFound));
}

#[test]
fn unmarked_system_partition_ends_the_search() {
    let list = [gpt(SWAP), gpt(ESP), gpt(TARGET)];
    assert_eq!(get_correct_block_io(&list, &TYPES), Err(LocateError::SystemPartition(1)));
}

#[test]
fn unmarked_system_partition_after_the_choice_is_not_looked_at() {
    let list = [gpt(TARGET), gpt(ESP)];
    assert_eq!(get_correct_block_io(&list, &TYPES), Ok(0));
}

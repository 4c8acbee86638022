use bootloader::context::BootContext;
use bootloader::handoff::{
    enter, Handoff, KernelArgs, KERNEL_ARGS_SIZE, KERNEL_PHYSICAL, PHYSICAL_MAX, PHYSICAL_OFFSET,
    STACK_PHYSICAL, STACK_SIZE, STACK_VIRTUAL,
};

#[test]
fn fixed_layout_is_the_agreed_one() {
    assert_eq!(PHYSICAL_OFFSET, 0xFFFF_8000_0000_0000);
    assert_eq!(KERNEL_PHYSICAL, 0x10_0000);
    assert_eq!(STACK_PHYSICAL, 0x8_0000);
    assert_eq!(STACK_VIRTUAL, STACK_PHYSICAL + PHYSICAL_OFFSET);
    assert_eq!(STACK_SIZE, 0x1_F000);
    assert_eq!(PHYSICAL_MAX, u64::MAX - PHYSICAL_OFFSET);
}

#[test]
fn handoff_carries_the_context() {
    let context = BootContext {
        kernel_size: 0x12_3456,
        kernel_entry: 0x10_1000,
        env_size: 77,
        rsdps_area: Some(vec![0u8; 40]),
    };
    let handoff = enter(&context, 0x7f00_1000);
    assert_eq!(
        handoff,
        Handoff {
            args: KernelArgs {
                kernel_base: 0x10_0000,
                kernel_size: 0x12_3456,
                stack_base: 0xFFFF_8000_0008_0000,
                stack_size: 0x1_F000,
                env_base: 0xFFFF_8000_0008_0000,
                env_size: 77,
                acpi_rsdps_base: 0xFFFF_8000_7f00_1000,
                acpi_rsdps_size: 40,
            },
            entry: 0x10_1000,
            stack_pointer: 0xFFFF_8000_0009_F000,
        }
    );
}

#[test]
fn handoff_without_discovery_has_an_empty_capture_at_the_offset() {
    let context = BootContext::new();
    let handoff = enter(&context, 0x1234_5000);
    assert_eq!(handoff.args.acpi_rsdps_base, PHYSICAL_OFFSET);
    assert_eq!(handoff.args.acpi_rsdps_size, 0);
    assert_eq!(handoff.args.kernel_size, 0);
    assert_eq!(handoff.entry, 0);
}

#[test]
fn handoff_reaches_the_top_of_the_address_space() {
    let mut context = BootContext::new();
    context.rsdps_area = Some(Vec::new());
    let handoff = enter(&context, PHYSICAL_MAX);
    assert_eq!(handoff.args.acpi_rsdps_base, u64::MAX);
    assert_eq!(handoff.args.acpi_rsdps_size, 0);
}

#[test]
fn argument_record_is_eight_little_endian_words() {
    let args = KernelArgs {
        kernel_base: 0x0101_0101_0101_0101,
        kernel_size: 2,
        stack_base: 0xFFFF_8000_0008_0000,
        stack_size: 4,
        env_base: 5,
        env_size: 6,
        acpi_rsdps_base: 7,
        acpi_rsdps_size: 0x0807_0605_0403_0201,
    };
    let bytes = args.to_bytes();
    assert_eq!(KERNEL_ARGS_SIZE, 64);
    assert_eq!(bytes.len(), 64);
    let words: Vec<u64> = bytes
        .chunks(8)
        .map(|chunk| u64::from_le_bytes([
            chunk[0], chunk[1], chunk[2], chunk[3], chunk[4], chunk[5], chunk[6], chunk[7],
        ]))
        .collect();
    assert_eq!(
        words,
        vec![
            0x0101_0101_0101_0101,
            2,
            0xFFFF_8000_0008_0000,
            4,
            5,
            6,
            7,
            0x0807_0605_0403_0201
        ]
    );
    assert_eq!(bytes[16..24], [0x00, 0x00, 0x08, 0x00, 0x00, 0x80, 0xff, 0xff]);
    assert_eq!(bytes[56..64], [1, 2, 3, 4, 5, 6, 7, 8]);
}

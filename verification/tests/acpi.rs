use bootloader::acpi::{
    append_record, find_acpi_table_pointers, rsdp_extent, select_acpi_table, validate_rsdp, ConfigTable,
    Invalid, RSDP_SIZE,
};
use bootloader::context::BootContext;
use bootloader::error::BootError;
use bootloader::guid::Guid;

const ACPI: Guid = Guid { data1: 0xeb9d_2d30, data2: 0x2d88, data3: 0x11d3, data4: 0x9a16_0090_273f_c14d };
const ACPI2: Guid = Guid { data1: 0x8868_e871, data2: 0xe4f1, data3: 0x11d3, data4: 0xbc22_0080_c73c_8881 };
const SMBIOS: Guid = Guid { data1: 0xeb9d_2d31, data2: 0x2d88, data3: 0x11d3, data4: 0x9a16_0090_273f_c14d };
const NIL: Guid = Guid { data1: 0, data2: 0, data3: 0, data4: 0 };

fn fix(bytes: &mut [u8], at: usize, len: usize) {
    bytes[at] = 0;
    let sum = bytes[..len].iter().fold(0u8, |sum, byte| sum.wrapping_add(*byte));
    bytes[at] = 0u8.wrapping_sub(sum);
}

fn rsdp_v1() -> Vec<u8> {
    let mut bytes = vec![0u8; 36];
    bytes[..8].copy_from_slice(b"RSD PTR ");
    bytes[9..15].copy_from_slice(b"OEMID ");
    bytes[15] = 0;
    bytes[16..20].copy_from_slice(&0x000e_0000u32.to_le_bytes());
    fix(&mut bytes, 8, 20);
    bytes
}

fn rsdp_v2(length: usize) -> Vec<u8> {
    let mut bytes = vec![0u8; length.max(36)];
    bytes[..8].copy_from_slice(b"RSD PTR ");
    bytes[9..15].copy_from_slice(b"OEMID ");
    bytes[15] = 2;
    bytes[16..20].copy_from_slice(&0x000e_0000u32.to_le_bytes());
    bytes[20..24].copy_from_slice(&(length as u32).to_le_bytes());
    bytes[24..32].copy_from_slice(&0x0000_0001_000e_0000u64.to_le_bytes());
    for (i, byte) in bytes.iter_mut().enumerate().skip(36) {
        *byte = i as u8;
    }
    fix(&mut bytes, 8, 20);
    fix(&mut bytes, 32, length);
    bytes
}

fn table(guid: Guid, data: Vec<u8>) -> ConfigTable {
    ConfigTable { guid, data }
}

fn discover(tables: &[ConfigTable]) -> (Vec<u8>, Option<BootError>) {
    let mut context = BootContext::new();
    let rejected = find_acpi_table_pointers(&mut context, tables);
    (context.rsdps_area.expect("discovery leaves a buffer"), rejected)
}

#[test]
fn first_revision_is_accepted_with_the_fixed_length() {
    assert_eq!(validate_rsdp(&rsdp_v1()), Ok(36));
    assert_eq!(RSDP_SIZE, 36);
}

#[test]
fn extended_revision_is_accepted_with_its_own_length() {
    assert_eq!(validate_rsdp(&rsdp_v2(36)), Ok(36));
    assert_eq!(validate_rsdp(&rsdp_v2(44)), Ok(44));
}

#[test]
fn bytes_after_the_structure_do_not_matter() {
    let mut bytes = rsdp_v2(36);
    bytes.extend_from_slice(&[0xaa; 20]);
    assert_eq!(validate_rsdp(&bytes), Ok(36));
    let mut bytes = rsdp_v1();
    bytes.extend_from_slice(&[0x55; 4]);
    assert_eq!(validate_rsdp(&bytes), Ok(36));
}

#[test]
fn any_corrupted_byte_of_the_first_twenty_is_rejected() {
    for intact in [rsdp_v1(), rsdp_v2(36), rsdp_v2(52)] {
        for at in 0..20 {
            for delta in [1u8, 2, 0x7f, 0x80, 0xff] {
                let mut bytes = intact.clone();
                bytes[at] = bytes[at].wrapping_add(delta);
                assert!(validate_rsdp(&bytes).is_err(), "byte {} changed by {}", at, delta);
            }
        }
    }
}

#[test]
fn corrupted_signature_is_reported_as_such() {
    let mut bytes = rsdp_v1();
    bytes[3] = b'_';
    assert_eq!(validate_rsdp(&bytes), Err(Invalid::Signature));
}

#[test]
fn corrupted_base_checksum_is_reported_as_such() {
    let mut bytes = rsdp_v1();
    bytes[12] ^= 0x10;
    assert_eq!(validate_rsdp(&bytes), Err(Invalid::Checksum));
    let mut bytes = rsdp_v1();
    bytes[8] = bytes[8].wrapping_add(1);
    assert_eq!(validate_rsdp(&bytes), Err(Invalid::Checksum));
}

#[test]
fn corrupted_extended_part_is_reported_as_such() {
    let mut bytes = rsdp_v2(36);
    bytes[25] ^= 0x01;
    assert_eq!(validate_rsdp(&bytes), Err(Invalid::ExtendedChecksum));
    let mut bytes = rsdp_v2(48);
    bytes[47] ^= 0x01;
    assert_eq!(validate_rsdp(&bytes), Err(Invalid::ExtendedChecksum));
}

#[test]
fn first_revision_ignores_the_extended_part() {
    let mut bytes = rsdp_v1();
    bytes[25] = 0x99;
    bytes[32] = 0x42;
    assert_eq!(validate_rsdp(&bytes), Ok(36));
}

#[test]
fn short_candidate_is_truncated() {
    assert_eq!(validate_rsdp(&[0u8; 10]), Err(Invalid::Truncated));
    assert_eq!(validate_rsdp(&[]), Err(Invalid::Truncated));
    assert_eq!(validate_rsdp(&rsdp_v1()[..35]), Err(Invalid::Truncated));
}

#[test]
fn extended_structure_longer_than_the_bytes_is_truncated() {
    let bytes = rsdp_v2(48);
    assert_eq!(validate_rsdp(&bytes[..47]), Err(Invalid::Truncated));
    assert_eq!(validate_rsdp(&bytes[..36]), Err(Invalid::Truncated));
}

#[test]
fn extent_is_the_fixed_size_unless_the_structure_says_more() {
    assert_eq!(rsdp_extent(&rsdp_v1()), 36);
    assert_eq!(rsdp_extent(&rsdp_v2(36)), 36);
    assert_eq!(rsdp_extent(&rsdp_v2(48)[..36]), 48);
    assert_eq!(rsdp_extent(&[0u8; 5]), 36);
    let mut small = rsdp_v2(36);
    small[20..24].copy_from_slice(&8u32.to_le_bytes());
    assert_eq!(rsdp_extent(&small), 36);
}

#[test]
fn record_is_framed_with_length_and_padding() {
    let mut area = Vec::new();
    append_record(&mut area, &[0xa1, 0xb2, 0xc3, 0xd4], 3);
    assert_eq!(area, vec![3, 0, 0, 0, 0xa1, 0xb2, 0xc3, 0]);
    append_record(&mut area, &[1, 2, 3, 4, 5], 5);
    assert_eq!(
        area,
        vec![3, 0, 0, 0, 0xa1, 0xb2, 0xc3, 0, 5, 0, 0, 0, 1, 2, 3, 4, 5, 0, 0, 0, 0, 0, 0, 0]
    );
}

#[test]
fn record_that_ends_on_a_boundary_gets_no_padding() {
    let mut area = Vec::new();
    append_record(&mut area, &[7, 7, 7, 7], 4);
    assert_eq!(area, vec![4, 0, 0, 0, 7, 7, 7, 7]);
    let mut area = Vec::new();
    append_record(&mut area, &[], 0);
    assert_eq!(area, vec![0, 0, 0, 0, 0, 0, 0, 0]);
}

#[test]
fn selection_takes_the_first_acpi_entry() {
    let tables = [table(SMBIOS, vec![]), table(ACPI2, vec![]), table(ACPI, vec![])];
    assert_eq!(select_acpi_table(&tables), Some(1));
    let tables = [table(ACPI, vec![]), table(ACPI2, vec![])];
    assert_eq!(select_acpi_table(&tables), Some(0));
}

#[test]
fn selection_finds_nothing_without_acpi_entries() {
    assert_eq!(select_acpi_table(&[]), None);
    let tables = [table(SMBIOS, vec![]), table(NIL, vec![])];
    assert_eq!(select_acpi_table(&tables), None);
}

#[test]
fn selection_tells_acpi_guids_from_their_neighbours() {
    let mut near = ACPI;
    near.data4 ^= 1;
    assert_eq!(select_acpi_table(&[table(near, vec![])]), None);
    let mut near = ACPI2;
    near.data2 ^= 0x8000;
    assert_eq!(select_acpi_table(&[table(near, vec![])]), None);
    assert_eq!(select_acpi_table(&[table(ACPI, vec![])]), Some(0));
    assert_eq!(select_acpi_table(&[table(ACPI2, vec![])]), Some(0));
}

#[test]
fn discovery_captures_the_first_acpi_entry() {
    let rsdp = rsdp_v2(36);
    let tables = [table(SMBIOS, vec![1, 2, 3]), table(ACPI2, rsdp.clone())];
    let (area, rejected) = discover(&tables);
    let mut expected = vec![36, 0, 0, 0];
    expected.extend_from_slice(&rsdp);
    assert_eq!(area, expected);
    assert_eq!(area.len() % 8, 0);
    assert_eq!(rejected, None);
}

#[test]
fn discovery_pads_the_capture_to_eight_bytes() {
    let rsdp = rsdp_v2(41);
    let (area, rejected) = discover(&[table(ACPI2, rsdp.clone())]);
    let mut expected = vec![41, 0, 0, 0];
    expected.extend_from_slice(&rsdp[..41]);
    expected.extend_from_slice(&[0, 0, 0]);
    assert_eq!(area, expected);
    assert_eq!(rejected, None);
}

#[test]
fn discovery_stops_at_the_first_acpi_entry_even_if_a_later_one_is_newer() {
    let old = rsdp_v1();
    let tables = [table(ACPI, old.clone()), table(ACPI2, rsdp_v2(36))];
    let (area, _) = discover(&tables);
    assert_eq!(&area[4..], &old[..]);
}

#[test]
fn discovery_does_not_look_past_an_invalid_first_entry() {
    let mut broken = rsdp_v1();
    broken[10] ^= 0xff;
    let tables = [table(ACPI, broken), table(ACPI2, rsdp_v2(36))];
    let (area, rejected) = discover(&tables);
    assert!(area.is_empty());
    assert_eq!(rejected, Some(BootError::InvalidAcpiStructure(Invalid::Checksum)));
}

#[test]
fn discovery_without_acpi_entries_leaves_an_empty_buffer() {
    let (area, rejected) = discover(&[table(SMBIOS, rsdp_v1())]);
    assert!(area.is_empty());
    assert_eq!(rejected, None);
    let (area, rejected) = discover(&[]);
    assert!(area.is_empty());
    assert_eq!(rejected, None);
}

#[test]
fn discovery_twice_gives_identical_buffers() {
    let tables = [table(NIL, vec![]), table(ACPI2, rsdp_v2(40)), table(ACPI, rsdp_v1())];
    let mut context = BootContext::new();
    find_acpi_table_pointers(&mut context, &tables);
    let first = context.rsdps_area.clone();
    find_acpi_table_pointers(&mut context, &tables);
    assert_eq!(context.rsdps_area, first);
    assert_eq!(first.map(|area| area.len()), Some(48));
}

#[test]
fn discovery_replaces_an_earlier_capture_and_keeps_the_rest() {
    let mut context = BootContext::new();
    context.kernel_size = 5;
    context.kernel_entry = 6;
    context.env_size = 7;
    find_acpi_table_pointers(&mut context, &[table(ACPI, rsdp_v1())]);
    assert_eq!(context.rsdps_area.as_ref().map(|area| area.len()), Some(40));
    find_acpi_table_pointers(&mut context, &[]);
    assert_eq!(context.rsdps_area, Some(Vec::new()));
    assert_eq!((context.kernel_size, context.kernel_entry, context.env_size), (5, 6, 7));
}

//! Discovery of the ACPI root pointer: picking the firmware table, checking
//! the structure, and framing it for the kernel.
//!
//! The root pointer structure, as the firmware lays it out:
//!
//! | offset | size | field                                   |
//! |-------:|-----:|-----------------------------------------|
//! |      0 |    8 | signature, `"RSD PTR "`                 |
//! |      8 |    1 | checksum of the first 20 bytes          |
//! |      9 |    6 | OEM id                                  |
//! |     15 |    1 | revision                                |
//! |     16 |    4 | address of the RSDT                     |
//! |     20 |    4 | length of the whole structure (rev. 2)  |
//! |     24 |    8 | address of the XSDT (rev. 2)            |
//! |     32 |    1 | checksum of the whole structure (rev. 2)|
//! |     33 |    3 | reserved                                |

use vstd::prelude::*;
use crate::bytes::{byte_sum, checksum, le_bytes_u32, le_u32_at, lemma_byte_sum_update,
    lemma_le_round_trip_u32, push_bytes, push_u32_le, push_zeros, read_u32_le, zeros};
use crate::context::{BootContext, BootContextView};
use crate::error::BootError;
use crate::guid::{firmware_table_kind, table_kind, Guid, TableKind};

verus! {

/// Bytes covered by the base checksum.
pub const RSDP_BASE_LEN: usize = 20;

/// Bytes of the structure with all its fields; what is captured of a
/// structure that does not report the extended revision.
pub const RSDP_SIZE: usize = 36;

/// The revision value that announces the extended fields.
pub const RSDP_EXTENDED_REVISION: u8 = 2;

/// Records in the capture buffer start on multiples of this.
pub const CAPTURE_ALIGN: usize = 8;

/// Why a candidate structure was turned down.
#[derive(Clone, Copy, Debug, PartialEq, Eq, Structural)]
pub enum Invalid {
    /// Fewer bytes are at hand than the structure needs.
    Truncated,
    /// The first eight bytes are not `"RSD PTR "`.
    Signature,
    /// The first 20 bytes do not sum to zero.
    Checksum,
    /// The extended revision is reported and the whole structure does not sum
    /// to zero.
    ExtendedChecksum,
}

/// One entry of the firmware's configuration table list, with the memory that
/// its pointer leads to.
pub struct ConfigTable {
    /// The vendor GUID of the entry.
    pub guid: Guid,
    /// The bytes found at the entry's table address. Only read for ACPI
    /// entries; see [`rsdp_extent`] for how many are needed.
    pub data: Vec<u8>,
}

/// `"RSD PTR "`
pub open spec fn rsdp_signature() -> Seq<u8> {
    seq![0x52u8, 0x53u8, 0x44u8, 0x20u8, 0x50u8, 0x54u8, 0x52u8, 0x20u8]
}

/// Whether the structure reports the extended revision.
pub open spec fn is_extended(bytes: Seq<u8>) -> bool {
    bytes[15] == RSDP_EXTENDED_REVISION
}

/// The structure's length field.
pub open spec fn reported_length(bytes: Seq<u8>) -> int {
    le_u32_at(bytes, 20)
}

/// How many bytes the structure occupies: its length field under the extended
/// revision, the fixed size otherwise.
pub open spec fn rsdp_length(bytes: Seq<u8>) -> int {
    if is_extended(bytes) {
        reported_length(bytes)
    } else {
        RSDP_SIZE as int
    }
}

/// Whether `bytes` sum to zero modulo 256.
pub open spec fn sums_to_zero(bytes: Seq<u8>) -> bool {
    byte_sum(bytes) % 256 == 0
}

/// What the check of the bytes found at a candidate address comes to.
pub open spec fn rsdp_check(bytes: Seq<u8>) -> Result<int, Invalid> {
    if bytes.len() < RSDP_SIZE {
        Err(Invalid::Truncated)
    } else if bytes.take(8) != rsdp_signature() {
        Err(Invalid::Signature)
    } else if !sums_to_zero(bytes.take(RSDP_BASE_LEN as int)) {
        Err(Invalid::Checksum)
    } else if !is_extended(bytes) {
        Ok(RSDP_SIZE as int)
    } else if reported_length(bytes) > bytes.len() {
        Err(Invalid::Truncated)
    } else if !sums_to_zero(bytes.take(reported_length(bytes))) {
        Err(Invalid::ExtendedChecksum)
    } else {
        Ok(reported_length(bytes))
    }
}

/// Whether the bytes at a candidate address are an acceptable root pointer.
pub open spec fn rsdp_valid(bytes: Seq<u8>) -> bool {
    rsdp_check(bytes) is Ok
}

/// How many bytes must be read at a candidate address before the structure
/// can be judged, going by its first [`RSDP_SIZE`] bytes.
pub open spec fn extent(header: Seq<u8>) -> int {
    if header.len() >= RSDP_SIZE && is_extended(header) && reported_length(header) > RSDP_SIZE {
        reported_length(header)
    } else {
        RSDP_SIZE as int
    }
}

fn has_signature(bytes: &[u8]) -> (found: bool)
    requires
        bytes.len() >= 8,
    ensures
        found == (bytes@.take(8) == rsdp_signature()),
{
    let found: bool = bytes[0] == 0x52 && bytes[1] == 0x53 && bytes[2] == 0x44 && bytes[3] == 0x20
        && bytes[4] == 0x50 && bytes[5] == 0x54 && bytes[6] == 0x52 && bytes[7] == 0x20;
    proof {
        let head: Seq<u8> = bytes@.take(8);
        if found {
            assert(head =~= rsdp_signature());
        } else {
            assert(head[0] == bytes@[0] && head[1] == bytes@[1] && head[2] == bytes@[2]
                && head[3] == bytes@[3] && head[4] == bytes@[4] && head[5] == bytes@[5]
                && head[6] == bytes@[6] && head[7] == bytes@[7]);
        }
    }
    found
}

/// Tells how many bytes to read at a candidate address, given its first
/// [`RSDP_SIZE`] bytes. With fewer bytes than that the answer is [`RSDP_SIZE`].
pub fn rsdp_extent(header: &[u8]) -> (count: usize)
    ensures
        count as int == extent(header@),
        count >= RSDP_SIZE,
{
    if header.len() < RSDP_SIZE || header[15] != RSDP_EXTENDED_REVISION {
        return RSDP_SIZE;
    }
    let reported: usize = read_u32_le(header, 20) as usize;
    if reported > RSDP_SIZE {
        reported
    } else {
        RSDP_SIZE
    }
}

/// Judges the bytes found at a candidate address and returns the length of
/// the structure to capture.
///
/// The signature must match and the first 20 bytes must sum to zero modulo
/// 256. A structure of the extended revision must also sum to zero over its
/// whole reported length, all of which has to be in `bytes`.
pub fn validate_rsdp(bytes: &[u8]) -> (checked: Result<usize, Invalid>)
    ensures
        checked is Ok <==> rsdp_valid(bytes@),
        match checked {
            Ok(length) => rsdp_check(bytes@) == Ok::<int, Invalid>(length as int)
                && length as int == rsdp_length(bytes@) && length <= bytes.len(),
            Err(reason) => rsdp_check(bytes@) == Err::<int, Invalid>(reason),
        },
{
    if bytes.len() < RSDP_SIZE {
        return Err(Invalid::Truncated);
    }
    if !has_signature(bytes) {
        return Err(Invalid::Signature);
    }
    if checksum(bytes, RSDP_BASE_LEN) != 0 {
        return Err(Invalid::Checksum);
    }
    if bytes[15] != RSDP_EXTENDED_REVISION {
        return Ok(RSDP_SIZE);
    }
    let length: usize = read_u32_le(bytes, 20) as usize;
    if length > bytes.len() {
        return Err(Invalid::Truncated);
    }
    if checksum(bytes, length) != 0 {
        return Err(Invalid::ExtendedChecksum);
    }
    Ok(length)
}

/// Zero bytes that bring a buffer of `len` bytes to the next record boundary.
pub open spec fn padding(len: nat) -> nat {
    ((CAPTURE_ALIGN - len % (CAPTURE_ALIGN as nat)) % (CAPTURE_ALIGN as int)) as nat
}

/// `area` with `record` appended: the record's length as four little-endian
/// bytes, the record itself, then zeros up to the next record boundary.
pub open spec fn with_record(area: Seq<u8>, record: Seq<u8>) -> Seq<u8> {
    let body = area + le_bytes_u32(record.len() as u32) + record;
    body + zeros(padding(body.len()))
}

/// A record keeps the buffer aligned: appended to a buffer that ends on a
/// record boundary it takes its length prefix, its bytes and less than
/// [`CAPTURE_ALIGN`] bytes of padding, and the buffer ends on a record
/// boundary again. What was in the buffer stays, and the record follows its
/// length prefix unchanged.
pub proof fn lemma_record_keeps_alignment(area: Seq<u8>, record: Seq<u8>)
    requires
        area.len() % (CAPTURE_ALIGN as nat) == 0,
        record.len() <= u32::MAX,
    ensures
        with_record(area, record).len() % (CAPTURE_ALIGN as nat) == 0,
        area.len() + 4 + record.len() <= with_record(area, record).len() < area.len() + 4
            + record.len() + CAPTURE_ALIGN,
        with_record(area, record).take(area.len() as int) == area,
        le_u32_at(with_record(area, record), area.len() as int) == record.len(),
        with_record(area, record).subrange(
            area.len() as int + 4,
            area.len() as int + 4 + record.len() as int,
        ) == record,
{
    lemma_le_round_trip_u32(record.len() as u32);
}

/// Appends the first `length` bytes of `bytes` to `area` as one record.
pub fn append_record(area: &mut Vec<u8>, bytes: &[u8], length: usize)
    requires
        length <= bytes.len(),
        length <= u32::MAX,
    ensures
        final(area)@ == with_record(old(area)@, bytes@.take(length as int)),
{
    push_u32_le(area, length as u32);
    push_bytes(area, bytes, length);
    let over: usize = area.len() % CAPTURE_ALIGN;
    if over != 0 {
        push_zeros(area, CAPTURE_ALIGN - over);
    }
}

/// The first entry at or after `start` whose GUID announces an ACPI root
/// pointer of either revision.
pub open spec fn first_acpi_from(tables: Seq<ConfigTable>, start: int) -> Option<int>
    decreases tables.len() - start,
{
    if start < 0 || start >= tables.len() {
        None
    } else if table_kind(tables[start].guid) != TableKind::Other {
        Some(start)
    } else {
        first_acpi_from(tables, start + 1)
    }
}

/// The first entry whose GUID announces an ACPI root pointer.
pub open spec fn first_acpi(tables: Seq<ConfigTable>) -> Option<int> {
    first_acpi_from(tables, 0)
}

/// `first_acpi_from` finds the least ACPI entry from `start` on, if there is one.
pub proof fn lemma_first_acpi_is_least(tables: Seq<ConfigTable>, start: int)
    requires
        0 <= start,
    ensures
        match first_acpi_from(tables, start) {
            Some(found) => {
                &&& start <= found < tables.len()
                &&& table_kind(tables[found].guid) != TableKind::Other
                &&& forall|i: int|
                    start <= i < found ==> table_kind(#[trigger] tables[i].guid) == TableKind::Other
            },
            None => forall|i: int|
                start <= i < tables.len() ==> table_kind(#[trigger] tables[i].guid)
                    == TableKind::Other,
        },
    decreases tables.len() - start,
{
    if start < tables.len() && table_kind(tables[start].guid) == TableKind::Other {
        lemma_first_acpi_is_least(tables, start + 1);
    }
}

/// Finds the entry to capture: the first one, in list order, whose GUID
/// announces an ACPI root pointer of either revision. Later ACPI entries are
/// never looked at.
pub fn select_acpi_table(tables: &[ConfigTable]) -> (selected: Option<usize>)
    ensures
        match selected {
            Some(found) => first_acpi(tables@) == Some(found as int) && found < tables.len(),
            None => first_acpi(tables@) is None,
        },
{
    let mut i: usize = 0;
    while i < tables.len()
        invariant
            i <= tables.len(),
            first_acpi(tables@) == first_acpi_from(tables@, i as int),
        decreases tables.len() - i,
    {
        match firmware_table_kind(&tables[i].guid) {
            TableKind::Other => {},
            _ => {
                return Some(i);
            },
        }
        i += 1;
    }
    None
}

/// The capture buffer that discovery leaves behind for `tables`: one record
/// if the first ACPI entry holds an acceptable structure, nothing otherwise.
pub open spec fn acpi_capture(tables: Seq<ConfigTable>) -> Seq<u8> {
    match first_acpi(tables) {
        Some(found) => match rsdp_check(tables[found].data@) {
            Ok(length) => with_record(Seq::empty(), tables[found].data@.take(length)),
            Err(_) => Seq::empty(),
        },
        None => Seq::empty(),
    }
}

/// The context after discovery has run on `tables`.
pub open spec fn discovered(before: BootContextView, tables: Seq<ConfigTable>) -> BootContextView {
    BootContextView { rsdps_area: Some(acpi_capture(tables)), ..before }
}

/// Runs ACPI discovery over the firmware's configuration tables and leaves
/// the capture buffer in `context`, replacing any earlier one.
///
/// Only the first ACPI entry is considered. If its structure is turned down
/// the buffer stays empty and `rejected` tells why; that does not end the
/// boot.
pub fn find_acpi_table_pointers(context: &mut BootContext, tables: &[ConfigTable]) -> (rejected:
    Option<BootError>)
    ensures
        final(context)@ == discovered(old(context)@, tables@),
        rejected == match first_acpi(tables@) {
            Some(found) => match rsdp_check(tables@[found].data@) {
                Ok(_) => None,
                Err(reason) => Some(BootError::InvalidAcpiStructure(reason)),
            },
            None => None,
        },
{
    let mut area: Vec<u8> = Vec::new();
    let mut rejected: Option<BootError> = None;
    match select_acpi_table(tables) {
        Some(found) => {
            let data: &[u8] = tables[found].data.as_slice();
            match validate_rsdp(data) {
                Ok(length) => {
                    append_record(&mut area, data, length);
                },
                Err(reason) => {
                    rejected = Some(BootError::InvalidAcpiStructure(reason));
                },
            }
        },
        None => {},
    }
    context.rsdps_area = Some(area);
    rejected
}

/// Discovery is idempotent: on an unchanged table list a second run leaves
/// exactly the buffer that the first run left, whatever was there before.
pub proof fn lemma_discovery_idempotent(before: BootContextView, tables: Seq<ConfigTable>)
    ensures
        discovered(discovered(before, tables), tables) == discovered(before, tables),
        discovered(before, tables).rsdps_area == Some(acpi_capture(tables)),
{
}

/// Where the signature is right and the bytes at hand reach as far as the
/// structure says it does, a structure is accepted exactly if its first 20
/// bytes sum to zero modulo 256 and, under the extended revision, all of its
/// bytes do.
pub proof fn lemma_accepted_iff_sums_are_zero(bytes: Seq<u8>)
    requires
        bytes.len() >= RSDP_SIZE,
        bytes.take(8) == rsdp_signature(),
        is_extended(bytes) ==> reported_length(bytes) <= bytes.len(),
    ensures
        rsdp_valid(bytes) <==> {
            &&& byte_sum(bytes.take(RSDP_BASE_LEN as int)) % 256 == 0
            &&& is_extended(bytes) ==> byte_sum(bytes.take(reported_length(bytes))) % 256 == 0
        },
        rsdp_valid(bytes) ==> rsdp_check(bytes) == Ok::<int, Invalid>(rsdp_length(bytes)),
{
}

/// A structure that was accepted is turned down once any single byte among
/// its first 20 is changed.
pub proof fn lemma_corrupted_byte_rejected(bytes: Seq<u8>, at: int, value: u8)
    requires
        rsdp_valid(bytes),
        0 <= at < RSDP_BASE_LEN,
        value != bytes[at],
    ensures
        !rsdp_valid(bytes.update(at, value)),
{
    let changed: Seq<u8> = bytes.update(at, value);
    let base: Seq<u8> = bytes.take(RSDP_BASE_LEN as int);
    assert(changed.take(RSDP_BASE_LEN as int) == base.update(at, value));
    lemma_byte_sum_update(base, at, value);
}

} // verus!

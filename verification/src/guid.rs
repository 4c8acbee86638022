//! Firmware GUIDs and the kinds of configuration table the loader cares about.

use vstd::prelude::*;

verus! {

/// A GUID as its text form groups it: `data1-data2-data3-` and then the last
/// eight bytes, held in `data4` with the first byte most significant.
#[derive(Clone, Copy, Debug, PartialEq, Eq, Structural)]
pub struct Guid {
    pub data1: u32,
    pub data2: u16,
    pub data3: u16,
    pub data4: u64,
}

/// What a configuration table's vendor GUID says the table is.
#[derive(Clone, Copy, Debug, PartialEq, Eq, Structural)]
pub enum TableKind {
    /// Root pointer of ACPI 1.0.
    Acpi,
    /// Root pointer of ACPI 2.0 and later.
    Acpi2,
    /// Anything else.
    Other,
}

/// `eb9d2d30-2d88-11d3-9a16-0090273fc14d`
pub open spec fn acpi_table_guid() -> Guid {
    Guid { data1: 0xeb9d_2d30, data2: 0x2d88, data3: 0x11d3, data4: 0x9a16_0090_273f_c14d }
}

/// `8868e871-e4f1-11d3-bc22-0080c73c8881`
pub open spec fn acpi2_table_guid() -> Guid {
    Guid { data1: 0x8868_e871, data2: 0xe4f1, data3: 0x11d3, data4: 0xbc22_0080_c73c_8881 }
}

/// The kind of table that `guid` announces.
pub open spec fn table_kind(guid: Guid) -> TableKind {
    if guid == acpi_table_guid() {
        TableKind::Acpi
    } else if guid == acpi2_table_guid() {
        TableKind::Acpi2
    } else {
        TableKind::Other
    }
}

/// Asks `uefi::guid::Guid::kind` what `guid` is and keeps the two ACPI answers.
///
/// Trusted: that `kind` answers `Acpi` for exactly the ACPI 1.0 table GUID and
/// `Acpi2` for exactly the ACPI 2.0 table GUID.
#[verifier::external_body]
#[allow(deprecated)]
pub(crate) fn firmware_table_kind(guid: &Guid) -> (kind: TableKind)
    ensures
        kind == table_kind(*guid),
{
    let raw = uefi::guid::Guid(guid.data1, guid.data2, guid.data3, guid.data4.to_be_bytes());
    match raw.kind() {
        uefi::guid::GuidKind::Acpi => TableKind::Acpi,
        uefi::guid::GuidKind::Acpi2 => TableKind::Acpi2,
        _ => TableKind::Other,
    }
}

} // verus!

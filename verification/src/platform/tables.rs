//! Discovery of the ACPI and SMBIOS tables in the firmware's
//! configuration table: a scan over (identifier, address) entries that
//! prefers the newer revision of each table and keeps the first address
//! seen for a revision. Reading the configuration table itself is firmware
//! work; the scan here takes its entries as plain values.

use vstd::prelude::*;

verus! {

/// The identifier announcing the first ACPI revision.
pub const ACPI_GUID: u128 = 0xeb9d2d30_2d88_11d3_9a16_0090273fc14d;

/// The identifier announcing the second ACPI revision.
pub const ACPI2_GUID: u128 = 0x8868e871_e4f1_11d3_bc22_0080c73c8881;

/// The identifier announcing the original SMBIOS table.
pub const SMBIOS_GUID: u128 = 0xeb9d2d31_2d88_11d3_9a16_0090273fc14d;

/// The identifier announcing the 64-bit SMBIOS table.
pub const SMBIOS3_GUID: u128 = 0xf2fd1544_9794_4a2c_992e_e5bbcf20e394;

/// One firmware configuration-table entry: what it announces, and where
/// the announced table sits.
#[derive(Clone, Copy, PartialEq, Eq, Structural, Debug)]
pub struct ConfigTableEntry {
    pub guid: u128,
    pub address: usize,
}

/// The version an entry contributes to the ACPI search, or zero.
pub open spec fn acpi_version_of(guid: u128) -> u8 {
    if guid == ACPI_GUID {
        1u8
    } else if guid == ACPI2_GUID {
        2u8
    } else {
        0u8
    }
}

/// The version an entry contributes to the SMBIOS search, or zero.
pub open spec fn smbios_version_of(guid: u128) -> u8 {
    if guid == SMBIOS_GUID {
        1u8
    } else if guid == SMBIOS3_GUID {
        3u8
    } else {
        0u8
    }
}

/// One scan step: keep the best find so far unless this entry announces a
/// strictly newer revision.
pub open spec fn scan_step(
    best: Option<(u8, usize)>,
    version: u8,
    address: usize,
) -> Option<(u8, usize)> {
    let held: u8 = match best {
        Some(found) => found.0,
        None => 0u8,
    };
    if version > held {
        Some((version, address))
    } else {
        best
    }
}

/// What scanning all entries finds for a version function: the newest
/// announced revision, at the first address that announced it.
pub open spec fn scanned(
    entries: Seq<ConfigTableEntry>,
    acpi: bool,
) -> Option<(u8, usize)>
    decreases entries.len(),
{
    if entries.len() == 0 {
        None
    } else {
        let prior = scanned(entries.drop_last(), acpi);
        let e = entries.last();
        let version = if acpi {
            acpi_version_of(e.guid)
        } else {
            smbios_version_of(e.guid)
        };
        scan_step(prior, version, e.address)
    }
}

/// The newest ACPI root table announced by the configuration table: its
/// revision and address, preferring the second revision, keeping the
/// first address announced per revision.
pub fn get_acpi(entries: &Vec<ConfigTableEntry>) -> (r: Option<(u8, usize)>)
    ensures
        r == scanned(entries@, true),
{
    scan(entries, true)
}

/// The newest SMBIOS entry point announced by the configuration table,
/// preferring the 64-bit table.
pub fn get_smbios(entries: &Vec<ConfigTableEntry>) -> (r: Option<(u8, usize)>)
    ensures
        r == scanned(entries@, false),
{
    scan(entries, false)
}

/// The single pass both searches share.
fn scan(entries: &Vec<ConfigTableEntry>, acpi: bool) -> (r: Option<(u8, usize)>)
    ensures
        r == scanned(entries@, acpi),
{
    let mut best: Option<(u8, usize)> = None;
    let n = entries.len();
    let mut i: usize = 0;
    while i < n
        invariant
            n == entries@.len(),
            i <= n,
            best == scanned(entries@.take(i as int), acpi),
        decreases n - i,
    {
        let entry = entries[i];
        let version: u8 = if acpi {
            if entry.guid == ACPI_GUID {
                1
            } else if entry.guid == ACPI2_GUID {
                2
            } else {
                0
            }
        } else {
            if entry.guid == SMBIOS_GUID {
                1
            } else if entry.guid == SMBIOS3_GUID {
                3
            } else {
                0
            }
        };
        let held: u8 = match best {
            Some(found) => found.0,
            None => 0,
        };
        if version > held {
            best = Some((version, entry.address));
        }
        proof {
            assert(entries@.take(i + 1).drop_last() =~= entries@.take(i as int));
            assert(entries@.take(i + 1).last() == entries@[i as int]);
        }
        i = i + 1;
    }
    proof {
        assert(entries@.take(n as int) =~= entries@);
    }
    best
}

} // verus!

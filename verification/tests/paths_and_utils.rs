use taperipper::paths::{
    contrib_dir, edk2_dir, efi_boot_dir, efi_root, ovmf_dir, ovmf_esp, ovmf_file_code,
    ovmf_file_vars, ovmf_gdb_prelude, ovmf_img_dir, project_root, target_debug, target_dir,
    target_dir_for_type, target_release, uefi_vars,
};
use taperipper::platform::output::{select_mode, ModeChoice};
use taperipper::platform::tables::{
    get_acpi, get_smbios, ConfigTableEntry, ACPI2_GUID, ACPI_GUID, SMBIOS_GUID,
};
use taperipper::utils::{from_hex, ParseHexError, TargetType};

#[test]
fn project_root_is_the_manifest_dir_parent() {
    assert_eq!(project_root("/src/tree/xtask"), "/src/tree");
    assert_eq!(project_root("relative/xtask"), "relative");
    assert_eq!(project_root("bare"), "");
}

#[test]
fn well_known_paths_hang_off_the_root() {
    let root = "/p";
    assert_eq!(target_dir(root), "/p/target");
    assert_eq!(contrib_dir(root), "/p/contrib");
    assert_eq!(edk2_dir(root), "/p/target/.edk2.git");
    assert_eq!(ovmf_dir(root), "/p/target/.ovmf");
    assert_eq!(ovmf_gdb_prelude(root), "/p/target/.ovmf/prelude.gdb");
    assert_eq!(ovmf_file_code(root), "/p/target/.ovmf/OVMF_CODE.4m.fd");
    assert_eq!(ovmf_file_vars(root), "/p/target/.ovmf/OVMF_VARS.4m.fd");
    assert_eq!(ovmf_esp(root), "/p/target/.ovmf/esp");
    assert_eq!(ovmf_img_dir(root), "/p/target/.ovmf/efi");
    assert_eq!(efi_root(root), "/p/target/esp");
    assert_eq!(efi_boot_dir(root), "/p/target/esp/EFI/boot");
    assert_eq!(target_debug(root), "/p/target/x86_64-unknown-uefi/debug");
    assert_eq!(target_release(root), "/p/target/x86_64-unknown-uefi/release");
    assert_eq!(uefi_vars(root), "/p/target/uefi-vars.json");
}

#[test]
fn target_dir_follows_the_build_flavor() {
    assert_eq!(
        target_dir_for_type("/p", TargetType::Debug),
        "/p/target/x86_64-unknown-uefi/debug"
    );
    assert_eq!(
        target_dir_for_type("/p", TargetType::Release),
        "/p/target/x86_64-unknown-uefi/release"
    );
}

#[test]
fn from_hex_parses_with_and_without_prefix() {
    assert_eq!(from_hex("0x1A"), Ok(26));
    assert_eq!(from_hex("0X1a"), Ok(26));
    assert_eq!(from_hex("ff"), Ok(255));
    assert_eq!(from_hex("0"), Ok(0));
    assert_eq!(from_hex("0xFFFFFFFFFFFFFFFF"), Ok(u64::MAX));
}

#[test]
fn from_hex_reports_each_failure() {
    assert_eq!(from_hex(""), Err(ParseHexError::Empty));
    assert_eq!(from_hex("0x"), Err(ParseHexError::Empty));
    assert_eq!(from_hex("zz"), Err(ParseHexError::InvalidDigit));
    assert_eq!(from_hex("0x1g"), Err(ParseHexError::InvalidDigit));
    assert_eq!(from_hex("0x10000000000000000"), Err(ParseHexError::Overflow));
}

#[test]
fn the_config_table_scan_prefers_newer_revisions() {
    let entries = vec![
        ConfigTableEntry { guid: 0x1234, address: 0x10 },
        ConfigTableEntry { guid: ACPI_GUID, address: 0x20 },
        ConfigTableEntry { guid: ACPI2_GUID, address: 0x30 },
        ConfigTableEntry { guid: ACPI2_GUID, address: 0x40 },
        ConfigTableEntry { guid: SMBIOS_GUID, address: 0x50 },
    ];
    // the second ACPI revision wins, at the first address announcing it
    assert_eq!(get_acpi(&entries), Some((2, 0x30)));
    // no 64-bit SMBIOS table: the original one is reported
    assert_eq!(get_smbios(&entries), Some((1, 0x50)));
    // nothing announced, nothing found
    assert_eq!(get_acpi(&vec![ConfigTableEntry { guid: 1, address: 2 }]), None);
}

#[test]
fn mode_selection_takes_the_largest_viable_mode() {
    let offered = vec![
        ModeChoice { width: 640, height: 480, usable: true },
        ModeChoice { width: 4096, height: 2160, usable: true },
        ModeChoice { width: 1920, height: 1080, usable: true },
        ModeChoice { width: 1920, height: 1200, usable: false },
        ModeChoice { width: 1280, height: 1024, usable: true },
    ];
    // the 4K mode is over budget and the 1920x1200 one is unusable
    assert_eq!(select_mode(&offered, 1920, 1080), Some(2));
    // nothing fits a tiny budget
    assert_eq!(select_mode(&offered, 100, 100), None);
    // among equal resolutions the latest offer wins
    let twins = vec![
        ModeChoice { width: 800, height: 600, usable: true },
        ModeChoice { width: 800, height: 600, usable: true },
    ];
    assert_eq!(select_mode(&twins, 1920, 1080), Some(1));
}

use rs_cpu::motherboard::{guess_chipset, MotherboardInfo};

#[test]
fn test_guess_chipset_amd() {
    let chipset = guess_chipset("ROG STRIX B650E-F GAMING WIFI", "ASUS");
    assert!(chipset.contains("B650E"));
}

#[test]
fn test_guess_chipset_intel() {
    let chipset = guess_chipset("MPG Z790 CARBON WIFI", "MSI");
    assert!(chipset.contains("Z790"));
}

#[test]
fn test_motherboard_default() {
    let mb = MotherboardInfo::default();
    assert_eq!(mb.manufacturer, "Unknown Manufacturer");
}

use rs_cpu::motherboard::{BaseboardStrings, BiosStrings, SmbiosTables, SmbiosVersion, SystemStrings};

fn board(m: &str, p: &str) -> BaseboardStrings {
    BaseboardStrings { manufacturer: m.to_string(), product: p.to_string(), version: "Rev 1.xx".to_string(), serial_number: "Undefined".to_string() }
}

#[test]
fn motherboard_from_tables() {
    let tables = SmbiosTables {
        version: Some(SmbiosVersion { major: 3, minor: 6, revision: 0 }),
        baseboards: vec![board("ASUSTeK COMPUTER INC.", "ROG STRIX B650E-F GAMING WIFI"), board("   ", "")],
        systems: vec![SystemStrings {
            manufacturer: "ASUS".to_string(),
            sku_number: "SKU".to_string(),
            product_name: "System Product Name".to_string(),
        }],
        bioses: vec![BiosStrings { vendor: "AMI".to_string(), version: "1.2".to_string(), release_date: "".to_string() }],
    };
    let mb = MotherboardInfo::from_smbios(&Some(tables));
    assert_eq!(mb.manufacturer, "ASUSTeK COMPUTER INC.");
    assert_eq!(mb.model, "ROG STRIX B650E-F GAMING WIFI");
    assert_eq!(mb.version, "Rev 1.xx");
    assert_eq!(mb.serial_number, "Default string");
    assert_eq!(mb.system_manufacturer, "ASUS");
    assert_eq!(mb.bios_vendor, "AMI");
    assert_eq!(mb.bios_version, "1.2");
    assert_eq!(mb.bios_date, "01/01/2024");
    assert_eq!(mb.smbios_version, "3.6.0");
    assert!(mb.chipset.contains("B650E"));

    let none = MotherboardInfo::from_smbios(&None);
    assert_eq!(none.model, "Base Board Model");
    assert_eq!(none.smbios_version, "3.5");

    let later_wins = SmbiosTables {
        version: None,
        baseboards: vec![board("A", "MPG Z790 CARBON WIFI"), board("B", "")],
        systems: Vec::new(),
        bioses: Vec::new(),
    };
    let mb = MotherboardInfo::from_smbios(&Some(later_wins));
    assert_eq!(mb.manufacturer, "B");
    assert_eq!(mb.model, "MPG Z790 CARBON WIFI");
    assert!(mb.chipset.contains("Z790"));

    let from_system = SmbiosTables {
        version: None,
        baseboards: Vec::new(),
        systems: vec![SystemStrings { manufacturer: "".to_string(), sku_number: "".to_string(), product_name: "OptiPlex 7090".to_string() }],
        bioses: Vec::new(),
    };
    assert_eq!(MotherboardInfo::from_smbios(&Some(from_system)).model, "OptiPlex 7090");
}

#[test]
fn chipset_from_lower_case_model() {
    assert!(guess_chipset("rog strix x870e-e gaming wifi", "asus").contains("X870E"));
    assert!(guess_chipset("pro z790-p", "msi").contains("Z790"));
}

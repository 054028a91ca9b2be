use carbide::bmc_attrs::HwType;
use carbide::boot_order::BootOptionFacts;
use carbide::system_model::{
    boot_order_model, capture_uefi_mac, oob_mac_text, pcie_device_to_model, Health, PcieDeviceFacts, ResourceState,
    ResourceStatus,
};

fn opt(id: &str, reference: &str, display: Option<&str>, path: Option<&str>) -> BootOptionFacts {
    BootOptionFacts {
        id: id.to_string(),
        name: "Boot Option".to_string(),
        display_name: display.map(|d| d.to_string()),
        uefi_device_path: path.map(|p| p.to_string()),
        boot_reference: reference.to_string(),
        related_items: vec![],
    }
}

#[test]
fn boot_order_lists_referred_options_in_order() {
    let opts = vec![opt("B1", "Boot0001", Some("Disk"), None), opt("B2", "Boot0002", None, Some("HD(1)"))];
    let order = vec!["Boot0002".to_string(), "Boot0009".to_string(), "Boot0001".to_string()];
    let model = boot_order_model(&order, &opts, &vec![Some(true), None]);
    assert_eq!(model.len(), 2);
    assert_eq!(model[0].id, "B2");
    assert_eq!(model[0].display_name, "");
    assert_eq!(model[0].uefi_device_path.as_deref(), Some("HD(1)"));
    assert_eq!(model[0].boot_option_enabled, None);
    assert_eq!(model[1].id, "B1");
    assert_eq!(model[1].display_name, "Disk");
    assert_eq!(model[1].boot_option_enabled, Some(true));
}

#[test]
fn oob_mac_comes_from_the_oob_boot_option() {
    let opts = vec![
        opt("B1", "Boot0001", Some("NET-NIC-IPV4"), Some("MAC(AAAAAAAAAAAA,0x1)/IPv4()")),
        opt("B2", "Boot0002", Some("NET-OOB-IPV4"), Some("PciRoot(0x0)/MAC(B83FD2B5A27C,0x1)/IPv4(0.0.0.0)")),
    ];
    assert_eq!(oob_mac_text(&opts).as_deref(), Some("B83FD2B5A27C"));
    let none = vec![opt("B2", "Boot0002", Some("NET-OOB-IPV4"), Some("PciRoot(0x0)/IPv4(0.0.0.0)"))];
    assert_eq!(oob_mac_text(&none), None);
}

fn device(serial: &str, state: Option<ResourceState>) -> PcieDeviceFacts {
    PcieDeviceFacts {
        id: "GPU_0".to_string(),
        name: "GPU".to_string(),
        description: None,
        firmware_version: Some("1.0".to_string()),
        manufacturer: Some("NVIDIA".to_string()),
        part_number: None,
        serial_number: Some(serial.to_string()),
        status: Some(ResourceStatus { health: Some(Health::Okay), health_rollup: None, state }),
    }
}

#[test]
fn pcie_devices_are_reported_when_enabled() {
    let m = pcie_device_to_model(Some(HwType::Hpe), &device("  SN1 ", Some(ResourceState::Enabled))).unwrap();
    assert_eq!(m.serial_number.as_deref(), Some("SN1"));
    assert_eq!(m.id.as_deref(), Some("GPU_0"));
    let status = m.status.unwrap();
    assert_eq!(status.health.as_deref(), Some("OK"));
    assert_eq!(status.state, "Enabled");
    let m = pcie_device_to_model(Some(HwType::Dell), &device("  SN1 ", None)).unwrap();
    assert_eq!(m.serial_number.as_deref(), Some("  SN1 "));
    assert_eq!(m.status.unwrap().state, "");
    assert!(pcie_device_to_model(None, &device("SN", Some(ResourceState::Disabled))).is_none());
    let mut anonymous = device("SN", None);
    anonymous.manufacturer = None;
    assert!(pcie_device_to_model(None, &anonymous).is_none());
}

#[test]
fn uefi_mac_capture_takes_the_first_complete_mac() {
    assert_eq!(
        capture_uefi_mac("PciRoot(0x0)/Pci(0x1,0x0)/MAC(B83FD2B5A27C,0x1)/IPv4(0.0.0.0)").as_deref(),
        Some("B83FD2B5A27C")
    );
    assert_eq!(capture_uefi_mac("MAC(,0x1)/MAC(ab12,0x1)").as_deref(), Some("ab12"));
    assert_eq!(capture_uefi_mac("MAC(ab:12,0x1)").as_deref(), None);
    assert_eq!(capture_uefi_mac("MAC(ab12)").as_deref(), None);
    assert_eq!(capture_uefi_mac("MAC(ab12").as_deref(), None);
    assert_eq!(capture_uefi_mac("").as_deref(), None);
    assert_eq!(capture_uefi_mac("MMAC(00ff,").as_deref(), Some("00ff"));
}

#[test]
fn hpe_serials_lose_unicode_white_space_at_both_ends() {
    let m = pcie_device_to_model(Some(HwType::Hpe), &device("\u{a0}\tS N1\u{3000}\n", None)).unwrap();
    assert_eq!(m.serial_number.as_deref(), Some("S N1"));
    let m = pcie_device_to_model(Some(HwType::Hpe), &device(" \u{2028} ", None)).unwrap();
    assert_eq!(m.serial_number.as_deref(), Some(""));
}

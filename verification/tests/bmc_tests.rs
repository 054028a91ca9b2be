use carbide::bmc_attrs::{AttrValue, Attributes, ExploreError, HwType};
use carbide::bmc_boards::{BiancaBoard, BoardIndex, IoBoard};
use carbide::bmc_gb200::{Bluefield3, FirmwareVersions, Mode, WiwynnGB200Nvl};
use carbide::bmc_identity::{dpu_mode, hw_type, BluefieldMode, IdentityFacts, NicMode};
use carbide::bmc_lockdown::{
    ami_lockdown, dell_lockdown, hpe_lockdown, lenovo_ami_lockdown, lenovo_lockdown, lockdown_status,
    supermicro_lockdown, viking_lockdown, AmiConfigBmc, EthInterfaceFacts, FpMode, FwRollbackState,
    InternalLockdownStatus, KcsState, LenovoFacts, LockdownFacts, LockdownStatus, PortSwitchingTo,
    SupermicroPrivilege,
};
use carbide::bmc_mock::{bmc_vendor_to_udev_dmi, check_power_command, BmcVendor, power_refusal_message, HostHardwareType, PowerRefusal, PowerStateView, SystemPowerControl};
use carbide::bmc_power_shelf::LiteOnPowerShelf;
use carbide::bmc_redfish::{collection, manager_collection, manager_resource, resource};
use carbide::boot_order::{compare_boot_options, mac_digits, uefi_tree_child, BootOptionFacts};
use carbide::machine_setup::{bios_attr_eq, verify_bios_attr, BiosAttr, BiosAttrValue};
use carbide::setup_status::{
    check_boot_by_uefi_prefix, key_prefix_of, lenovo_gb300_expected_bios, machine_setup_status, secure_boot_status,
    NetworkFunctionFacts, SecureBootCurrentBootType, SecureBootFacts, SetupFacts,
};

fn attrs(pairs: Vec<(&str, AttrValue)>) -> Attributes {
    Attributes { entries: pairs.into_iter().map(|(k, v)| (k.to_string(), v)).collect() }
}

fn s(v: &str) -> AttrValue {
    AttrValue::Str(v.to_string())
}

fn status_of(r: Result<LockdownStatus, ExploreError>) -> (InternalLockdownStatus, String) {
    let l = r.expect("lockdown status");
    (l.status, l.message)
}

fn not_provided(r: Result<LockdownStatus, ExploreError>) -> String {
    match r {
        Err(ExploreError::BmcNotProvided(w)) => w,
        _ => panic!("expected a missing resource"),
    }
}

#[test]
fn viking_lockdown_reads_kcs_and_redfish_settings() {
    let bios = Some(attrs(vec![("KcsInterfaceDisable", s("Deny All")), ("RedfishEnable", s("Disabled"))]));
    assert_eq!(
        status_of(viking_lockdown(&bios)),
        (InternalLockdownStatus::Enabled, "ipmi_kcs_disable=Deny All, redfish_enable=Disabled.".to_string())
    );
    let bios = Some(attrs(vec![("KcsInterfaceDisable", s("Allow All")), ("RedfishEnable", s("Enabled"))]));
    assert_eq!(status_of(viking_lockdown(&bios)).0, InternalLockdownStatus::Disabled);
    let bios = Some(attrs(vec![("RedfishEnable", s("Enabled"))]));
    assert_eq!(
        status_of(viking_lockdown(&bios)),
        (InternalLockdownStatus::Partial, "redfish_enable=Enabled.".to_string())
    );
    let bios = Some(attrs(vec![]));
    assert_eq!(status_of(viking_lockdown(&bios)), (InternalLockdownStatus::Disabled, ".".to_string()));
    assert_eq!(not_provided(viking_lockdown(&None)), "bios");
}

#[test]
fn ami_lockdown_needs_both_settings() {
    let bios = Some(attrs(vec![("KCSACP", s("Deny All")), ("USB000", s("Disabled"))]));
    assert_eq!(
        status_of(ami_lockdown(&bios, &Some(vec![Some(false)]))),
        (
            InternalLockdownStatus::Enabled,
            "kcsacp: Some(\"Deny All\"); usb000: Some(\"Disabled\"); host_interfaces: false".to_string()
        )
    );
    assert_eq!(
        status_of(ami_lockdown(&bios, &Some(vec![Some(false), None]))).0,
        InternalLockdownStatus::Partial
    );
    let partial = Some(attrs(vec![("KCSACP", s("Deny All"))]));
    match ami_lockdown(&partial, &Some(vec![])) {
        Err(ExploreError::InvalidValue(m)) => assert_eq!(
            m,
            "AMI lockdown status: kcsacp: Some(\"Deny All\"); usb000: None; host_interfaces: false"
        ),
        _ => panic!("expected an invalid value"),
    }
    assert_eq!(not_provided(ami_lockdown(&bios, &None)), "host interfaces");
}

#[test]
fn dell_lockdown_reads_idrac_attributes() {
    let a = Some(attrs(vec![("Lockdown.1.SystemLockdown", s("Enabled")), ("Racadm.1.Enable", s("Disabled"))]));
    assert_eq!(
        status_of(dell_lockdown(&a)),
        (InternalLockdownStatus::Enabled, "BMC: system_lockdown=Enabled, racadm=Disabled.".to_string())
    );
    let a = Some(attrs(vec![("Lockdown.1.SystemLockdown", s("Enabled"))]));
    assert_eq!(not_provided(dell_lockdown(&a)), "Dell OEM Attributes: Racadm");
    assert_eq!(not_provided(dell_lockdown(&None)), "Dell OEM Attributes");
}

#[test]
fn lenovo_ami_lockdown_lists_reported_switches() {
    let cfg = AmiConfigBmc {
        lockout_host_control: Some(true),
        lockout_bios_variable_write_mode: None,
        lockdown_bios_settings_change: Some(false),
        lockdown_bios_upgrade_downgrade: None,
    };
    assert_eq!(
        status_of(lenovo_ami_lockdown(&Some(cfg))),
        (
            InternalLockdownStatus::Partial,
            "LockoutHostControl=Enable, LockdownBiosSettingsChange=Disable".to_string()
        )
    );
    let none = AmiConfigBmc {
        lockout_host_control: None,
        lockout_bios_variable_write_mode: None,
        lockdown_bios_settings_change: None,
        lockdown_bios_upgrade_downgrade: None,
    };
    assert_eq!(status_of(lenovo_ami_lockdown(&Some(none))), (InternalLockdownStatus::Enabled, String::new()));
    assert_eq!(not_provided(lenovo_ami_lockdown(&None)), "AMI Manager ConfigBMC");
}

fn eth(id: &str, enabled: Option<bool>) -> EthInterfaceFacts {
    EthInterfaceFacts { id: id.to_string(), interface_enabled: enabled, mac_address: None, uefi_device_path: None }
}

#[test]
fn lenovo_lockdown_reads_xcc_settings() {
    let f = LenovoFacts {
        manager_oem: Some(Some(KcsState::Disabled)),
        security_service: Some(Some(FwRollbackState::Disabled)),
        manager_eth_interfaces: vec![eth("eth0", Some(true)), eth("ToHost", Some(false))],
        system_oem: Some((Some(FpMode::Server), Some(PortSwitchingTo::Bmc))),
    };
    assert_eq!(
        status_of(lenovo_lockdown(&f)),
        (
            InternalLockdownStatus::Enabled,
            "kcs=false, firmware_rollback=Disabled, ethernet_over_usb=false, front_panel_usb=Server/Bmc".to_string()
        )
    );
    let mut g = f.clone();
    g.manager_eth_interfaces = vec![eth("ToHost", None)];
    assert_eq!(not_provided(lenovo_lockdown(&g)), "Lenovo manager ethernet interfaces: enabled property");
}

#[test]
fn supermicro_lockdown_depends_on_model() {
    assert_eq!(
        status_of(supermicro_lockdown(&Some(vec![Some(false)]), Some(SupermicroPrivilege::Callback), Some(true), &None)),
        (
            InternalLockdownStatus::Enabled,
            "SysLockdownEnabled=true, kcs_privilege=Some(\n    Callback,\n), host_interface_enabled=false".to_string()
        )
    );
    let grace = Some("ARS-121L-DNR".to_string());
    assert_eq!(
        status_of(supermicro_lockdown(&Some(vec![Some(true)]), None, Some(true), &grace)).0,
        InternalLockdownStatus::Enabled
    );
    assert_eq!(
        status_of(supermicro_lockdown(&Some(vec![Some(true)]), None, Some(false), &None)).0,
        InternalLockdownStatus::Disabled
    );
    assert_eq!(not_provided(supermicro_lockdown(&Some(vec![]), None, None, &None)), "Supermicro lockdown status");
}

#[test]
fn hpe_lockdown_reads_usb_boot_and_virtual_nic() {
    let bios = Some(attrs(vec![("UsbBoot", s("Disabled"))]));
    assert_eq!(
        status_of(hpe_lockdown(&bios, Some(false))),
        (InternalLockdownStatus::Enabled, "usb_boot=Disabled, virtual_nic_enabled=false".to_string())
    );
    assert_eq!(
        status_of(hpe_lockdown(&Some(attrs(vec![])), Some(true))),
        (InternalLockdownStatus::Partial, "usb_boot=Unknown, virtual_nic_enabled=true".to_string())
    );
}

fn empty_lockdown_facts() -> LockdownFacts {
    LockdownFacts {
        bios: None,
        host_interfaces: None,
        dell_attributes: None,
        ami_config_bmc: None,
        lenovo: LenovoFacts {
            manager_oem: None,
            security_service: None,
            manager_eth_interfaces: vec![],
            system_oem: None,
        },
        supermicro_kcs_privilege: None,
        supermicro_sys_lockdown: None,
        system_model: None,
        hpe_virtual_nic_enabled: None,
    }
}

#[test]
fn lockdown_status_dispatches_by_family() {
    let f = empty_lockdown_facts();
    assert!(matches!(lockdown_status(HwType::Bluefield, &f), Ok(None)));
    assert!(matches!(lockdown_status(HwType::Gb200, &f), Ok(None)));
    assert!(matches!(lockdown_status(HwType::Dell, &f), Err(ExploreError::BmcNotProvided(_))));
    let mut g = empty_lockdown_facts();
    g.hpe_virtual_nic_enabled = Some(true);
    g.bios = Some(attrs(vec![("UsbBoot", s("Enabled"))]));
    match lockdown_status(HwType::Hpe, &g) {
        Ok(Some(l)) => assert_eq!(l.status, InternalLockdownStatus::Disabled),
        _ => panic!("expected a status"),
    }
}

#[test]
fn bios_attributes_are_checked_against_expected_values() {
    let bios = Some(attrs(vec![
        ("LEM0001", AttrValue::Int(3)),
        ("PCIS007", s("PCIS007Disabled")),
        ("Flag", AttrValue::Bool(true)),
        ("Mode", s("B")),
    ]));
    assert!(verify_bios_attr(&bios, "LEM0001", &BiosAttrValue::Int(3)).is_none());
    let d = verify_bios_attr(&bios, "PCIS007", &BiosAttrValue::Str("PCIS007Enabled".to_string())).unwrap();
    assert_eq!((d.key.as_str(), d.expected.as_str(), d.actual.as_str()), ("PCIS007", "PCIS007Enabled", "PCIS007Disabled"));
    let d = verify_bios_attr(&bios, "LEM0001", &BiosAttrValue::Int(-5)).unwrap();
    assert_eq!((d.expected.as_str(), d.actual.as_str()), ("-5", "3"));
    let d = verify_bios_attr(&bios, "Flag", &BiosAttrValue::Str("x".to_string())).unwrap();
    assert_eq!(d.actual, "true");
    let any = BiosAttrValue::AnyStr(vec!["A".to_string(), "B".to_string()]);
    assert!(verify_bios_attr(&bios, "Mode", &any).is_none());
    let any = BiosAttrValue::AnyStr(vec!["A".to_string(), "C".to_string()]);
    assert_eq!(verify_bios_attr(&bios, "Mode", &any).unwrap().expected, "A or C");
    assert!(verify_bios_attr(&bios, "Missing", &BiosAttrValue::Bool(true)).is_none());
    assert!(verify_bios_attr(&None, "LEM0001", &BiosAttrValue::Int(1)).is_none());
    let expected = BiosAttr { key: "Flag".to_string(), value: BiosAttrValue::Bool(false) };
    assert_eq!(bios_attr_eq(&bios, &expected), Some(false));
    assert_eq!(bios_attr_eq(&None, &expected), None);
}

fn opt(id: &str, display: Option<&str>, path: Option<&str>) -> BootOptionFacts {
    BootOptionFacts {
        id: id.to_string(),
        name: "Boot Option".to_string(),
        display_name: display.map(|d| d.to_string()),
        uefi_device_path: path.map(|p| p.to_string()),
        boot_reference: id.to_string(),
        related_items: vec![],
    }
}

fn setup_facts(opts: Vec<BootOptionFacts>, order: Vec<&str>) -> SetupFacts {
    SetupFacts {
        bios: None,
        boot_options: opts,
        boot_order: Some(order.into_iter().map(|o| o.to_string()).collect()),
        system_eth_interfaces: vec![],
        dell_attributes: None,
        adapter_functions: vec![],
        secure_boot: None,
    }
}

#[test]
fn boot_options_compare_by_id() {
    let opts = vec![opt("Boot0001", Some("Disk"), None), opt("Boot0002", None, None)];
    assert!(compare_boot_options(&opts, Some(0), Some(0)).is_none());
    let d = compare_boot_options(&opts, Some(1), Some(0)).unwrap();
    assert_eq!((d.key.as_str(), d.expected.as_str(), d.actual.as_str()), ("boot_first", "Boot0002", "Disk"));
    let d = compare_boot_options(&opts, None, None).unwrap();
    assert_eq!((d.expected.as_str(), d.actual.as_str()), ("Not found", "Not found"));
}

#[test]
fn uefi_paths_match_under_hpe_prefix() {
    assert!(uefi_tree_child("PciRoot(0x0)/Pci(0x10,0x0)", "PciRoot(0x0)/Pci(0x10,0x0)/MAC(5CFF35FE04BC,0x1)/IPv4(0.0.0.0)/Uri()"));
    assert!(uefi_tree_child("PciRoot(0x3)/Pci(0x10,0x0)", "Acpi(0x00168E09,0x3)/Pci(0x10,0x0)/Pci(0x0,0x0)"));
    assert!(!uefi_tree_child("PciRoot(0x2)/Pci(0x10,0x0)", "Acpi(0x00168E09,0x3)/Pci(0x10,0x0)"));
    assert!(!uefi_tree_child("PciRoot(0x0)/Pci(0x11,0x0)", "PciRoot(0x0)/Pci(0x10,0x0)/MAC(1)"));
}

#[test]
fn mac_digits_are_upper_case_pairs() {
    let mac = [0x80, 0xfa, 0x5b, 0x41, 0x10, 0x6b];
    assert_eq!(mac_digits(&mac, ":").into_iter().collect::<String>(), "80:FA:5B:41:10:6B");
    assert_eq!(mac_digits(&mac, "").into_iter().collect::<String>(), "80FA5B41106B");
}

#[test]
fn boot_by_uefi_prefix_uses_the_boot_interface_path() {
    let mut f = setup_facts(
        vec![
            opt("Boot0001", Some("Disk"), Some("HD(1)")),
            opt("Boot0002", Some("HTTP"), Some("PciRoot(0x0)/Pci(0x10,0x0)/MAC(5CFF35FE04BC,0x1)/IPv4(0.0.0.0)/Uri()")),
        ],
        vec!["Boot0001", "Boot0002"],
    );
    f.system_eth_interfaces = vec![EthInterfaceFacts {
        id: "NIC1".to_string(),
        interface_enabled: Some(true),
        mac_address: Some("5c:ff:35:fe:04:bc".to_string()),
        uefi_device_path: Some("PciRoot(0x0)/Pci(0x10,0x0)".to_string()),
    }];
    let mac = [0x5c, 0xff, 0x35, 0xfe, 0x04, 0xbc];
    let d = check_boot_by_uefi_prefix(&f, &mac).unwrap();
    assert_eq!((d.expected.as_str(), d.actual.as_str()), ("HTTP", "Disk"));
    f.boot_order = Some(vec!["Boot0002".to_string()]);
    assert!(check_boot_by_uefi_prefix(&f, &mac).is_none());
    let other = [0x5c, 0xff, 0x35, 0xfe, 0x04, 0xbd];
    assert_eq!(check_boot_by_uefi_prefix(&f, &other).unwrap().expected, "Not found");
}

#[test]
fn setup_status_reports_lockdown_and_bios_differences() {
    let mut f = setup_facts(vec![opt("Boot0001", Some("Network"), None)], vec!["Boot0001"]);
    f.bios = Some(attrs(vec![("LEM0001", AttrValue::Int(1))]));
    let expected = vec![BiosAttr { key: "LEM0001".to_string(), value: BiosAttrValue::Int(3) }];
    let lockdown = Some(LockdownStatus { status: InternalLockdownStatus::Partial, message: String::new() });
    let st = machine_setup_status(HwType::Bluefield, &f, &lockdown, &None, &expected);
    assert!(!st.is_done);
    let got: Vec<(String, String, String)> =
        st.diffs.iter().map(|d| (d.key.clone(), d.expected.clone(), d.actual.clone())).collect();
    assert_eq!(
        got,
        vec![
            ("lockdown".to_string(), "Enabled".to_string(), "Partial".to_string()),
            ("LEM0001".to_string(), "3".to_string(), "1".to_string()),
        ]
    );
    let st = machine_setup_status(HwType::NvSwitch, &f, &None, &None, &expected);
    assert!(st.is_done);
    assert!(st.diffs.is_empty());
}

#[test]
fn lenovo_setup_checks_the_first_boot_option_is_network() {
    let mut o = opt("Boot0001", Some("Disk"), None);
    o.name = "Hard Disk".to_string();
    let f = setup_facts(vec![o], vec!["Boot0001"]);
    let st = machine_setup_status(HwType::Lenovo, &f, &None, &None, &vec![]);
    assert_eq!(st.diffs.len(), 1);
    assert_eq!(st.diffs[0].key, "boot_first_type");
    assert_eq!(st.diffs[0].actual, "Hard Disk");
}

#[test]
fn supermicro_setup_checks_attributes_by_prefix_and_http_boot() {
    let mut f = setup_facts(
        vec![
            opt("Boot0003", Some("UEFI HTTP IPv4 Mellanox Network Adapter - 5C:FF:35:FE:04:BC"), None),
            opt("Boot0001", Some("Disk"), None),
        ],
        vec!["Boot0003"],
    );
    f.bios = Some(attrs(vec![
        ("IPv4HTTPSupport_009F", s("Disabled")),
        ("IPv4HTTPSupport_00A0", s("Enabled")),
        ("Other_1", s("x")),
    ]));
    let expected = vec![BiosAttr { key: "IPv4HTTPSupport".to_string(), value: BiosAttrValue::Str("Enabled".to_string()) }];
    let mac = Some([0x5c, 0xff, 0x35, 0xfe, 0x04, 0xbc]);
    let st = machine_setup_status(HwType::Supermicro, &f, &None, &mac, &expected);
    assert_eq!(st.diffs.len(), 1);
    assert_eq!(st.diffs[0].key, "IPv4HTTPSupport_009F");
    assert_eq!(st.diffs[0].actual, "Disabled");
    assert_eq!(key_prefix_of("SR_IOVSupport_002B").into_iter().collect::<String>(), "SR_IOVSupport");
    assert_eq!(key_prefix_of("Plain").into_iter().collect::<String>(), "Plain");
}

#[test]
fn gb200_setup_checks_secure_boot_and_http_boot() {
    let mut f = setup_facts(
        vec![
            opt("Boot0000", Some("UEFI HTTPv4"), Some("VenHw(1)/MAC(020304050607,0x1)/IPv4(0.0.0.0)/Uri()")),
            opt("Boot0020", Some("Ubuntu"), Some("HD(1)")),
        ],
        vec!["Boot0020"],
    );
    f.secure_boot = Some(SecureBootFacts {
        secure_boot_enable: Some(true),
        current_boot: Some(SecureBootCurrentBootType::Enabled),
    });
    let mac = Some([0x02, 0x03, 0x04, 0x05, 0x06, 0x07]);
    let st = machine_setup_status(HwType::Gb200, &f, &None, &mac, &vec![]);
    let keys: Vec<&str> = st.diffs.iter().map(|d| d.key.as_str()).collect();
    assert_eq!(keys, vec!["SecureBoot", "boot_first"]);
    assert_eq!(st.diffs[1].expected, "UEFI HTTPv4");
    assert_eq!(st.diffs[1].actual, "Ubuntu");
    assert!(matches!(secure_boot_status(&f.secure_boot), Ok(true)));
    assert!(matches!(secure_boot_status(&None), Err(ExploreError::BmcNotProvided(_))));
}

#[test]
fn dell_setup_checks_idrac_settings_and_http_device() {
    let mut boot = opt("Boot0005", Some("HTTP Device 1"), None);
    boot.related_items = vec!["/redfish/v1/Chassis/1/NetworkAdapters/NIC.Slot.1/NetworkDeviceFunctions/NIC.Slot.1-1".to_string()];
    let mut f = setup_facts(vec![boot, opt("Boot0001", Some("Disk"), None)], vec!["Boot0001"]);
    f.dell_attributes = Some(attrs(vec![("IPMILan.1.Enable", s("Disabled")), ("WebServer.1.HostHeaderCheck", s("Disabled"))]));
    f.bios = Some(attrs(vec![("HttpDev1Interface", s("NIC.Slot.2-1"))]));
    f.adapter_functions = vec![NetworkFunctionFacts {
        id: "NIC.Slot.1-1".to_string(),
        odata_id: "/redfish/v1/Chassis/1/NetworkAdapters/NIC.Slot.1/NetworkDeviceFunctions/NIC.Slot.1-1".to_string(),
        mac_address: Some("AA:BB:CC:DD:EE:FF".to_string()),
    }];
    let mac = Some([0xaa, 0xbb, 0xcc, 0xdd, 0xee, 0xff]);
    let st = machine_setup_status(HwType::Dell, &f, &None, &mac, &vec![]);
    let got: Vec<(&str, &str, &str)> =
        st.diffs.iter().map(|d| (d.key.as_str(), d.expected.as_str(), d.actual.as_str())).collect();
    assert_eq!(
        got,
        vec![
            ("IPMILan.1.Enable", "Enabled", "Disabled"),
            ("HttpDev1Interface", "NIC.Slot.1-1", "NIC.Slot.2-1"),
            ("boot_first", "HTTP Device 1", "Disk"),
        ]
    );
}

fn identity(vendor: Option<&str>, oem: Option<&str>, product: Option<&str>, system: &str) -> IdentityFacts {
    IdentityFacts {
        vendor: vendor.map(|v| v.to_string()),
        oem_id: oem.map(|v| v.to_string()),
        product: product.map(|v| v.to_string()),
        system_id: system.to_string(),
        lenovo_gb300_chassis: false,
        liteon_power_shelf: false,
    }
}

#[test]
fn hardware_family_is_decided_from_vendor_and_product() {
    assert_eq!(hw_type(&identity(Some("AMI"), None, None, "DGX")), Some(HwType::Viking));
    assert_eq!(hw_type(&identity(Some("AMI"), None, None, "Self")), Some(HwType::Ami));
    assert_eq!(hw_type(&identity(Some("Lenovo"), Some("Ami"), None, "1")), Some(HwType::LenovoAmi));
    assert_eq!(hw_type(&identity(Some("Lenovo"), None, None, "1")), Some(HwType::Lenovo));
    assert_eq!(hw_type(&identity(None, Some("Supermicro"), None, "1")), Some(HwType::Supermicro));
    assert_eq!(hw_type(&identity(Some("WIWYNN"), None, Some("GB200 NVL"), "1")), Some(HwType::Gb200));
    assert_eq!(hw_type(&identity(Some("NVIDIA"), None, Some("P3809"), "1")), Some(HwType::NvSwitch));
    assert_eq!(hw_type(&identity(Some("Nvidia"), None, None, "Bluefield")), Some(HwType::Bluefield));
    assert_eq!(hw_type(&identity(Some("Acme"), None, None, "1")), None);
    let mut shelf = identity(None, None, None, "1");
    shelf.liteon_power_shelf = true;
    assert_eq!(hw_type(&shelf), Some(HwType::LiteonPowerShelf));
}

#[test]
fn dpu_mode_comes_from_oem_or_bios() {
    assert_eq!(dpu_mode(&None, &None, Some(BluefieldMode::NicMode), &None), Some(NicMode::Nic));
    let bios = Some(attrs(vec![("NicMode", s("DpuMode"))]));
    assert_eq!(
        dpu_mode(&Some("Nvidia".to_string()), &Some("Bluefield SoC".to_string()), None, &bios),
        Some(NicMode::Dpu)
    );
    assert_eq!(dpu_mode(&Some("Acme".to_string()), &None, Some(BluefieldMode::DpuMode), &None), None);
}

#[test]
fn redfish_resources_have_their_paths() {
    let c = manager_collection("BMC_0");
    assert_eq!(c.odata_id, "/redfish/v1/Managers/BMC_0/HostInterfaces");
    assert_eq!(c.name, "HostInterface Collection");
    let r = manager_resource("BMC_0", "hostusb0");
    assert_eq!(r.odata_id, "/redfish/v1/Managers/BMC_0/HostInterfaces/hostusb0");
    assert_eq!(r.id, "hostusb0");
    let p = resource("PSU_Chassis", "PSU0");
    assert_eq!(p.odata_id, "/redfish/v1/Chassis/PSU_Chassis/PowerSubsystem/PowerSupplies/PSU0");
    assert_eq!(p.odata_type, "#PowerSupply.v1_5_0.PowerSupply");
    assert_eq!(collection("PSU_Chassis").odata_id, "/redfish/v1/Chassis/PSU_Chassis/PowerSubsystem/PowerSupplies");
}

fn card(mode: Mode) -> Bluefield3 {
    Bluefield3 {
        product_serial_number: "MT2334XZ0001".to_string(),
        host_mac_address: [0x58, 0xa2, 0xe1, 0x73, 0x69, 0x9a],
        bmc_mac_address: [0x58, 0xa2, 0xe1, 0x73, 0x69, 0x90],
        oob_mac_address: None,
        mode,
        firmware_versions: FirmwareVersions {
            bmc: "BF-23.10-4".to_string(),
            uefi: "4.5.0".to_string(),
            dpu_nic: "32.39.2048".to_string(),
            erot: "00.02".to_string(),
        },
    }
}

#[test]
fn bluefield_part_numbers_follow_the_mode() {
    assert_eq!(card(Mode::B3240ColdAisle).part_number(), "900-9D3B6-00CN-PA0");
    assert_eq!(card(Mode::SuperNIC { nic_mode: true }).part_number(), "900-9D3B4-00CC-EA0");
    assert_eq!(card(Mode::SuperNIC { nic_mode: false }).opn(), "9009D3B600CVAA");
    let inv = card(Mode::B3240ColdAisle).update_service_config();
    assert_eq!(inv[0], ("DPU_SYS_IMAGE".to_string(), "58A2:E100:0073:699A".to_string()));
    assert_eq!(inv[1], ("BMC_Firmware".to_string(), "BF-23.10-4".to_string()));
    assert_eq!(inv.len(), 5);
}

#[test]
fn wiwynn_tray_lists_its_chassis_and_managers() {
    let tray = WiwynnGB200Nvl {
        system_serial_number: "SYS1".to_string(),
        chassis_serial_number: "CH1".to_string(),
        compute_board: [
            BiancaBoard { index: BoardIndex::Board0, cpu_serial_number: "C0".to_string(), gpu_serial_number: "G0".to_string() },
            BiancaBoard { index: BoardIndex::Board1, cpu_serial_number: "C1".to_string(), gpu_serial_number: "G1".to_string() },
        ],
        dpu1: card(Mode::B3240ColdAisle),
        dpu2: card(Mode::B3240ColdAisle),
        io_board: [
            IoBoard { index: BoardIndex::Board0, serial_number: "IO0".to_string() },
            IoBoard { index: BoardIndex::Board1, serial_number: "IO1".to_string() },
        ],
    };
    let chassis = tray.chassis_config(vec![]);
    let ids: Vec<&str> = chassis.iter().map(|c| c.id.as_str()).collect();
    assert_eq!(
        ids,
        vec![
            "BMC_0", "Chassis_0", "HGX_CPU_0", "HGX_CPU_1", "HGX_GPU_0", "HGX_GPU_1", "HGX_GPU_2", "HGX_GPU_3",
            "IO_Board_0", "IO_Board_1", "Riser_Slot1_BlueField_3_Card", "Riser_Slot2_BlueField_3_Card"
        ]
    );
    assert_eq!(chassis[1].assembly_serial.as_deref(), Some("CH1"));
    let managers = tray.manager_config();
    assert_eq!(managers[0].id, "BMC_0");
    assert_eq!(managers[1].firmware_version.as_deref(), Some("GB200Nvl-25.06-A"));
    let systems = tray.system_config();
    let boot = systems[0].boot_options.as_ref().unwrap();
    let ids: Vec<&str> = boot.iter().map(|b| b.id.as_str()).collect();
    assert_eq!(ids, vec!["Boot0020", "Boot0000", "Boot0001"]);
    assert_eq!(boot[1].display_name, "UEFI HTTPv4 (MAC:58A2E173699A)");
    assert_eq!(
        boot[1].uefi_device_path.as_deref(),
        Some("MAC(58A2E173699A,0x1)/IPv4(0.0.0.0,0x0,DHCP,0.0.0.0,0.0.0.0,0.0.0.0)/Uri()")
    );
    assert_eq!(systems[1].id, "HGX_Baseboard_0");
    let fw = tray.update_service_config();
    assert_eq!(fw.len(), 11);
    assert_eq!(fw[1], ("FW_BMC_1".to_string(), "    ".to_string()));
}

#[test]
fn power_commands_are_refused_in_the_wrong_state() {
    assert!(matches!(
        check_power_command(SystemPowerControl::ForceOff, PowerStateView::Off),
        Err(PowerRefusal::AlreadyOff)
    ));
    assert!(matches!(
        check_power_command(SystemPowerControl::On, PowerStateView::On),
        Err(PowerRefusal::AlreadyOn)
    ));
    assert!(check_power_command(SystemPowerControl::On, PowerStateView::Off).is_ok());
    assert_eq!(
        power_refusal_message(PowerRefusal::AlreadyOff).as_deref(),
        Some("bmc-mock: cannot power off machine, it is already off")
    );
    assert_eq!(HostHardwareType::default(), HostHardwareType::DellPowerEdgeR750);
}

#[test]
fn power_shelf_lists_six_supplies() {
    let shelf = LiteOnPowerShelf { bmc_mac_address: [1, 2, 3, 4, 5, 6], product_serial_number: "PS1".to_string() };
    let chassis = shelf.chassis_config();
    assert_eq!(chassis.len(), 1);
    assert_eq!(chassis[0].id, "powershelf");
    let supplies = chassis[0].power_supplies.as_ref().unwrap();
    assert_eq!(supplies.len(), 6);
    assert_eq!(supplies[5].resource.id, "5");
    assert_eq!(supplies[5].resource.odata_id, "/redfish/v1/Chassis/powershelf/PowerSubsystem/PowerSupplies/5");
    let managers = shelf.manager_config();
    let eths = managers[0].eth_interfaces.as_ref().unwrap();
    assert_eq!(eths[0].id, "can0");
    assert_eq!(eths[0].mac_address, [0, 0, 0, 0, 0, 0]);
    assert_eq!(eths[1].mac_address, [1, 2, 3, 4, 5, 6]);
}

#[test]
fn bluefield_chassis_and_manager() {
    let c = card(Mode::SuperNIC { nic_mode: false });
    let chassis = c.chassis_config();
    let ids: Vec<&str> = chassis.iter().map(|ch| ch.id.as_str()).collect();
    assert_eq!(ids, vec!["Bluefield_BMC", "Bluefield_ERoT", "CPU_0", "Card1"]);
    assert_eq!(chassis[2].part_number.as_deref(), Some("OPN: 9009D3B600CVAA"));
    assert_eq!(chassis[0].part_number.as_deref(), Some("900-9D3B6-00CV-AA0"));
    assert_eq!(chassis[1].serial_number.as_deref(), Some(""));
    let m = c.manager_config();
    assert_eq!(m[0].firmware_version.as_deref(), Some("BF-23.10-4"));
    assert_eq!(m[0].eth_interfaces.as_ref().unwrap()[0].mac_address, c.bmc_mac_address);
}

#[test]
fn dmi_vendor_follows_the_bmc_vendor() {
    assert_eq!(bmc_vendor_to_udev_dmi(BmcVendor::Dell), "Dell Inc.");
    assert_eq!(bmc_vendor_to_udev_dmi(BmcVendor::Nvidia), "https://www.mellanox.com");
    assert_eq!(bmc_vendor_to_udev_dmi(BmcVendor::LenovoAmi), "Unknown");
}

#[test]
fn lenovo_gb300_setup_uses_its_own_bios_table() {
    let table = lenovo_gb300_expected_bios();
    let keys: Vec<&str> = table.iter().map(|a| a.key.as_str()).collect();
    assert_eq!(keys, vec!["PCIS007", "LEM0001", "NWSK000", "NWSK001", "NWSK006", "NWSK002", "NWSK007", "LEM0003"]);
    assert!(matches!(&table[1].value, BiosAttrValue::Int(3)));
    assert!(matches!(&table[7].value, BiosAttrValue::Int(50)));
    assert!(matches!(&table[3].value, BiosAttrValue::Str(v) if v == "NWSK001Disabled"));

    let mut f = setup_facts(vec![opt("Boot0001", Some("Network"), None)], vec!["Boot0001"]);
    f.bios = Some(attrs(vec![
        ("PCIS007", s("PCIS007Disabled")),
        ("LEM0001", AttrValue::Int(3)),
        ("LEM0003", AttrValue::Int(7)),
    ]));
    let unrelated = vec![BiosAttr { key: "LEM0001".to_string(), value: BiosAttrValue::Int(9) }];
    let st = machine_setup_status(HwType::LenovoGb300, &f, &None, &None, &unrelated);
    let got: Vec<(String, String, String)> =
        st.diffs.iter().map(|d| (d.key.clone(), d.expected.clone(), d.actual.clone())).collect();
    assert_eq!(
        got,
        vec![
            ("PCIS007".to_string(), "PCIS007Enabled".to_string(), "PCIS007Disabled".to_string()),
            ("LEM0003".to_string(), "50".to_string(), "7".to_string()),
        ]
    );
    assert!(!st.is_done);
}

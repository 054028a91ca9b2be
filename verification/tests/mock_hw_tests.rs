use carbide::bmc_attrs::AttrValue;
use carbide::bmc_boards::{BiancaBoard, BoardIndex, IoBoard, NvidiaGB300Cpu, NvidiaGB300Gpu, NvidiaGB300IoBoard};
use carbide::bmc_discovery::{CpuArch, NetworkInterfacePlan};
use carbide::bmc_dell::{DellPowerEdgeR750, EmbeddedNic};
use carbide::bmc_dgx::NvidiaDgxH100;
use carbide::bmc_gb200::{Bluefield3, FirmwareVersions, HostNic, Mode, WiwynnGB200Nvl};
use carbide::bmc_lenovo::LenovoGB300Nvl;
use carbide::bmc_plans::{BiosMode, BootOptionKind, BootOrderMode, SystemOem};
use carbide::bmc_power_shelf::LiteOnPowerShelf;
use carbide::bmc_switch::NvidiaSwitchNd5200Ld;

fn card(mode: Mode, oob: Option<[u8; 6]>) -> Bluefield3 {
    Bluefield3 {
        product_serial_number: "MT2334XZ0001".to_string(),
        host_mac_address: [0x58, 0xa2, 0xe1, 0x73, 0x69, 0x9a],
        bmc_mac_address: [0x58, 0xa2, 0xe1, 0x73, 0x69, 0x90],
        oob_mac_address: oob,
        mode,
        firmware_versions: FirmwareVersions {
            bmc: "BF-23.10-4".to_string(),
            uefi: "4.5.0".to_string(),
            dpu_nic: "32.39.2048".to_string(),
            erot: "00.02".to_string(),
        },
    }
}

fn nic(last: u8, serial: Option<&str>) -> HostNic {
    HostNic {
        mac_address: [0x0a, 0x0b, 0x0c, 0x0d, 0x0e, last],
        serial_number: serial.map(|s| s.to_string()),
        manufacturer: Some("Vendor".to_string()),
        model: Some(format!("Model{last}")),
        description: None,
        part_number: Some("PN".to_string()),
        firmware_version: None,
        is_mat_dpu: false,
    }
}

fn text(a: &(String, AttrValue)) -> Option<&str> {
    match &a.1 {
        AttrValue::Str(s) => Some(s.as_str()),
        _ => None,
    }
}

#[test]
fn switch_tray_chassis_and_managers() {
    let sw = NvidiaSwitchNd5200Ld {
        bmc_mac_address_eth0: [1, 2, 3, 4, 5, 6],
        bmc_mac_address_eth1: [1, 2, 3, 4, 5, 7],
        bmc_mac_address_usb0: [1, 2, 3, 4, 5, 8],
        bmc_serial_number: "BMCSN".to_string(),
        switch_serial_number: "SWSN".to_string(),
    };
    let chassis = sw.chassis_config();
    let ids: Vec<&str> = chassis.iter().map(|c| c.id.as_str()).collect();
    assert_eq!(
        ids,
        vec![
            "BMC_eeprom", "CPLD_0", "MGX_BMC_0", "MGX_ERoT_BMC_0", "MGX_ERoT_CPU_0", "MGX_ERoT_FPGA_0",
            "MGX_ERoT_NVSwitch_0", "MGX_ERoT_NVSwitch_1", "MGX_NVSwitch_0", "MGX_NVSwitch_1"
        ]
    );
    assert_eq!(chassis[3].serial_number.as_deref(), Some("0xFEEEEEEE0000"));
    assert_eq!(chassis[7].serial_number.as_deref(), Some("0xFEEEEEEE0004"));
    assert_eq!(chassis[1].part_number.as_deref(), Some(""));
    assert_eq!(chassis[9].serial_number.as_deref(), Some("SWSN"));
    assert_eq!(chassis[9].sensor_layout.unwrap().power, 1);
    let m = sw.manager_config();
    let eths = m[0].eth_interfaces.as_ref().unwrap();
    assert_eq!(eths.len(), 3);
    assert_eq!(eths[1].mac_address, [1, 2, 3, 4, 5, 7]);
    assert_eq!(m[0].firmware_version.as_deref(), Some("88.0002.1333"));
    let sys = sw.system_config();
    assert!(sys[0].storage_listed);
    assert_eq!(sys[0].chassis, vec!["BMC_eeprom".to_string()]);
    assert!(sw.update_service_config().is_empty());
}

fn dgx() -> NvidiaDgxH100 {
    NvidiaDgxH100 {
        dgx_system_serial_number: "DGXSYS".to_string(),
        dgx_chassis_serial_number: "DGXCH".to_string(),
        ib_nics: [
            [nic(0x10, Some("IB00")), nic(0x11, Some("IB01")), nic(0x12, Some("IB02")), nic(0x13, Some("IB03"))],
            [nic(0x20, Some("IB10")), nic(0x21, Some("IB11")), nic(0x22, Some("IB12")), nic(0x23, Some("IB13"))],
        ],
        mgmt_nic: nic(0x01, None),
        dpu: card(Mode::SuperNIC { nic_mode: false }, None),
        storage_nic0: [nic(0x30, Some("S00")), nic(0x31, Some("S01"))],
        storage_nic1: [nic(0x40, Some("S10")), nic(0x41, Some("S11"))],
        gpu_serial: [
            "G1".to_string(), "G2".to_string(), "G3".to_string(), "G4".to_string(), "G5".to_string(),
            "G6".to_string(), "G7".to_string(), "G8".to_string(),
        ],
        bmc_mac_address_eth0: [2, 0, 0, 0, 0, 1],
        bmc_mac_address_usb0: [2, 0, 0, 0, 0, 2],
        hgx_bmc_mac_address_usb0: [2, 0, 0, 0, 0, 3],
    }
}

#[test]
fn dgx_network_adapters_come_sorted_by_key() {
    let d = dgx();
    let chassis = d.chassis_config();
    assert_eq!(chassis.len(), 10);
    assert_eq!(chassis[0].id, "CPUBaseboard");
    assert_eq!(chassis[9].id, "HGX_GPU_SXM_8");
    assert_eq!(chassis[9].serial_number.as_deref(), Some("G8"));
    let main = &chassis[1];
    assert_eq!(main.pcie_devices.as_ref().unwrap().len(), 133);
    let adapters = main.network_adapters.as_ref().unwrap();
    let ids: Vec<&str> = adapters.iter().map(|a| a.id.as_str()).collect();
    assert_eq!(
        ids,
        vec![
            "DevType7_NIC0", "DevType7_NIC1", "DevType7_NIC10", "DevType7_NIC11", "DevType7_NIC2", "DevType7_NIC3",
            "DevType7_NIC4", "DevType7_NIC5", "DevType7_NIC6", "DevType7_NIC7", "DevType7_NIC8", "DevType7_NIC9"
        ]
    );
    assert!(adapters[0].manufacturer.is_none());
    assert_eq!(adapters[1].manufacturer.as_deref(), Some("MLNX"));
    assert_eq!(adapters[2].serial_number.as_deref(), Some("IB00"));
    assert_eq!(adapters[4].serial_number.as_deref(), Some("IB10"));
    assert_eq!(adapters[5].serial_number.as_deref(), Some("S00"));
    assert_eq!(adapters[9].serial_number.as_deref(), Some("IB02"));
    assert_eq!(adapters[10].serial_number.as_deref(), Some("S10"));
    assert_eq!(adapters[11].serial_number.as_deref(), Some("IB03"));
}

#[test]
fn dgx_host_boots_over_http_then_from_its_os() {
    let d = dgx();
    let systems = d.system_config();
    let host = &systems[0];
    assert_eq!(host.boot_order_mode, BootOrderMode::ViaSettings);
    assert_eq!(host.bios_odata_context.as_deref(), Some("MakeLibRedfishHappy"));
    let boot = host.boot_options.as_ref().unwrap();
    assert_eq!(boot.len(), 7);
    assert_eq!(boot[0].id, "000A");
    assert_eq!(boot[0].reference, "Boot000A");
    assert_eq!(boot[0].display_name, "UEFI Pn: HTTP IPv4 - 0A:0B:0C:0D:0E:01");
    assert_eq!(
        boot[0].uefi_device_path.as_deref(),
        Some("PciRoot(0x0)/Pci(0x10,0x0)/Pci(0x0,0x0)/MAC(0A0B0C0D0E01,0x1)/IPv4(0.0.0.0,0x0,DHCP,0.0.0.0,0.0.0.0,0.0.0.0)/Uri()")
    );
    assert_eq!(boot[5].id, "000F");
    assert_eq!(boot[5].display_name, "UEFI Pn: HTTP IPv4 - 58:A2:E1:73:69:9A");
    assert_eq!(boot[6].reference, "Boot0030");
    assert_eq!(boot[6].display_name, "UEFI OS");
    let eths = host.eth_interfaces.as_ref().unwrap();
    assert_eq!(eths[1].mac_address, d.dpu.host_mac_address);
    assert_eq!(eths[5].id, "EthernetInterface5");
    assert_eq!(eths[5].interface_enabled, Some(false));
    let bios = host.bios_attributes.as_ref().unwrap();
    assert_eq!(bios.len(), 13);
    assert!(matches!(bios[0].1, AttrValue::Bool(true)));
    assert_eq!(text(&bios[12]), Some("Enable"));
    assert_eq!(systems[1].chassis, vec!["HGX_BMC_0".to_string()]);
    let m = d.manager_config();
    assert_eq!(m.len(), 3);
    assert!(m[2].firmware_version.is_none());
    let fw = d.update_service_config();
    assert_eq!(fw[1], ("HostBIOS_0".to_string(), "01.05.03".to_string()));
}

fn dell(nics: Vec<(u8, HostNic)>) -> DellPowerEdgeR750 {
    DellPowerEdgeR750 {
        bmc_mac_address: [3, 0, 0, 0, 0, 1],
        product_serial_number: "DELLSN".to_string(),
        nics,
        embedded_nic: EmbeddedNic { port_1: [3, 0, 0, 0, 1, 1], port_2: [3, 0, 0, 0, 1, 2] },
    }
}

#[test]
fn dell_system_boots_over_each_slot_nic_then_disk() {
    let d = dell(vec![(5, nic(0x50, Some("NICSN5"))), (7, nic(0x70, None))]);
    let sys = d.system_config();
    let s = &sys[0];
    assert_eq!(s.boot_order_mode, BootOrderMode::DellOem);
    assert_eq!(s.bios_mode, BiosMode::DellOem);
    assert!(s.storage_listed);
    let boot = s.boot_options.as_ref().unwrap();
    let ids: Vec<&str> = boot.iter().map(|b| b.id.as_str()).collect();
    assert_eq!(ids, vec!["Boot0000", "Boot0001", "Boot0002"]);
    assert_eq!(boot[1].display_name, "HTTP Device 1: NIC in Slot 7 Port 1");
    assert_eq!(boot[2].display_name, "PCIe SSD in Slot 2 in Bay 1: EFI Fixed Disk Boot Device 1");
    let eths = s.eth_interfaces.as_ref().unwrap();
    assert_eq!(eths[0].id, "NIC.Embedded.1-1-1");
    assert_eq!(eths[1].description.as_deref(), Some("Embedded NIC 1 Port 2 Partition 1"));
    assert_eq!(eths[2].id, "NIC.Slot.5-1");
    assert_eq!(eths[3].description.as_deref(), Some("NIC in Slot 7 Port 1"));
    let bios = s.bios_attributes.as_ref().unwrap();
    assert_eq!(bios[15].0, "HttpDev1Interface");
    assert_eq!(text(&bios[15]), Some("NIC.Slot.5-1"));
}

#[test]
fn dell_boot_ids_are_four_hex_digits() {
    let nics: Vec<(u8, HostNic)> = (0..11).map(|n| (n, nic(n, None))).collect();
    let sys = dell(nics).system_config();
    let boot = sys[0].boot_options.as_ref().unwrap();
    assert_eq!(boot[10].id, "Boot000A");
    assert_eq!(boot[11].id, "Boot000B");
}

#[test]
fn dell_chassis_lists_slot_adapters_with_oem_info() {
    let d = dell(vec![(5, nic(0x50, Some("NICSN5"))), (7, nic(0x70, None))]);
    let chassis = d.chassis_config();
    let c = &chassis[0];
    assert_eq!(c.id, "System.Embedded.1");
    let adapters = c.network_adapters.as_ref().unwrap();
    assert_eq!(adapters[0].manufacturer.as_deref(), Some("Broadcom Inc. and subsidiaries"));
    assert_eq!(adapters[1].id, "NIC.Slot.5");
    assert!(adapters[1].status_ok);
    let f = &adapters[2].functions.as_ref().unwrap()[0];
    assert_eq!(f.id, "NIC.Slot.7-1");
    assert_eq!(f.mac_address, [0x0a, 0x0b, 0x0c, 0x0d, 0x0e, 0x70]);
    assert_eq!(f.dell_nic_info, Some((7, "unknown".to_string())));
    let devices = c.pcie_devices.as_ref().unwrap();
    assert_eq!(devices[0].id, "mat_5");
    assert_eq!(devices[0].serial_number.as_deref(), Some("NICSN5"));
    let m = d.manager_config();
    assert!(m[0].dell_oem);
    assert!(!m[0].host_interfaces.as_ref().unwrap()[0].1);
}

fn lenovo() -> LenovoGB300Nvl {
    LenovoGB300Nvl {
        system_0_serial_number: "LSYS".to_string(),
        chassis_0_serial_number: "LCH".to_string(),
        dpu: card(Mode::B3240ColdAisle, None),
        embedded_1g_nic: nic(0x99, None),
        bmc_mac_address_eth0: [4, 0, 0, 0, 0, 1],
        bmc_mac_address_eth1: [4, 0, 0, 0, 0, 2],
        bmc_mac_address_usb0: [4, 0, 0, 0, 0, 3],
        hgx_bmc_mac_address_usb0: [4, 0, 0, 0, 0, 4],
        hgx_serial_number: "HGXSN".to_string(),
        cpu: [
            NvidiaGB300Cpu { serial_number: "CPU0".to_string() },
            NvidiaGB300Cpu { serial_number: "CPU1".to_string() },
        ],
        gpu: [
            NvidiaGB300Gpu { serial_number: "GPU0".to_string() },
            NvidiaGB300Gpu { serial_number: "GPU1".to_string() },
            NvidiaGB300Gpu { serial_number: "GPU2".to_string() },
            NvidiaGB300Gpu { serial_number: "GPU3".to_string() },
        ],
        io_board: [
            NvidiaGB300IoBoard { serial_number: "IO0".to_string() },
            NvidiaGB300IoBoard { serial_number: "IO1".to_string() },
        ],
    }
}

#[test]
fn lenovo_tray_chassis_and_systems() {
    let l = lenovo();
    let chassis = l.chassis_config(vec![]);
    let ids: Vec<&str> = chassis.iter().map(|c| c.id.as_str()).collect();
    assert_eq!(
        ids,
        vec![
            "Chassis_0", "HGX_CPU_0", "HGX_CPU_1", "HGX_GPU_0", "HGX_GPU_1", "HGX_GPU_2", "HGX_GPU_3", "IO_board_0",
            "IO_board_1", "Riser_Slot1_BlueField_3_SmartNIC_Main_Card"
        ]
    );
    assert_eq!(chassis[9].part_number.as_deref(), Some("900-9D3B6-00CN-PA0           "));
    assert_eq!(
        chassis[9].serial_number.as_deref(),
        Some(format!("MT2334XZ0001{}", " ".repeat(34)).as_str())
    );
    assert_eq!(chassis[0].model.as_deref(), Some(" "));
    let systems = l.system_config();
    assert_eq!(systems[0].id, "HGX_Baseboard_0");
    let host = &systems[1];
    let boot = host.boot_options.as_ref().unwrap();
    assert_eq!(boot[0].kind, Some(BootOptionKind::Disk));
    assert_eq!(boot[1].id, "0003");
    assert_eq!(boot[2].reference, "Boot0004");
    assert_eq!(boot[2].display_name, "[SlotFFFF]: PXE IPv4 Some Network Adapter - 58:A2:E1:73:69:9A");
    let bios = host.bios_attributes.as_ref().unwrap();
    assert!(matches!(bios[1].1, AttrValue::Int(0)));
    assert_eq!(l.manager_config()[1].firmware_version.as_deref(), Some("GB200Nvl-25.08-B"));
}

#[test]
fn bluefield_system_boots_over_its_oob_port_when_it_has_one() {
    let with_oob = card(Mode::SuperNIC { nic_mode: true }, Some([0xb8, 0x3f, 0xd2, 0x00, 0x00, 0x01]));
    let sys = with_oob.system_config();
    let s = &sys[0];
    assert_eq!(s.oem, SystemOem::NvidiaBluefield);
    let boot = s.boot_options.as_ref().unwrap();
    assert_eq!(boot.len(), 2);
    assert_eq!(boot[1].display_name, "NET-OOB-IPV4-HTTP");
    assert_eq!(
        boot[1].uefi_device_path.as_deref(),
        Some("MAC(B83FD2000001,0x1)/IPv4(0.0.0.0,0x0,DHCP,0.0.0.0,0.0.0.0,0.0.0.0)/Uri()")
    );
    assert_eq!(s.eth_interfaces.as_ref().unwrap()[0].id, "oob_net0");
    assert_eq!(text(&s.bios_attributes.as_ref().unwrap()[0]), Some("NicMode"));
    assert_eq!(s.event_log.as_ref().unwrap()[0], "DPU Warm Reset");
    let without = card(Mode::B3240ColdAisle, None).system_config();
    assert_eq!(without[0].boot_options.as_ref().unwrap().len(), 1);
    assert!(without[0].eth_interfaces.as_ref().unwrap().is_empty());
    assert_eq!(text(&without[0].bios_attributes.as_ref().unwrap()[0]), Some("DpuMode"));
}

#[test]
fn power_shelf_system_has_an_empty_bios() {
    let shelf = LiteOnPowerShelf { bmc_mac_address: [5, 0, 0, 0, 0, 1], product_serial_number: "PS1".to_string() };
    let sys = shelf.system_config();
    assert_eq!(sys[0].id, "system");
    assert!(sys[0].bios_attributes.as_ref().unwrap().is_empty());
    assert!(!sys[0].secure_boot_available);
    assert!(shelf.update_service_config().is_empty());
}

#[test]
fn gb200_boards_report_their_gpus_and_infiniband_ports() {
    let board = BiancaBoard { index: BoardIndex::Board1, cpu_serial_number: "C1".to_string(), gpu_serial_number: "G1".to_string() };
    let gpus = board.discovery_gpu();
    assert_eq!(gpus[0].pci_bus_id, "00000018:01:00.0");
    let info = gpus[1].platform_info.as_ref().unwrap();
    assert_eq!(info.chassis_serial, "18210000000011");
    assert_eq!(info.module_id, 3);
    assert_eq!(info.fabric_guid, "0xfeeeeeeeeeeeee01");
    assert_eq!(board.discovery_memory().size_mb, Some(491520));
    let io = IoBoard { index: BoardIndex::Board1, serial_number: "IO1".to_string() };
    let ports = io.discovery_infiniband();
    let p0 = ports[0].pci_properties.as_ref().unwrap();
    assert_eq!(p0.path, "/devices/pci10:00/10:00:00.0/10:01:00.0/10:02:00.0/10:03:00.0/infiniband/ibP16p3s0");
    assert_eq!(p0.slot.as_deref(), Some("16:03:00.0"));
    assert_eq!(p0.numa_node, 1);
    assert_eq!(ports[1].guid, "7c8c090000000001");
    let io0 = IoBoard { index: BoardIndex::Board0, serial_number: "IO0".to_string() };
    let p = io0.discovery_infiniband();
    assert_eq!(
        p[0].pci_properties.as_ref().unwrap().path,
        "/devices/pci00:00/00:00:00.0/00:01:00.0/00:02:00.0/00:03:00.0/infiniband/ibp3s0"
    );
}

#[test]
fn dgx_reports_its_infiniband_ports_gpus_and_disks() {
    let d = dgx();
    let ib = d.discovery_info_ib_interfaces();
    assert_eq!(ib.len(), 8);
    let p0 = ib[0].pci_properties.as_ref().unwrap();
    assert_eq!(p0.path, "/devices/pci0000:15/0000:15:01.0/0000:16:00.0/0000:17:00.0/0000:18:00.0/infiniband/ibp21s0");
    assert_eq!(p0.slot.as_deref(), Some("0000:18:00.0"));
    assert_eq!(ib[7].guid, "94dae00000000007");
    assert_eq!(ib[7].pci_properties.as_ref().unwrap().numa_node, 1);
    let record = |mac: &str| NetworkInterfacePlan { mac_address: mac.to_string(), pci_properties: None };
    let info = d.discovery_info(record("M"), record("S0"), record("S1"));
    assert_eq!(info.network_interfaces[2].mac_address, "S1");
    assert_eq!(info.network_interfaces[3].mac_address, "58:A2:E1:73:69:9A");
    assert_eq!(info.block_devices[1].serial, "MicronFAKESERNUM1");
    assert_eq!(info.block_devices[9].serial, "KCMFAKESERNUM7");
    assert_eq!(info.nvme_devices[2].model, "KCM6DRUL3T84");
    assert_eq!(info.gpus[4].pci_bus_id, "00000000:9D:00.0");
    assert_eq!(info.gpus[4].serial, "G5");
    assert_eq!(info.memory_devices.len(), 32);
    assert_eq!(info.dmi_data.as_ref().unwrap().board_serial, "DGXSYS.FAKESERNUM1");
    assert_eq!(info.arch, Some(CpuArch::X86_64));
}

#[test]
fn bluefield_and_lenovo_discovery() {
    let c = card(Mode::SuperNIC { nic_mode: false }, None);
    let info = c.discovery_info();
    assert_eq!(info.block_devices.len(), 4);
    assert_eq!(info.block_devices[3].model, "NO_MODEL");
    let dpu = info.dpu_info.as_ref().unwrap();
    assert_eq!(dpu.part_description, "NVIDIA Bluefield-3 900-9D3B6-00CV-AA0");
    assert_eq!(dpu.factory_mac_address, "58:A2:E1:73:69:9A");
    assert_eq!(info.arch, Some(CpuArch::Aarch64));
    let l = lenovo().discovery_info();
    assert!(l.cpu_info.is_empty() && l.dmi_data.is_none() && l.arch.is_none());
}

#[test]
fn wiwynn_and_dell_discovery() {
    let tray = WiwynnGB200Nvl {
        system_serial_number: "SYS1".to_string(),
        chassis_serial_number: "CH1".to_string(),
        compute_board: [
            BiancaBoard { index: BoardIndex::Board0, cpu_serial_number: "C0".to_string(), gpu_serial_number: "G0".to_string() },
            BiancaBoard { index: BoardIndex::Board1, cpu_serial_number: "C1".to_string(), gpu_serial_number: "G1".to_string() },
        ],
        dpu1: card(Mode::B3240ColdAisle, None),
        dpu2: card(Mode::B3240ColdAisle, None),
        io_board: [
            IoBoard { index: BoardIndex::Board0, serial_number: "IO0".to_string() },
            IoBoard { index: BoardIndex::Board1, serial_number: "IO1".to_string() },
        ],
    };
    let info = tray.discovery_info(vec![]);
    assert_eq!(info.infiniband_interfaces.len(), 4);
    assert_eq!(info.gpus[2].pci_bus_id, "00000018:01:00.0");
    assert_eq!(info.block_devices[8].serial, "BDFAKESERNUM8");
    assert_eq!(info.dmi_data.as_ref().unwrap().product_serial, "CH1");
    let d = dell(vec![]);
    let info = d.discovery_info(vec![]);
    assert_eq!(info.block_devices[0].device_type, "");
    assert_eq!(info.dmi_data.as_ref().unwrap().board_serial, ".DELLSN.FAKESERNUM2.");
    assert_eq!(info.dmi_data.as_ref().unwrap().sys_vendor, "Dell Inc.");
    assert_eq!(info.memory_devices.len(), 8);
}

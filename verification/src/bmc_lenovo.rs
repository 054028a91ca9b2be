//! The mocked Lenovo GB300 NVL compute tray: its BMC and HGX managers, its
//! host and HGX systems, and its chassis.

use vstd::prelude::*;
use crate::bmc_attrs::AttrValue;
use crate::bmc_boards::{
    ChassisPlan, NvidiaGB300Cpu, NvidiaGB300Gpu, NvidiaGB300IoBoard, SensorLayout, layout, opt_is, plain_chassis,
};
use crate::bmc_gb200::{Bluefield3, HostNic, chassis_head, nic_serial, part_number_of};
use crate::bmc_plans::{
    BiosMode, BootOptionKind, BootOptionPlan, BootOrderMode, EthInterfacePlan, ManagerPlan, SystemOem, SystemPlan,
    attr_is_text, enabled_eth, enabled_eth_plan, int_attr, plain_boot_option, text_attr,
};
use crate::bmc_redfish::{Resource, host_interfaces_path, manager_resource};
use crate::boot_order::{hex_pair, mac_compact, mac_digits, mac_digits_of_byte, mac_text};
use crate::text::{decimal, extend_chars, extend_str, push_decimal, string_of};

verus! {

/// A Lenovo GB300 NVL compute tray. The embedded 1G NIC is held as the NIC
/// it presents to the host.
#[derive(Clone, Debug)]
pub struct LenovoGB300Nvl {
    pub system_0_serial_number: String,
    pub chassis_0_serial_number: String,
    pub dpu: Bluefield3,
    pub embedded_1g_nic: HostNic,
    pub bmc_mac_address_eth0: [u8; 6],
    pub bmc_mac_address_eth1: [u8; 6],
    pub bmc_mac_address_usb0: [u8; 6],
    pub hgx_bmc_mac_address_usb0: [u8; 6],
    pub hgx_serial_number: String,
    pub cpu: [NvidiaGB300Cpu; 2],
    pub gpu: [NvidiaGB300Gpu; 4],
    pub io_board: [NvidiaGB300IoBoard; 2],
}

/// The PCI path the tray's PXE boot options start from.
pub const LENOVO_BOOT_PCI_PATH: &'static str = "PciRoot(0x0)/Pci(0x10,0x0)/Pci(0x0,0x0)";

/// Id of the `n`th PXE boot option (below two): `n + 3` as four upper-case
/// hexadecimal digits.
pub open spec fn lenovo_boot_id(n: u8) -> Seq<char> {
    hex_pair(0) + hex_pair((n + 3) as u8)
}

/// Whether `o` is the `n`th PXE boot option, through the NIC with MAC `mac`.
pub open spec fn pxe_boot_option_is(o: BootOptionPlan, n: u8, mac: Seq<u8>) -> bool {
    plain_boot_option(o, lenovo_boot_id(n), "Boot"@ + lenovo_boot_id(n), Some(BootOptionKind::Network),
        "[SlotFFFF]: PXE IPv4 Some Network Adapter - "@ + mac_text(mac),
        Some(LENOVO_BOOT_PCI_PATH@ + "/MAC("@ + mac_compact(mac)
            + ",0x1)/IPv4(0.0.0.0,0x0,DHCP,0.0.0.0,0.0.0.0,0.0.0.0)/Uri()"@))
}

/// The attributes of the host BIOS, as the tray ships them.
pub open spec fn lenovo_bios_attrs_are(a: Seq<(String, AttrValue)>) -> bool {
    &&& a.len() == 8
    &&& attr_is_text(a[0], "PCIS007"@, "PCIS007Enabled"@)
    &&& a[1].0@ == "LEM0001"@ && a[1].1 == AttrValue::Int(0)
    &&& attr_is_text(a[2], "NWSK000"@, "NWSK000Enabled"@)
    &&& attr_is_text(a[3], "NWSK001"@, "NWSK001Enabled"@)
    &&& attr_is_text(a[4], "NWSK006"@, "NWSK006Disabled"@)
    &&& attr_is_text(a[5], "NWSK002"@, "NWSK002Enabled"@)
    &&& attr_is_text(a[6], "NWSK007"@, "NWSK007Disabled"@)
    &&& a[7].0@ == "LEM0003"@ && a[7].1 == AttrValue::Int(0)
}

/// The chassis of the tray's BlueField-3 riser card.
pub open spec fn lenovo_dpu_chassis_is(p: ChassisPlan, card: Bluefield3) -> bool {
    &&& p.id@ == "Riser_Slot1_BlueField_3_SmartNIC_Main_Card"@
    &&& p.chassis_type@ == "Component"@
    &&& opt_is(p.manufacturer, "Nvidia"@)
    &&& opt_is(p.part_number, part_number_of(card.mode) + "           "@)
    &&& opt_is(p.model, "BlueField-3 SmartNIC Main Card"@)
    &&& opt_is(p.serial_number, nic_serial(card.product_serial_number@) + "                 "@)
    &&& p.sensor_layout == Some(layout(4, 0, 0, 0, 0))
    &&& p.pcie_devices is None && p.network_adapters is None
    &&& p.assembly_serial is None && p.power_supplies is None
}

fn lenovo_bios_attrs() -> (a: Vec<(String, AttrValue)>)
    ensures
        lenovo_bios_attrs_are(a@),
{
    let mut a: Vec<(String, AttrValue)> = Vec::new();
    a.push(text_attr("PCIS007", "PCIS007Enabled"));
    a.push(int_attr("LEM0001", 0));
    a.push(text_attr("NWSK000", "NWSK000Enabled"));
    a.push(text_attr("NWSK001", "NWSK001Enabled"));
    a.push(text_attr("NWSK006", "NWSK006Disabled"));
    a.push(text_attr("NWSK002", "NWSK002Enabled"));
    a.push(text_attr("NWSK007", "NWSK007Disabled"));
    a.push(int_attr("LEM0003", 0));
    a
}

fn pxe_boot_option(n: u8, mac: &[u8; 6]) -> (o: BootOptionPlan)
    requires
        n < 2,
    ensures
        pxe_boot_option_is(o, n, mac@),
{
    let mut id: Vec<char> = Vec::new();
    let hi = mac_digits_of_byte(0);
    let lo = mac_digits_of_byte(n + 3);
    extend_chars(&mut id, &hi);
    extend_chars(&mut id, &lo);
    let mut reference: Vec<char> = Vec::new();
    extend_str(&mut reference, "Boot");
    extend_chars(&mut reference, &id);
    let text = mac_digits(mac, ":");
    let compact = mac_digits(mac, "");
    let mut name: Vec<char> = Vec::new();
    extend_str(&mut name, "[SlotFFFF]: PXE IPv4 Some Network Adapter - ");
    extend_chars(&mut name, &text);
    let mut path: Vec<char> = Vec::new();
    extend_str(&mut path, LENOVO_BOOT_PCI_PATH);
    extend_str(&mut path, "/MAC(");
    extend_chars(&mut path, &compact);
    extend_str(&mut path, ",0x1)/IPv4(0.0.0.0,0x0,DHCP,0.0.0.0,0.0.0.0,0.0.0.0)/Uri()");
    BootOptionPlan {
        id: string_of(&id),
        reference: string_of(&reference),
        kind: Some(BootOptionKind::Network),
        display_name: string_of(&name),
        alias: None,
        uefi_device_path: Some(string_of(&path)),
        odata_etag: None,
    }
}

fn with_suffix(s: &String, suffix: &str) -> (r: String)
    ensures
        r@ == s@ + suffix@,
{
    let mut v: Vec<char> = Vec::new();
    extend_str(&mut v, s.as_str());
    extend_str(&mut v, suffix);
    string_of(&v)
}

fn suffixed(o: &Option<String>, suffix: &str) -> (r: Option<String>)
    ensures
        o is None ==> r is None,
        o matches Some(s) ==> opt_is(r, s@ + suffix@),
{
    match o {
        Some(s) => Some(with_suffix(s, suffix)),
        None => None,
    }
}

fn indexed_id(prefix: &str, n: u64) -> (s: String)
    ensures
        s@ == prefix@ + decimal(n as nat),
{
    let mut v: Vec<char> = Vec::new();
    extend_str(&mut v, prefix);
    push_decimal(&mut v, n);
    string_of(&v)
}

impl LenovoGB300Nvl {
    /// Sensors of the tray's main chassis.
    pub fn sensor_layout() -> (l: SensorLayout)
        ensures
            l == layout(47, 2, 12, 24, 0),
    {
        SensorLayout { temperature: 47, power: 2, leak: 12, fan: 24, current: 0 }
    }

    /// The tray's two managers: its BMC, with its three interfaces and the
    /// host interface enabled, and the HGX BMC.
    pub fn manager_config(&self) -> (r: Vec<ManagerPlan>)
        ensures
            r@.len() == 2,
            r@[0].id@ == "BMC_0"@,
            r@[0].eth_interfaces matches Some(e) && e@.len() == 3
                && enabled_eth(e@[0], "eth0"@, self.bmc_mac_address_eth0@)
                && enabled_eth(e@[1], "eth1"@, self.bmc_mac_address_eth1@)
                && enabled_eth(e@[2], "usb0"@, self.bmc_mac_address_usb0@),
            r@[0].host_interfaces matches Some(h) && h@.len() == 1 && h@[0].1 && h@[0].0.id@ == "Self"@
                && h@[0].0.odata_id@ == host_interfaces_path("BMC_0"@) + "/"@ + "Self"@,
            r@[0].firmware_version matches Some(v) && v@ == "3.00.0"@,
            r@[1].id@ == "HGX_BMC_0"@,
            r@[1].eth_interfaces matches Some(e) && e@.len() == 1
                && enabled_eth(e@[0], "usb0"@, self.hgx_bmc_mac_address_usb0@),
            r@[1].host_interfaces is None,
            r@[1].firmware_version matches Some(v) && v@ == "GB200Nvl-25.08-B"@,
            !r@[0].dell_oem && !r@[1].dell_oem,
    {
        let mut bmc_eths: Vec<EthInterfacePlan> = Vec::new();
        bmc_eths.push(enabled_eth_plan("eth0", self.bmc_mac_address_eth0));
        bmc_eths.push(enabled_eth_plan("eth1", self.bmc_mac_address_eth1));
        bmc_eths.push(enabled_eth_plan("usb0", self.bmc_mac_address_usb0));
        let mut ifaces: Vec<(Resource, bool)> = Vec::new();
        ifaces.push((manager_resource("BMC_0", "Self"), true));
        let mut hgx_eths: Vec<EthInterfacePlan> = Vec::new();
        hgx_eths.push(enabled_eth_plan("usb0", self.hgx_bmc_mac_address_usb0));
        let mut r: Vec<ManagerPlan> = Vec::new();
        r.push(ManagerPlan {
            id: String::from_str("BMC_0"),
            eth_interfaces: Some(bmc_eths),
            host_interfaces: Some(ifaces),
            firmware_version: Some(String::from_str("3.00.0")),
            dell_oem: false,
        });
        r.push(ManagerPlan {
            id: String::from_str("HGX_BMC_0"),
            eth_interfaces: Some(hgx_eths),
            host_interfaces: None,
            firmware_version: Some(String::from_str("GB200Nvl-25.08-B")),
            dell_oem: false,
        });
        r
    }

    /// The tray's two computer systems, in the order the BMC reports them:
    /// the HGX baseboard, then the host, which boots from its disk or over
    /// PXE through the embedded NIC or the DPU.
    pub fn system_config(&self) -> (r: Vec<SystemPlan>)
        ensures
            r@.len() == 2,
            r@[0].id@ == "HGX_Baseboard_0"@,
            opt_is(r@[0].manufacturer, "NVIDIA"@) && opt_is(r@[0].model, "GB300 1CPU:2GPU Board PC"@),
            opt_is(r@[0].serial_number, self.hgx_serial_number@),
            r@[0].chassis@.len() == 1 && r@[0].chassis@[0]@ == "HGX_Chassis_0"@,
            r@[0].eth_interfaces is None && r@[0].boot_options is None && r@[0].bios_attributes is None,
            r@[0].bios_odata_context is None,
            r@[0].boot_order_mode == BootOrderMode::Generic && r@[0].bios_mode == BiosMode::Generic,
            r@[0].oem == SystemOem::Generic,
            !r@[0].controlled && r@[0].event_log is None && !r@[0].storage_listed && !r@[0].secure_boot_available,
            r@[1].id@ == "System_0"@,
            opt_is(r@[1].manufacturer, "Lenovo"@) && opt_is(r@[1].model, "HG634N_V2"@),
            opt_is(r@[1].serial_number, self.system_0_serial_number@),
            r@[1].chassis@.len() == 1 && r@[1].chassis@[0]@ == "Chassis_0"@,
            r@[1].eth_interfaces matches Some(e) && e@.len() == 1 && e@[0].id@ == "EthernetInterface0"@
                && e@[0].mac_address == self.embedded_1g_nic.mac_address && e@[0].description is None
                && e@[0].interface_enabled == Some(false),
            r@[1].boot_options matches Some(b) && b@.len() == 3
                && plain_boot_option(b@[0], "0002"@, "Boot0002"@, Some(BootOptionKind::Disk), "ubuntu"@, None)
                && pxe_boot_option_is(b@[1], 0, self.embedded_1g_nic.mac_address@)
                && pxe_boot_option_is(b@[2], 1, self.dpu.host_mac_address@),
            r@[1].bios_attributes matches Some(a) && lenovo_bios_attrs_are(a@),
            r@[1].bios_odata_context is None,
            r@[1].boot_order_mode == BootOrderMode::Generic && r@[1].bios_mode == BiosMode::Generic,
            r@[1].oem == SystemOem::Generic,
            r@[1].controlled && r@[1].event_log is None && !r@[1].storage_listed && r@[1].secure_boot_available,
    {
        let mut boot: Vec<BootOptionPlan> = Vec::new();
        boot.push(BootOptionPlan {
            id: String::from_str("0002"),
            reference: String::from_str("Boot0002"),
            kind: Some(BootOptionKind::Disk),
            display_name: String::from_str("ubuntu"),
            alias: None,
            uefi_device_path: None,
            odata_etag: None,
        });
        boot.push(pxe_boot_option(0, &self.embedded_1g_nic.mac_address));
        let dpu_nic = self.dpu.host_nic();
        boot.push(pxe_boot_option(1, &dpu_nic.mac_address));
        let mut eths: Vec<EthInterfacePlan> = Vec::new();
        eths.push(EthInterfacePlan {
            id: String::from_str("EthernetInterface0"),
            mac_address: self.embedded_1g_nic.mac_address,
            description: None,
            interface_enabled: Some(false),
        });
        let mut hgx_chassis: Vec<String> = Vec::new();
        hgx_chassis.push(String::from_str("HGX_Chassis_0"));
        let mut host_chassis: Vec<String> = Vec::new();
        host_chassis.push(String::from_str("Chassis_0"));
        let mut r: Vec<SystemPlan> = Vec::new();
        r.push(SystemPlan {
            id: String::from_str("HGX_Baseboard_0"),
            manufacturer: Some(String::from_str("NVIDIA")),
            model: Some(String::from_str("GB300 1CPU:2GPU Board PC")),
            serial_number: Some(self.hgx_serial_number.clone()),
            eth_interfaces: None,
            chassis: hgx_chassis,
            boot_options: None,
            bios_attributes: None,
            bios_odata_context: None,
            boot_order_mode: BootOrderMode::Generic,
            bios_mode: BiosMode::Generic,
            oem: SystemOem::Generic,
            controlled: false,
            event_log: None,
            storage_listed: false,
            secure_boot_available: false,
        });
        r.push(SystemPlan {
            id: String::from_str("System_0"),
            manufacturer: Some(String::from_str("Lenovo")),
            model: Some(String::from_str("HG634N_V2")),
            serial_number: Some(self.system_0_serial_number.clone()),
            eth_interfaces: Some(eths),
            chassis: host_chassis,
            boot_options: Some(boot),
            bios_attributes: Some(lenovo_bios_attrs()),
            bios_odata_context: None,
            boot_order_mode: BootOrderMode::Generic,
            bios_mode: BiosMode::Generic,
            oem: SystemOem::Generic,
            controlled: true,
            event_log: None,
            storage_listed: false,
            secure_boot_available: true,
        });
        r
    }

    fn dpu_chassis(&self) -> (p: ChassisPlan)
        ensures
            lenovo_dpu_chassis_is(p, self.dpu),
    {
        let nic = self.dpu.host_nic();
        ChassisPlan {
            id: String::from_str("Riser_Slot1_BlueField_3_SmartNIC_Main_Card"),
            chassis_type: String::from_str("Component"),
            manufacturer: Some(String::from_str("Nvidia")),
            part_number: suffixed(&nic.part_number, "           "),
            model: Some(String::from_str("BlueField-3 SmartNIC Main Card")),
            serial_number: suffixed(&nic.serial_number, "                 "),
            sensor_layout: Some(SensorLayout { temperature: 4, power: 0, leak: 0, fan: 0, current: 0 }),
            pcie_devices: None,
            network_adapters: None,
            assembly_serial: None,
            power_supplies: None,
        }
    }

    /// The tray's chassis, in order: the compute-board controllers `cbc`
    /// (built from the rack topology), the rack-mount chassis, the two CPU,
    /// four GPU and two I/O-board chassis, and the BlueField-3 riser card.
    pub fn chassis_config(&self, cbc: Vec<ChassisPlan>) -> (r: Vec<ChassisPlan>)
        ensures
            r@.len() == cbc@.len() + 10,
            r@.subrange(0, cbc@.len() as int) == cbc@,
            chassis_head(r@[cbc@.len() as int], "Chassis_0"@, "RackMount"@, "Lenovo"@, "SC57C26750"@, " "@),
            r@[cbc@.len() as int].serial_number matches Some(s) && s@ == self.chassis_0_serial_number@,
            r@[cbc@.len() as int].sensor_layout == Some(layout(47, 2, 12, 24, 0)),
            r@[cbc@.len() as int].pcie_devices is None && r@[cbc@.len() as int].network_adapters is None,
            r@[cbc@.len() as int].assembly_serial is None && r@[cbc@.len() as int].power_supplies is None,
            forall|n: int| 0 <= n < 2 ==> plain_chassis(#[trigger] r@[cbc@.len() + 1 + n], "HGX_CPU_"@
                + decimal(n as nat), "NVIDIA"@, "900-2G548-0081-000"@, "Grace A02P"@, self.cpu@[n].serial_number@,
                layout(2, 5, 2, 0, 0)) && r@[cbc@.len() + 1 + n].pcie_devices is None
                && r@[cbc@.len() + 1 + n].network_adapters is None,
            forall|n: int| 0 <= n < 4 ==> plain_chassis(#[trigger] r@[cbc@.len() + 3 + n], "HGX_GPU_"@
                + decimal(n as nat), "NVIDIA"@, "SC57C26750"@, "NVIDIA GB300"@, self.gpu@[n].serial_number@,
                layout(3, 2, 1, 0, 0)) && r@[cbc@.len() + 3 + n].pcie_devices is None
                && r@[cbc@.len() + 3 + n].network_adapters is None,
            forall|n: int| 0 <= n < 2 ==> plain_chassis(#[trigger] r@[cbc@.len() + 7 + n], "IO_board_"@
                + decimal(n as nat), "Nvidia"@, "900-9X86E-00CX-ST0           "@, "P4768-B01"@,
                self.io_board@[n].serial_number@, layout(8, 0, 0, 0, 0))
                && r@[cbc@.len() + 7 + n].pcie_devices is None && r@[cbc@.len() + 7 + n].network_adapters is None,
            lenovo_dpu_chassis_is(r@[cbc@.len() + 9int], self.dpu),
    {
        let ghost cbc_v = cbc@;
        let n = cbc.len();
        let mut r = cbc;
        r.push(ChassisPlan {
            id: String::from_str("Chassis_0"),
            chassis_type: String::from_str("RackMount"),
            manufacturer: Some(String::from_str("Lenovo")),
            part_number: Some(String::from_str("SC57C26750")),
            model: Some(String::from_str(" ")),
            serial_number: Some(self.chassis_0_serial_number.clone()),
            sensor_layout: Some(Self::sensor_layout()),
            pcie_devices: None,
            network_adapters: None,
            assembly_serial: None,
            power_supplies: None,
        });
        r.push(self.cpu[0].as_hgx_chassis(indexed_id("HGX_CPU_", 0)));
        r.push(self.cpu[1].as_hgx_chassis(indexed_id("HGX_CPU_", 1)));
        r.push(self.gpu[0].as_hgx_chassis(indexed_id("HGX_GPU_", 0)));
        r.push(self.gpu[1].as_hgx_chassis(indexed_id("HGX_GPU_", 1)));
        r.push(self.gpu[2].as_hgx_chassis(indexed_id("HGX_GPU_", 2)));
        r.push(self.gpu[3].as_hgx_chassis(indexed_id("HGX_GPU_", 3)));
        r.push(self.io_board[0].as_chassis(indexed_id("IO_board_", 0)));
        r.push(self.io_board[1].as_chassis(indexed_id("IO_board_", 1)));
        r.push(self.dpu_chassis());
        assert(r@.subrange(0, n as int) =~= cbc_v);
        assert forall|k: int| 0 <= k < 2 implies plain_chassis(#[trigger] r@[n + 1 + k], "HGX_CPU_"@
            + decimal(k as nat), "NVIDIA"@, "900-2G548-0081-000"@, "Grace A02P"@, self.cpu@[k].serial_number@,
            layout(2, 5, 2, 0, 0)) && r@[n + 1 + k].pcie_devices is None && r@[n + 1 + k].network_adapters is None by {
            if k == 0 {} else {}
        }
        assert forall|k: int| 0 <= k < 4 implies plain_chassis(#[trigger] r@[n + 3 + k], "HGX_GPU_"@
            + decimal(k as nat), "NVIDIA"@, "SC57C26750"@, "NVIDIA GB300"@, self.gpu@[k].serial_number@,
            layout(3, 2, 1, 0, 0)) && r@[n + 3 + k].pcie_devices is None && r@[n + 3 + k].network_adapters is None by {
            if k == 0 {} else if k == 1 {} else if k == 2 {} else {}
        }
        assert forall|k: int| 0 <= k < 2 implies plain_chassis(#[trigger] r@[n + 7 + k], "IO_board_"@
            + decimal(k as nat), "Nvidia"@, "900-9X86E-00CX-ST0           "@, "P4768-B01"@,
            self.io_board@[k].serial_number@, layout(8, 0, 0, 0, 0)) && r@[n + 7 + k].pcie_devices is None
            && r@[n + 7 + k].network_adapters is None by {
            if k == 0 {} else {}
        }
        r
    }

    /// The tray's firmware inventory, which lists nothing.
    pub fn update_service_config(&self) -> (r: Vec<(String, String)>)
        ensures
            r@.len() == 0,
    {
        Vec::new()
    }
}

} // verus!

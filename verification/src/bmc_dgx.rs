//! The mocked NVIDIA DGX H100: its managers, computer systems, chassis and
//! firmware inventory.

use vstd::prelude::*;
use crate::bmc_boards::{ChassisPlan, ComponentPlan, SensorLayout, component_is, layout, opt_is};
use crate::bmc_gb200::{
    Bluefield3, HostNic, chassis_head, component_from_nic, inventory_view, nic_component, nic_serial, part_number_of,
    push_entry,
};
use crate::bmc_attrs::AttrValue;
use crate::bmc_plans::{
    BiosMode, BootOptionPlan, BootOrderMode, EthInterfacePlan, ManagerPlan, SystemOem, SystemPlan, attr_is_text,
    bool_attr, enabled_eth, enabled_eth_plan, plain_boot_option, text_attr,
};
use crate::bmc_redfish::{Resource, host_interfaces_path, manager_resource};
use crate::boot_order::{hex_pair, mac_compact, mac_digits, mac_digits_of_byte, mac_text};
use crate::text::{decimal, extend_chars, extend_str, push_decimal, string_of};

verus! {

/// Whether `p` is the chassis of SXM GPU `index` with serial `serial`: one
/// PCIe device, the GPU itself.
pub open spec fn gpu_sxm_chassis_is(p: ChassisPlan, index: nat, serial: Seq<char>) -> bool {
    &&& chassis_head(p, "HGX_GPU_SXM_"@ + decimal(index), "Other"@, "NVIDIA"@, "2330-885-A1"@, "H100 80GB HBM3"@)
    &&& p.serial_number matches Some(s) && s@ == serial
    &&& p.sensor_layout == Some(layout(3, 2, 1, 0, 0))
    &&& p.network_adapters is None
    &&& p.assembly_serial is None
    &&& p.power_supplies is None
    &&& p.pcie_devices matches Some(d) && d@.len() == 1 && component_is(d@[0], "HGX_GPU_SXM_"@ + decimal(index),
        "GPU_SXM_"@ + decimal(index), "NVIDIA"@, "H100 80GB HBM3"@, "2330-885-A1"@, serial)
}

/// The chassis of SXM GPU `index` (counted from one) with serial `serial`:
/// one PCIe device, the GPU itself.
pub fn hgx_gpu_sxm_chassis(index: usize, serial: &str) -> (p: ChassisPlan)
    ensures
        gpu_sxm_chassis_is(p, index as nat, serial@),
{
    let mut idv: Vec<char> = Vec::new();
    extend_str(&mut idv, "HGX_GPU_SXM_");
    push_decimal(&mut idv, index as u64);
    let mut gpu: Vec<char> = Vec::new();
    extend_str(&mut gpu, "GPU_SXM_");
    push_decimal(&mut gpu, index as u64);
    let id = string_of(&idv);
    let mut devices: Vec<ComponentPlan> = Vec::new();
    devices.push(ComponentPlan {
        chassis_id: id.clone(),
        id: string_of(&gpu),
        manufacturer: Some(String::from_str("NVIDIA")),
        model: Some(String::from_str("H100 80GB HBM3")),
        part_number: Some(String::from_str("2330-885-A1")),
        serial_number: Some(String::from_str(serial)),
        functions: None,
        status_ok: false,
    });
    ChassisPlan {
        id,
        chassis_type: String::from_str("Other"),
        manufacturer: Some(String::from_str("NVIDIA")),
        part_number: Some(String::from_str("2330-885-A1")),
        model: Some(String::from_str("H100 80GB HBM3")),
        serial_number: Some(String::from_str(serial)),
        sensor_layout: Some(SensorLayout { temperature: 3, power: 2, leak: 1, fan: 0, current: 0 }),
        pcie_devices: Some(devices),
        network_adapters: None,
        assembly_serial: None,
        power_supplies: None,
    }
}

/// Number of PCIe devices the DGX main chassis lists.
pub const DGX_PCIE_DEVICE_COUNT: u8 = 133;

/// The id of the `n`th PCIe device of the DGX main chassis: `00_00_`
/// and `n` as two upper-case hexadecimal digits.
pub open spec fn dgx_pcie_device_id(n: u8) -> Seq<char> {
    "00_00_"@ + hex_pair(n)
}

/// The ids of the PCIe devices of the DGX main chassis, in order.
pub fn dgx_pcie_device_ids() -> (r: Vec<String>)
    ensures
        r@.len() == DGX_PCIE_DEVICE_COUNT,
        forall|n: int| 0 <= n < r@.len() ==> #[trigger] r@[n]@ == dgx_pcie_device_id(n as u8),
{
    let mut r: Vec<String> = Vec::new();
    let mut n: u8 = 0;
    while n < DGX_PCIE_DEVICE_COUNT
        invariant
            n <= DGX_PCIE_DEVICE_COUNT,
            r@.len() == n,
            forall|k: int| 0 <= k < n ==> #[trigger] r@[k]@ == dgx_pcie_device_id(k as u8),
        decreases DGX_PCIE_DEVICE_COUNT - n,
    {
        let mut v: Vec<char> = Vec::new();
        extend_str(&mut v, "00_00_");
        let pair = crate::boot_order::mac_digits_of_byte(n);
        crate::text::extend_chars(&mut v, &pair);
        r.push(string_of(&v));
        n = n + 1;
    }
    r
}

/// An NVIDIA DGX H100 system. Each network card is held as the NICs it
/// presents to the host: four InfiniBand ports on each of the two
/// ConnectX-7 cards, the management NIC, and two Ethernet ports on each
/// storage card.
#[derive(Clone, Debug)]
pub struct NvidiaDgxH100 {
    pub dgx_system_serial_number: String,
    pub dgx_chassis_serial_number: String,
    pub ib_nics: [[HostNic; 4]; 2],
    pub mgmt_nic: HostNic,
    pub dpu: Bluefield3,
    pub storage_nic0: [HostNic; 2],
    pub storage_nic1: [HostNic; 2],
    pub gpu_serial: [String; 8],
    pub bmc_mac_address_eth0: [u8; 6],
    pub bmc_mac_address_usb0: [u8; 6],
    pub hgx_bmc_mac_address_usb0: [u8; 6],
}

/// The firmware inventory of the DGX BMC.
pub open spec fn dgx_firmware() -> Seq<(Seq<char>, Seq<char>)> {
    seq![("CPLDMB_0"@, "0.2.1.9"@), ("HostBIOS_0"@, "01.05.03"@), ("HostBMC_0"@, "24.09.17"@)]
}

/// A component with only a chassis and an id.
pub open spec fn bare_component(c: ComponentPlan, chassis_id: Seq<char>, id: Seq<char>) -> bool {
    &&& c.chassis_id@ == chassis_id
    &&& c.id@ == id
    &&& c.manufacturer is None && c.model is None && c.part_number is None && c.serial_number is None
    &&& c.functions is None && !c.status_ok
}

/// The adapter built from a BlueField-3 card's NIC as a DGX H100 host sees it.
pub open spec fn h100_dpu_adapter_is(c: ComponentPlan, chassis_id: Seq<char>, id: Seq<char>, card: Bluefield3) -> bool {
    &&& c.chassis_id@ == chassis_id
    &&& c.id@ == id
    &&& opt_is(c.manufacturer, "MLNX"@)
    &&& opt_is(c.model, "D3B6           "@)
    &&& opt_is(c.part_number, part_number_of(card.mode) + "       "@)
    &&& opt_is(c.serial_number, nic_serial(card.product_serial_number@))
}

/// The id of the DGX network adapter with key `key`.
pub open spec fn dgx_adapter_id(key: Seq<char>) -> Seq<char> {
    "DevType7_NIC"@ + key
}

/// The network adapters of the DGX main chassis, in the order of their keys
/// as text: the plain adapter 0, the DPU (1), the InfiniBand ports (keys 10,
/// 11, 7 and 9 on the first card, 2, 4, 5 and 6 on the second) and the
/// first port of each storage card (3 and 8).
pub open spec fn dgx_adapters_are(a: Seq<ComponentPlan>, d: NvidiaDgxH100) -> bool {
    &&& a.len() == 12
    &&& bare_component(a[0], "DGX"@, dgx_adapter_id("0"@))
    &&& h100_dpu_adapter_is(a[1], "DGX"@, dgx_adapter_id("1"@), d.dpu)
    &&& nic_component(a[2], "DGX"@, dgx_adapter_id("10"@), d.ib_nics[0][0])
    &&& nic_component(a[3], "DGX"@, dgx_adapter_id("11"@), d.ib_nics[0][1])
    &&& nic_component(a[4], "DGX"@, dgx_adapter_id("2"@), d.ib_nics[1][0])
    &&& nic_component(a[5], "DGX"@, dgx_adapter_id("3"@), d.storage_nic0[0])
    &&& nic_component(a[6], "DGX"@, dgx_adapter_id("4"@), d.ib_nics[1][1])
    &&& nic_component(a[7], "DGX"@, dgx_adapter_id("5"@), d.ib_nics[1][2])
    &&& nic_component(a[8], "DGX"@, dgx_adapter_id("6"@), d.ib_nics[1][3])
    &&& nic_component(a[9], "DGX"@, dgx_adapter_id("7"@), d.ib_nics[0][2])
    &&& nic_component(a[10], "DGX"@, dgx_adapter_id("8"@), d.storage_nic1[0])
    &&& nic_component(a[11], "DGX"@, dgx_adapter_id("9"@), d.ib_nics[0][3])
}

fn adapter_id_string(key: &str) -> (s: String)
    ensures
        s@ == dgx_adapter_id(key@),
{
    let mut id: Vec<char> = Vec::new();
    extend_str(&mut id, "DevType7_NIC");
    extend_str(&mut id, key);
    string_of(&id)
}

fn adapter_of(key: &str, nic: &HostNic) -> (c: ComponentPlan)
    ensures
        nic_component(c, "DGX"@, dgx_adapter_id(key@), *nic),
{
    component_from_nic("DGX", adapter_id_string(key), nic)
}

impl NvidiaDgxH100 {
    fn network_adapters(&self) -> (r: Vec<ComponentPlan>)
        ensures
            dgx_adapters_are(r@, *self),
    {
        let mut r: Vec<ComponentPlan> = Vec::new();
        r.push(ComponentPlan {
            chassis_id: String::from_str("DGX"),
            id: adapter_id_string("0"),
            manufacturer: None,
            model: None,
            part_number: None,
            serial_number: None,
            functions: None,
            status_ok: false,
        });
        let dpu_nic = self.dpu.host_nic_h100_variant();
        r.push(component_from_nic("DGX", adapter_id_string("1"), &dpu_nic));
        r.push(adapter_of("10", &self.ib_nics[0][0]));
        r.push(adapter_of("11", &self.ib_nics[0][1]));
        r.push(adapter_of("2", &self.ib_nics[1][0]));
        r.push(adapter_of("3", &self.storage_nic0[0]));
        r.push(adapter_of("4", &self.ib_nics[1][1]));
        r.push(adapter_of("5", &self.ib_nics[1][2]));
        r.push(adapter_of("6", &self.ib_nics[1][3]));
        r.push(adapter_of("7", &self.ib_nics[0][2]));
        r.push(adapter_of("8", &self.storage_nic1[0]));
        r.push(adapter_of("9", &self.ib_nics[0][3]));
        r
    }

    fn pcie_devices() -> (r: Vec<ComponentPlan>)
        ensures
            r@.len() == DGX_PCIE_DEVICE_COUNT,
            forall|n: int| 0 <= n < r@.len() ==> bare_component(#[trigger] r@[n], "DGX"@, dgx_pcie_device_id(n as u8)),
    {
        let ids = dgx_pcie_device_ids();
        let mut r: Vec<ComponentPlan> = Vec::new();
        let mut i: usize = 0;
        while i < ids.len()
            invariant
                i <= ids@.len(),
                ids@.len() == DGX_PCIE_DEVICE_COUNT,
                forall|n: int| 0 <= n < ids@.len() ==> #[trigger] ids@[n]@ == dgx_pcie_device_id(n as u8),
                r@.len() == i,
                forall|n: int| 0 <= n < i ==> bare_component(#[trigger] r@[n], "DGX"@, dgx_pcie_device_id(n as u8)),
            decreases ids.len() - i,
        {
            r.push(ComponentPlan {
                chassis_id: String::from_str("DGX"),
                id: ids[i].clone(),
                manufacturer: None,
                model: None,
                part_number: None,
                serial_number: None,
                functions: None,
                status_ok: false,
            });
            i = i + 1;
        }
        r
    }

    /// The system's chassis, in order: the CPU baseboard, the DGX main
    /// chassis with its network adapters and PCIe devices, and the eight
    /// SXM GPU chassis.
    pub fn chassis_config(&self) -> (r: Vec<ChassisPlan>)
        ensures
            r@.len() == 10,
            chassis_head(r@[0], "CPUBaseboard"@, "Component"@, "NVIDIA"@, "965-24387-0002-000"@, "DGXH100"@),
            r@[0].serial_number matches Some(s) && s@ == self.dgx_system_serial_number@,
            r@[0].sensor_layout == Some(layout(120, 0, 0, 0, 0)),
            r@[0].network_adapters matches Some(a) && a@.len() == 0,
            r@[0].pcie_devices is None && r@[0].assembly_serial is None && r@[0].power_supplies is None,
            chassis_head(r@[1], "DGX"@, "Other"@, "NVIDIA"@, "965-24387-0002-000"@, "DGXH100"@),
            r@[1].serial_number matches Some(s) && s@ == self.dgx_chassis_serial_number@,
            r@[1].sensor_layout == Some(layout(120, 47, 17, 36, 3)),
            r@[1].network_adapters matches Some(a) && dgx_adapters_are(a@, *self),
            r@[1].pcie_devices matches Some(d) && d@.len() == DGX_PCIE_DEVICE_COUNT && forall|n: int|
                0 <= n < d@.len() ==> bare_component(#[trigger] d@[n], "DGX"@, dgx_pcie_device_id(n as u8)),
            r@[1].assembly_serial is None && r@[1].power_supplies is None,
            forall|i: int| 0 <= i < 8 ==> gpu_sxm_chassis_is(#[trigger] r@[2 + i], (i + 1) as nat,
                self.gpu_serial@[i]@),
    {
        let mut r: Vec<ChassisPlan> = Vec::new();
        r.push(ChassisPlan {
            id: String::from_str("CPUBaseboard"),
            chassis_type: String::from_str("Component"),
            manufacturer: Some(String::from_str("NVIDIA")),
            part_number: Some(String::from_str("965-24387-0002-000")),
            model: Some(String::from_str("DGXH100")),
            serial_number: Some(self.dgx_system_serial_number.clone()),
            sensor_layout: Some(SensorLayout { temperature: 120, power: 0, leak: 0, fan: 0, current: 0 }),
            pcie_devices: None,
            network_adapters: Some(Vec::new()),
            assembly_serial: None,
            power_supplies: None,
        });
        r.push(ChassisPlan {
            id: String::from_str("DGX"),
            chassis_type: String::from_str("Other"),
            manufacturer: Some(String::from_str("NVIDIA")),
            part_number: Some(String::from_str("965-24387-0002-000")),
            model: Some(String::from_str("DGXH100")),
            serial_number: Some(self.dgx_chassis_serial_number.clone()),
            sensor_layout: Some(SensorLayout { temperature: 120, power: 47, leak: 17, fan: 36, current: 3 }),
            pcie_devices: Some(Self::pcie_devices()),
            network_adapters: Some(self.network_adapters()),
            assembly_serial: None,
            power_supplies: None,
        });
        let mut index: usize = 1;
        while index <= 8
            invariant
                1 <= index <= 9,
                r@.len() == index + 1,
                r@[0].id@ == "CPUBaseboard"@,
                chassis_head(r@[0], "CPUBaseboard"@, "Component"@, "NVIDIA"@, "965-24387-0002-000"@, "DGXH100"@),
                r@[0].serial_number matches Some(s) && s@ == self.dgx_system_serial_number@,
                r@[0].sensor_layout == Some(layout(120, 0, 0, 0, 0)),
                r@[0].network_adapters matches Some(a) && a@.len() == 0,
                r@[0].pcie_devices is None && r@[0].assembly_serial is None && r@[0].power_supplies is None,
                chassis_head(r@[1], "DGX"@, "Other"@, "NVIDIA"@, "965-24387-0002-000"@, "DGXH100"@),
                r@[1].serial_number matches Some(s) && s@ == self.dgx_chassis_serial_number@,
                r@[1].sensor_layout == Some(layout(120, 47, 17, 36, 3)),
                r@[1].network_adapters matches Some(a) && dgx_adapters_are(a@, *self),
                r@[1].pcie_devices matches Some(d) && d@.len() == DGX_PCIE_DEVICE_COUNT && forall|n: int|
                    0 <= n < d@.len() ==> bare_component(#[trigger] d@[n], "DGX"@, dgx_pcie_device_id(n as u8)),
                r@[1].assembly_serial is None && r@[1].power_supplies is None,
                forall|i: int| 0 <= i < index - 1 ==> gpu_sxm_chassis_is(#[trigger] r@[2 + i], (i + 1) as nat,
                    self.gpu_serial@[i]@),
            decreases 9 - index,
        {
            r.push(hgx_gpu_sxm_chassis(index, self.gpu_serial[index - 1].as_str()));
            index = index + 1;
        }
        r
    }

    /// The system's three managers: its BMC, with both interfaces and the
    /// host interface enabled, the HGX BMC, and the HGX fabric manager.
    pub fn manager_config(&self) -> (r: Vec<ManagerPlan>)
        ensures
            r@.len() == 3,
            r@[0].id@ == "BMC"@,
            r@[0].eth_interfaces matches Some(e) && e@.len() == 2
                && enabled_eth(e@[0], "eth0"@, self.bmc_mac_address_eth0@)
                && enabled_eth(e@[1], "usb0"@, self.bmc_mac_address_usb0@),
            r@[0].host_interfaces matches Some(h) && h@.len() == 1 && h@[0].1 && h@[0].0.id@ == "Self"@
                && h@[0].0.odata_id@ == host_interfaces_path("BMC"@) + "/"@ + "Self"@,
            r@[0].firmware_version matches Some(v) && v@ == "25.02.12"@,
            r@[1].id@ == "HGX_BMC_0"@,
            r@[1].eth_interfaces matches Some(e) && e@.len() == 1
                && enabled_eth(e@[0], "usb0"@, self.hgx_bmc_mac_address_usb0@),
            r@[1].host_interfaces is None,
            r@[1].firmware_version matches Some(v) && v@ == "HGX-22.10-1-rc67"@,
            r@[2].id@ == "HGX_FabricManager_0"@,
            r@[2].eth_interfaces is None && r@[2].host_interfaces is None && r@[2].firmware_version is None,
            !r@[0].dell_oem && !r@[1].dell_oem && !r@[2].dell_oem,
    {
        let mut bmc_eths: Vec<EthInterfacePlan> = Vec::new();
        bmc_eths.push(enabled_eth_plan("eth0", self.bmc_mac_address_eth0));
        bmc_eths.push(enabled_eth_plan("usb0", self.bmc_mac_address_usb0));
        let mut ifaces: Vec<(Resource, bool)> = Vec::new();
        ifaces.push((manager_resource("BMC", "Self"), true));
        let mut hgx_eths: Vec<EthInterfacePlan> = Vec::new();
        hgx_eths.push(enabled_eth_plan("usb0", self.hgx_bmc_mac_address_usb0));
        let mut r: Vec<ManagerPlan> = Vec::new();
        r.push(ManagerPlan {
            id: String::from_str("BMC"),
            eth_interfaces: Some(bmc_eths),
            host_interfaces: Some(ifaces),
            firmware_version: Some(String::from_str("25.02.12")),
            dell_oem: false,
        });
        r.push(ManagerPlan {
            id: String::from_str("HGX_BMC_0"),
            eth_interfaces: Some(hgx_eths),
            host_interfaces: None,
            firmware_version: Some(String::from_str("HGX-22.10-1-rc67")),
            dell_oem: false,
        });
        r.push(ManagerPlan {
            id: String::from_str("HGX_FabricManager_0"),
            eth_interfaces: None,
            host_interfaces: None,
            firmware_version: None,
            dell_oem: false,
        });
        r
    }

    /// The firmware inventory of the system's BMC.
    pub fn update_service_config(&self) -> (r: Vec<(String, String)>)
        ensures
            inventory_view(r@) == dgx_firmware(),
    {
        let mut r: Vec<(String, String)> = Vec::new();
        assert(inventory_view(r@) =~= Seq::empty());
        push_entry(&mut r, "CPLDMB_0", "0.2.1.9");
        push_entry(&mut r, "HostBIOS_0", "01.05.03");
        push_entry(&mut r, "HostBMC_0", "24.09.17");
        assert(inventory_view(r@) =~= dgx_firmware());
        r
    }
}

/// The PCI path the DGX HTTP boot options start from.
pub const DGX_BOOT_PCI_PATH: &'static str = "PciRoot(0x0)/Pci(0x10,0x0)/Pci(0x0,0x0)";

/// Id of the `n`th HTTP boot option (below six): `n + 10` as four
/// upper-case hexadecimal digits.
pub open spec fn dgx_boot_id(n: u8) -> Seq<char> {
    hex_pair(0) + hex_pair((n + 10) as u8)
}

/// Whether `o` is the `n`th HTTP boot option, through the NIC with MAC `mac`.
pub open spec fn dgx_http_boot_option_is(o: BootOptionPlan, n: u8, mac: Seq<u8>) -> bool {
    &&& o.id@ == dgx_boot_id(n)
    &&& o.reference@ == "Boot"@ + dgx_boot_id(n)
    &&& o.kind is None
    &&& o.display_name@ == "UEFI Pn: HTTP IPv4 - "@ + mac_text(mac)
    &&& opt_is(o.alias, "UefiHttp"@)
    &&& opt_is(o.uefi_device_path, DGX_BOOT_PCI_PATH@ + "/MAC("@ + mac_compact(mac)
        + ",0x1)/IPv4(0.0.0.0,0x0,DHCP,0.0.0.0,0.0.0.0,0.0.0.0)/Uri()"@)
    &&& opt_is(o.odata_etag, "MakeLibRedfishHappy"@)
}

/// MAC addresses of the NICs the host boots over HTTP through, in boot
/// option order: the management NIC, both ports of each storage card, the DPU.
pub open spec fn dgx_boot_macs(d: NvidiaDgxH100) -> Seq<Seq<u8>> {
    seq![d.mgmt_nic.mac_address@, d.storage_nic0[0].mac_address@, d.storage_nic0[1].mac_address@,
        d.storage_nic1[0].mac_address@, d.storage_nic1[1].mac_address@, d.dpu.host_mac_address@]
}

/// MAC addresses of the host's Ethernet interfaces, in order: the
/// management NIC, the DPU, both ports of each storage card.
pub open spec fn dgx_eth_macs(d: NvidiaDgxH100) -> Seq<Seq<u8>> {
    seq![d.mgmt_nic.mac_address@, d.dpu.host_mac_address@, d.storage_nic0[0].mac_address@,
        d.storage_nic0[1].mac_address@, d.storage_nic1[0].mac_address@, d.storage_nic1[1].mac_address@]
}

/// The attributes of the host BIOS.
pub open spec fn dgx_bios_attrs_are(a: Seq<(String, AttrValue)>) -> bool {
    &&& a.len() == 13
    &&& a[0].0@ == "AcpiSpcrConsoleRedirectionEnable"@ && a[0].1 == AttrValue::Bool(true)
    &&& a[1].0@ == "ConsoleRedirectionEnable0"@ && a[1].1 == AttrValue::Bool(true)
    &&& attr_is_text(a[2], "AcpiSpcrPort"@, "COM0"@)
    &&& attr_is_text(a[3], "AcpiSpcrFlowControl"@, "None"@)
    &&& attr_is_text(a[4], "AcpiSpcrBaudRate"@, "115200"@)
    &&& attr_is_text(a[5], "BaudRate0"@, "115200"@)
    &&& attr_is_text(a[6], "SriovSupport"@, "Enabled"@)
    &&& attr_is_text(a[7], "VTdSupport"@, "Enable"@)
    &&& attr_is_text(a[8], "Ipv4Http"@, "Enabled"@)
    &&& attr_is_text(a[9], "Ipv4Pxe"@, "Disabled"@)
    &&& attr_is_text(a[10], "Ipv6Http"@, "Enabled"@)
    &&& attr_is_text(a[11], "Ipv6Pxe"@, "Disabled"@)
    &&& attr_is_text(a[12], "NvidiaInfiniteboot"@, "Enable"@)
}

fn dgx_bios_attrs() -> (a: Vec<(String, AttrValue)>)
    ensures
        dgx_bios_attrs_are(a@),
{
    let mut a: Vec<(String, AttrValue)> = Vec::new();
    a.push(bool_attr("AcpiSpcrConsoleRedirectionEnable", true));
    a.push(bool_attr("ConsoleRedirectionEnable0", true));
    a.push(text_attr("AcpiSpcrPort", "COM0"));
    a.push(text_attr("AcpiSpcrFlowControl", "None"));
    a.push(text_attr("AcpiSpcrBaudRate", "115200"));
    a.push(text_attr("BaudRate0", "115200"));
    a.push(text_attr("SriovSupport", "Enabled"));
    a.push(text_attr("VTdSupport", "Enable"));
    a.push(text_attr("Ipv4Http", "Enabled"));
    a.push(text_attr("Ipv4Pxe", "Disabled"));
    a.push(text_attr("Ipv6Http", "Enabled"));
    a.push(text_attr("Ipv6Pxe", "Disabled"));
    a.push(text_attr("NvidiaInfiniteboot", "Enable"));
    a
}

fn dgx_http_boot_option(n: u8, mac: &[u8; 6]) -> (o: BootOptionPlan)
    requires
        n < 6,
    ensures
        dgx_http_boot_option_is(o, n, mac@),
{
    let mut id: Vec<char> = Vec::new();
    let hi = mac_digits_of_byte(0);
    let lo = mac_digits_of_byte(n + 10);
    extend_chars(&mut id, &hi);
    extend_chars(&mut id, &lo);
    let mut reference: Vec<char> = Vec::new();
    extend_str(&mut reference, "Boot");
    extend_chars(&mut reference, &id);
    let text = mac_digits(mac, ":");
    let compact = mac_digits(mac, "");
    let mut name: Vec<char> = Vec::new();
    extend_str(&mut name, "UEFI Pn: HTTP IPv4 - ");
    extend_chars(&mut name, &text);
    let mut path: Vec<char> = Vec::new();
    extend_str(&mut path, DGX_BOOT_PCI_PATH);
    extend_str(&mut path, "/MAC(");
    extend_chars(&mut path, &compact);
    extend_str(&mut path, ",0x1)/IPv4(0.0.0.0,0x0,DHCP,0.0.0.0,0.0.0.0,0.0.0.0)/Uri()");
    BootOptionPlan {
        id: string_of(&id),
        reference: string_of(&reference),
        kind: None,
        display_name: string_of(&name),
        alias: Some(String::from_str("UefiHttp")),
        uefi_device_path: Some(string_of(&path)),
        odata_etag: Some(String::from_str("MakeLibRedfishHappy")),
    }
}

fn dgx_eth(index: u64, mac: [u8; 6]) -> (e: EthInterfacePlan)
    ensures
        e.id@ == "EthernetInterface"@ + decimal(index as nat),
        e.mac_address == mac,
        e.description is None,
        e.interface_enabled == Some(false),
{
    let mut id: Vec<char> = Vec::new();
    extend_str(&mut id, "EthernetInterface");
    push_decimal(&mut id, index);
    EthInterfacePlan { id: string_of(&id), mac_address: mac, description: None, interface_enabled: Some(false) }
}

impl NvidiaDgxH100 {
    /// The system's two computer systems: the host, which boots over HTTP
    /// through each of its Ethernet NICs and then from its OS, and the HGX
    /// baseboard.
    pub fn system_config(&self) -> (r: Vec<SystemPlan>)
        ensures
            r@.len() == 2,
            r@[0].id@ == "DGX"@,
            opt_is(r@[0].manufacturer, "NVIDIA"@) && opt_is(r@[0].model, "DGXH100"@),
            opt_is(r@[0].serial_number, self.dgx_system_serial_number@),
            r@[0].eth_interfaces matches Some(e) && e@.len() == 6 && forall|i: int| 0 <= i < 6 ==> {
                &&& (#[trigger] e@[i]).id@ == "EthernetInterface"@ + decimal(i as nat)
                &&& e@[i].mac_address@ == dgx_eth_macs(*self)[i]
                &&& e@[i].description is None && e@[i].interface_enabled == Some(false)
            },
            r@[0].chassis@.len() == 1 && r@[0].chassis@[0]@ == "BMC"@,
            r@[0].boot_options matches Some(b) && b@.len() == 7
                && (forall|i: int| 0 <= i < 6 ==> dgx_http_boot_option_is(#[trigger] b@[i], i as u8,
                    dgx_boot_macs(*self)[i]))
                && plain_boot_option(b@[6], "0030"@, "Boot0030"@, None, "UEFI OS"@, None),
            r@[0].bios_attributes matches Some(a) && dgx_bios_attrs_are(a@),
            opt_is(r@[0].bios_odata_context, "MakeLibRedfishHappy"@),
            r@[0].boot_order_mode == BootOrderMode::ViaSettings && r@[0].bios_mode == BiosMode::Generic,
            r@[0].oem == SystemOem::Generic,
            r@[0].controlled && r@[0].event_log is None && !r@[0].storage_listed && r@[0].secure_boot_available,
            r@[1].id@ == "HGX_Baseboard_0"@,
            opt_is(r@[1].manufacturer, "NVIDIA"@) && r@[1].model is None && r@[1].serial_number is None,
            r@[1].chassis@.len() == 1 && r@[1].chassis@[0]@ == "HGX_BMC_0"@,
            r@[1].eth_interfaces is None && r@[1].boot_options is None && r@[1].bios_attributes is None,
            r@[1].bios_odata_context is None,
            r@[1].boot_order_mode == BootOrderMode::Generic && r@[1].bios_mode == BiosMode::Generic,
            r@[1].oem == SystemOem::Generic,
            !r@[1].controlled && r@[1].event_log is None && !r@[1].storage_listed && !r@[1].secure_boot_available,
    {
        let mut eths: Vec<EthInterfacePlan> = Vec::new();
        eths.push(dgx_eth(0, self.mgmt_nic.mac_address));
        eths.push(dgx_eth(1, self.dpu.host_mac_address));
        eths.push(dgx_eth(2, self.storage_nic0[0].mac_address));
        eths.push(dgx_eth(3, self.storage_nic0[1].mac_address));
        eths.push(dgx_eth(4, self.storage_nic1[0].mac_address));
        eths.push(dgx_eth(5, self.storage_nic1[1].mac_address));
        assert forall|i: int| 0 <= i < 6 implies {
            &&& (#[trigger] eths@[i]).id@ == "EthernetInterface"@ + decimal(i as nat)
            &&& eths@[i].mac_address@ == dgx_eth_macs(*self)[i]
            &&& eths@[i].description is None && eths@[i].interface_enabled == Some(false)
        } by {
            if i == 0 {} else if i == 1 {} else if i == 2 {} else if i == 3 {} else if i == 4 {} else {}
        }
        let mut boot: Vec<BootOptionPlan> = Vec::new();
        boot.push(dgx_http_boot_option(0, &self.mgmt_nic.mac_address));
        boot.push(dgx_http_boot_option(1, &self.storage_nic0[0].mac_address));
        boot.push(dgx_http_boot_option(2, &self.storage_nic0[1].mac_address));
        boot.push(dgx_http_boot_option(3, &self.storage_nic1[0].mac_address));
        boot.push(dgx_http_boot_option(4, &self.storage_nic1[1].mac_address));
        boot.push(dgx_http_boot_option(5, &self.dpu.host_mac_address));
        boot.push(BootOptionPlan {
            id: String::from_str("0030"),
            reference: String::from_str("Boot0030"),
            kind: None,
            display_name: String::from_str("UEFI OS"),
            alias: None,
            uefi_device_path: None,
            odata_etag: None,
        });
        assert forall|i: int| 0 <= i < 6 implies dgx_http_boot_option_is(#[trigger] boot@[i], i as u8,
            dgx_boot_macs(*self)[i]) by {
            if i == 0 {} else if i == 1 {} else if i == 2 {} else if i == 3 {} else if i == 4 {} else {}
        }
        let mut host_chassis: Vec<String> = Vec::new();
        host_chassis.push(String::from_str("BMC"));
        let mut hgx_chassis: Vec<String> = Vec::new();
        hgx_chassis.push(String::from_str("HGX_BMC_0"));
        let mut r: Vec<SystemPlan> = Vec::new();
        r.push(SystemPlan {
            id: String::from_str("DGX"),
            manufacturer: Some(String::from_str("NVIDIA")),
            model: Some(String::from_str("DGXH100")),
            serial_number: Some(self.dgx_system_serial_number.clone()),
            eth_interfaces: Some(eths),
            chassis: host_chassis,
            boot_options: Some(boot),
            bios_attributes: Some(dgx_bios_attrs()),
            bios_odata_context: Some(String::from_str("MakeLibRedfishHappy")),
            boot_order_mode: BootOrderMode::ViaSettings,
            bios_mode: BiosMode::Generic,
            oem: SystemOem::Generic,
            controlled: true,
            event_log: None,
            storage_listed: false,
            secure_boot_available: true,
        });
        r.push(SystemPlan {
            id: String::from_str("HGX_Baseboard_0"),
            manufacturer: Some(String::from_str("NVIDIA")),
            model: None,
            serial_number: None,
            eth_interfaces: None,
            chassis: hgx_chassis,
            boot_options: None,
            bios_attributes: None,
            bios_odata_context: None,
            boot_order_mode: BootOrderMode::Generic,
            bios_mode: BiosMode::Generic,
            oem: SystemOem::Generic,
            controlled: false,
            event_log: None,
            storage_listed: false,
            secure_boot_available: false,
        });
        r
    }
}

} // verus!
